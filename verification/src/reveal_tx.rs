//! Reveal transactions: the skeleton, its fee, what is signed, and the witness.

use crate::chain::{
    outputs_view, OutPoint, Transaction, TransactionView, TxIn, TxInView, TxOut, TxOutView, Txid,
};
use crate::consensus::{
    dust_value, dust_value_of, reveal_sighash_of, tap_leaf_hash, tap_leaf_hash_of, vsize_of,
    weight_of, MAX_STANDARD_TX_WEIGHT,
};
use crate::error::Error;
use crate::fee::{fee_of, FeeRate};
use crate::script::copy_bytes;
use crate::slot::{MintSlot, RevealParts, RevealPartsView};
use vstd::prelude::*;

verus! {

/// The bytes of a Schnorr signature.
pub const SCHNORR_SIGNATURE_SIZE: usize = 64;

/// The transaction with one input that spends `input`, unsigned, and the one
/// output `output`.
pub open spec fn reveal_skeleton(input: OutPoint, output: TxOutView) -> TransactionView {
    TransactionView {
        version: 1,
        lock_time: 0,
        input: seq![TxIn::spec_unsigned(input)],
        output: seq![output],
    }
}

/// `tx` with `witness` on its first input.
pub open spec fn with_witness(tx: TransactionView, witness: Seq<Seq<u8>>) -> TransactionView {
    TransactionView {
        version: tx.version,
        lock_time: tx.lock_time,
        input: tx.input.update(
            0,
            TxInView {
                previous_output: tx.input[0].previous_output,
                script_sig: tx.input[0].script_sig,
                sequence: tx.input[0].sequence,
                witness,
            },
        ),
        output: tx.output,
    }
}

/// The stand-in for a signature while the fee is estimated: 64 zero bytes.
pub open spec fn placeholder_signature() -> Seq<u8> {
    Seq::new(SCHNORR_SIGNATURE_SIZE as nat, |i: int| 0u8)
}

/// The witness of a script-path spend: signature, leaf script, control block.
pub open spec fn reveal_witness(signature: Seq<u8>, script: Seq<u8>, control_block: Seq<u8>) -> Seq<
    Seq<u8>,
> {
    seq![signature, script, control_block]
}

/// The fee, at `fee_rate`, of the reveal that spends `input` to `output`,
/// sized with a stand-in signature in its witness.
pub open spec fn estimated_reveal_fee(
    control_block: Seq<u8>,
    fee_rate: FeeRate,
    input: OutPoint,
    output: TxOutView,
    script: Seq<u8>,
) -> nat {
    fee_of(
        fee_rate,
        vsize_of(
            with_witness(
                reveal_skeleton(input, output),
                reveal_witness(placeholder_signature(), script, control_block),
            ),
        ),
    )
}

/// The transaction with the one input `input` and the one output `output`.
fn single_spend(input: TxIn, output: TxOut) -> (tx: Transaction)
    ensures
        tx@ == (TransactionView {
            version: 1,
            lock_time: 0,
            input: seq![input@],
            output: seq![output@],
        }),
{
    let mut inputs: Vec<TxIn> = Vec::new();
    inputs.push(input);
    let mut outputs: Vec<TxOut> = Vec::new();
    outputs.push(output);
    let tx = Transaction { version: 1, lock_time: 0, input: inputs, output: outputs };
    assert(tx@.input =~= seq![input@]);
    assert(tx@.output =~= seq![output@]);
    tx
}

/// The witness stack that holds copies of the three items.
fn witness_stack(signature: &[u8], script: &Vec<u8>, control_block: &Vec<u8>) -> (witness: Vec<
    Vec<u8>,
>)
    ensures
        witness@.map_values(|item: Vec<u8>| item@) == reveal_witness(
            signature@,
            script@,
            control_block@,
        ),
{
    let mut witness: Vec<Vec<u8>> = Vec::new();
    witness.push(copy_bytes(signature));
    witness.push(copy_bytes(script.as_slice()));
    witness.push(copy_bytes(control_block.as_slice()));
    assert(witness@.map_values(|item: Vec<u8>| item@) =~= reveal_witness(
        signature@,
        script@,
        control_block@,
    ));
    witness
}

/// The unsigned reveal that spends `input` to `output`, and its estimated fee;
/// `FeeOverflow` where the fee does not fit in 64 bits.
pub fn build_reveal_transaction(
    control_block: &Vec<u8>,
    fee_rate: FeeRate,
    input: OutPoint,
    output: TxOut,
    script: &Vec<u8>,
) -> (r: Result<(Transaction, u64), Error>)
    ensures
        estimated_reveal_fee(control_block@, fee_rate, input, output@, script@) <= u64::MAX ==> {
            &&& r is Ok
            &&& r->Ok_0.0@ == reveal_skeleton(input, output@)
            &&& r->Ok_0.1 == estimated_reveal_fee(control_block@, fee_rate, input, output@, script@)
        },
        estimated_reveal_fee(control_block@, fee_rate, input, output@, script@) > u64::MAX ==> r
            is Err && r->Err_0 == Error::FeeOverflow,
{
    let placeholder: [u8; 64] = [0u8; 64];
    assert(placeholder@ =~= placeholder_signature());
    let mut sized_input = TxIn::unsigned(input);
    sized_input.witness = witness_stack(placeholder.as_slice(), script, control_block);
    let sized = single_spend(sized_input, output.duplicate());
    assert(sized@ == with_witness(
        reveal_skeleton(input, output@),
        reveal_witness(placeholder_signature(), script@, control_block@),
    )) by {
        assert(sized@.input =~= with_witness(
            reveal_skeleton(input, output@),
            reveal_witness(placeholder_signature(), script@, control_block@),
        ).input);
    }
    let fee = fee_rate.fee(sized.vsize())?;
    let reveal_tx = single_spend(TxIn::unsigned(input), output);
    Ok((reveal_tx, fee))
}

/// A reveal that waits for its signature.
pub struct UnsignedReveal {
    pub tx: Transaction,
    pub fee: u64,
    pub sighash: [u8; 32],
}

pub struct UnsignedRevealView {
    pub tx: TransactionView,
    pub fee: u64,
    pub sighash: Seq<u8>,
}

impl View for UnsignedReveal {
    type V = UnsignedRevealView;

    open spec fn view(&self) -> UnsignedRevealView {
        UnsignedRevealView { tx: self.tx@, fee: self.fee, sighash: self.sighash@ }
    }
}

/// The reveal of a slot, ready to be signed: it spends `prevout`, output
/// `index` of the commit transaction, to `destination`, and leaves the
/// estimated fee. `FeeOverflow` where the fee does not fit in 64 bits,
/// `InsufficientCommitOutput` where it is more than `prevout` is worth, `Dust`
/// where what is left is under the dust threshold of `destination`.
pub open spec fn unsigned_reveal_of(
    commit_txid: Txid,
    index: u32,
    prevout: TxOutView,
    parts: RevealPartsView,
    destination: Seq<u8>,
    fee_rate: FeeRate,
) -> Result<UnsignedRevealView, Error> {
    let input = OutPoint { txid: commit_txid, vout: index };
    let fee = estimated_reveal_fee(
        parts.spend_info.control_block,
        fee_rate,
        input,
        TxOutView { value: prevout.value, script_pubkey: destination },
        parts.reveal_script,
    );
    if fee > u64::MAX {
        Err(Error::FeeOverflow)
    } else if prevout.value < fee {
        Err(Error::InsufficientCommitOutput)
    } else if prevout.value - fee < dust_value_of(destination) {
        Err(Error::Dust)
    } else {
        let tx = reveal_skeleton(
            input,
            TxOutView { value: (prevout.value - fee) as u64, script_pubkey: destination },
        );
        Ok(
            UnsignedRevealView {
                tx,
                fee: fee as u64,
                sighash: reveal_sighash_of(tx, prevout, tap_leaf_hash_of(parts.reveal_script)),
            },
        )
    }
}

/// `unsigned` with the witness of the script-path spend, or
/// `NonStandardWeight` where the limit applies and the result is over it.
pub open spec fn signed_reveal_of(
    unsigned: TransactionView,
    signature: Seq<u8>,
    parts: RevealPartsView,
    no_limit: bool,
) -> Result<TransactionView, Error> {
    let signed = with_witness(
        unsigned,
        reveal_witness(signature, parts.reveal_script, parts.spend_info.control_block),
    );
    if !no_limit && weight_of(signed) > MAX_STANDARD_TX_WEIGHT {
        Err(Error::NonStandardWeight)
    } else {
        Ok(signed)
    }
}

/// Whether `r` is the exec form of the spec result `expected`.
pub open spec fn unsigned_reveal_matches(
    r: Result<UnsignedReveal, Error>,
    expected: Result<UnsignedRevealView, Error>,
) -> bool {
    match expected {
        Ok(view) => r is Ok && r->Ok_0@ == view,
        Err(e) => r is Err && r->Err_0 == e,
    }
}

/// Whether `r` is the exec form of the spec result `expected`.
pub open spec fn transaction_matches(
    r: Result<Transaction, Error>,
    expected: Result<TransactionView, Error>,
) -> bool {
    match expected {
        Ok(view) => r is Ok && r->Ok_0@ == view,
        Err(e) => r is Err && r->Err_0 == e,
    }
}

/// Builds the reveal of a slot up to its signature.
pub fn prepare_reveal(
    commit_txid: Txid,
    index: u32,
    prevout: &TxOut,
    parts: &RevealParts,
    destination: &Vec<u8>,
    fee_rate: FeeRate,
) -> (r: Result<UnsignedReveal, Error>)
    ensures
        unsigned_reveal_matches(
            r,
            unsigned_reveal_of(commit_txid, index, prevout@, parts@, destination@, fee_rate),
        ),
{
    let input = OutPoint { txid: commit_txid, vout: index };
    let output = TxOut { value: prevout.value, script_pubkey: copy_bytes(destination.as_slice()) };
    let (_, fee) = build_reveal_transaction(
        &parts.spend_info.control_block,
        fee_rate,
        input,
        output,
        &parts.reveal_script,
    )?;
    if prevout.value < fee {
        return Err(Error::InsufficientCommitOutput);
    }
    let value = prevout.value - fee;
    if value < dust_value(destination) {
        return Err(Error::Dust);
    }
    let paid = TxOut { value, script_pubkey: copy_bytes(destination.as_slice()) };
    let tx = single_spend(TxIn::unsigned(input), paid);
    let leaf_hash = tap_leaf_hash(&parts.reveal_script);
    assert(tx@.input.len() == 1);
    let sighash = tx.script_spend_sighash(prevout, &leaf_hash);
    Ok(UnsignedReveal { tx, fee, sighash })
}

/// The witness of a signed reveal holds exactly the signature, the leaf
/// script and the control block, each as long as it was given; and where the
/// limit applies, the signed reveal is within it.
pub proof fn lemma_signed_reveal_witness(
    unsigned: TransactionView,
    signature: Seq<u8>,
    parts: RevealPartsView,
    no_limit: bool,
)
    requires
        unsigned.input.len() >= 1,
        signed_reveal_of(unsigned, signature, parts, no_limit) is Ok,
    ensures
        ({
            let signed = signed_reveal_of(unsigned, signature, parts, no_limit)->Ok_0;
            let witness = signed.input[0].witness;
            &&& witness.len() == 3
            &&& witness[0] == signature
            &&& witness[1] == parts.reveal_script
            &&& witness[2] == parts.spend_info.control_block
            &&& signed.output == unsigned.output
            &&& !no_limit ==> weight_of(signed) <= MAX_STANDARD_TX_WEIGHT
        }),
{
}

/// Copies of `outputs`, in their order.
fn duplicate_outputs(outputs: &Vec<TxOut>) -> (r: Vec<TxOut>)
    ensures
        outputs_view(r@) == outputs_view(outputs@),
{
    let mut r: Vec<TxOut> = Vec::new();
    let mut i: usize = 0;
    while i < outputs.len()
        invariant
            i <= outputs.len(),
            r@.len() == i,
            forall|j: int| 0 <= j < i ==> (#[trigger] r@[j])@ == outputs@[j]@,
        decreases outputs.len() - i,
    {
        r.push(outputs[i].duplicate());
        i += 1;
    }
    assert(outputs_view(r@) =~= outputs_view(outputs@));
    r
}

/// A copy of `unsigned` with the witness of the script-path spend on its
/// only input, held to the weight limit unless `no_limit` is set.
pub fn finish_reveal(
    unsigned: &Transaction,
    signature: &[u8; 64],
    parts: &RevealParts,
    no_limit: bool,
) -> (r: Result<Transaction, Error>)
    requires
        unsigned@.input.len() == 1,
    ensures
        transaction_matches(r, signed_reveal_of(unsigned@, signature@, parts@, no_limit)),
{
    let spent = &unsigned.input[0];
    let input = TxIn {
        previous_output: spent.previous_output,
        script_sig: copy_bytes(spent.script_sig.as_slice()),
        sequence: spent.sequence,
        witness: witness_stack(
            signature.as_slice(),
            &parts.reveal_script,
            &parts.spend_info.control_block,
        ),
    };
    let mut inputs: Vec<TxIn> = Vec::new();
    inputs.push(input);
    let signed = Transaction {
        version: unsigned.version,
        lock_time: unsigned.lock_time,
        input: inputs,
        output: duplicate_outputs(&unsigned.output),
    };
    assert(signed@ == with_witness(
        unsigned@,
        reveal_witness(signature@, parts.reveal_script@, parts.spend_info.control_block@),
    )) by {
        assert(signed@.input =~= with_witness(
            unsigned@,
            reveal_witness(signature@, parts.reveal_script@, parts.spend_info.control_block@),
        ).input);
    }
    if !no_limit && signed.weight() > MAX_STANDARD_TX_WEIGHT {
        return Err(Error::NonStandardWeight);
    }
    Ok(signed)
}

/// Signs a prepared reveal with the key of its slot. The signature is not
/// determined by the inputs; whatever it is, the result is what
/// `finish_reveal` makes of it.
pub fn sign_reveal(unsigned: &UnsignedReveal, slot: &MintSlot, no_limit: bool) -> (r: Result<
    Transaction,
    Error,
>)
    requires
        unsigned.tx@.input.len() == 1,
    ensures
        exists|signature: Seq<u8>|
            signature.len() == SCHNORR_SIGNATURE_SIZE && transaction_matches(
                r,
                #[trigger] signed_reveal_of(unsigned.tx@, signature, slot@.parts, no_limit),
            ),
{
    let signature = slot.key.sign_schnorr(&unsigned.sighash);
    let r = finish_reveal(&unsigned.tx, &signature, &slot.parts, no_limit);
    assert(signature@.len() == SCHNORR_SIGNATURE_SIZE && transaction_matches(
        r,
        signed_reveal_of(unsigned.tx@, signature@, slot@.parts, no_limit),
    ));
    r
}

} // verus!
