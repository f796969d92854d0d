//! The commit transaction: every wallet output in, one output per slot and
//! the change out.

use crate::chain::{
    output_total, OutPoint, Transaction, TransactionView, TxIn, TxInView, TxOut, TxOutView,
};
use crate::consensus::vsize_of;
use crate::error::Error;
use crate::fee::{fee_of, FeeRate};
use crate::reveal_tx::{build_reveal_transaction, estimated_reveal_fee};
use crate::script::copy_bytes;
use crate::slot::{slots_view, MintSlot, MintSlotView, RevealParts, RevealPartsView};
use crate::utxo::{total_of, Utxo, UtxoSet};
use vstd::prelude::*;

verus! {

/// What each mint output carries on top of the fee of its reveal.
pub const TARGET_POSTAGE: u64 = 330;

/// The virtual bytes that the wallet's signatures add to the unsigned commit.
pub const COMMIT_SIGNATURE_VSIZE: u64 = 17;

/// The largest change that the planner accepts.
pub const MAX_CHANGE: u64 = 0x7FFF_FFFF_FFFF_FFFF;

/// A commit transaction and the fee it leaves.
pub struct Commit {
    pub tx: Transaction,
    pub fee: u64,
}

pub struct CommitView {
    pub tx: TransactionView,
    pub fee: u64,
}

impl View for Commit {
    type V = CommitView;

    open spec fn view(&self) -> CommitView {
        CommitView { tx: self.tx@, fee: self.fee }
    }
}

/// The amount of each mint output: the fee of a reveal, estimated on the
/// parts of a throwaway slot with an output of no value, and the postage.
/// `FeeOverflow` where it does not fit in 64 bits.
pub open spec fn mint_amount_of(
    probe: RevealPartsView,
    destination: Seq<u8>,
    reveal_fee_rate: FeeRate,
) -> Result<u64, Error> {
    let fee = estimated_reveal_fee(
        probe.spend_info.control_block,
        reveal_fee_rate,
        OutPoint::spec_null(),
        TxOutView { value: 0, script_pubkey: destination },
        probe.reveal_script,
    );
    if fee + TARGET_POSTAGE > u64::MAX {
        Err(Error::FeeOverflow)
    } else {
        Ok((fee + TARGET_POSTAGE) as u64)
    }
}

/// One unsigned input for each entry, in the order of the entries.
pub open spec fn commit_inputs(entries: Seq<Utxo>) -> Seq<TxInView> {
    Seq::new(entries.len(), |i: int| TxIn::spec_unsigned(entries[i].outpoint))
}

/// One output of `mint_amount` for each slot, in the order of the slots.
pub open spec fn mint_outputs(slots: Seq<MintSlotView>, mint_amount: u64) -> Seq<TxOutView> {
    Seq::new(
        slots.len(),
        |i: int| TxOutView { value: mint_amount, script_pubkey: slots[i].script_pubkey() },
    )
}

/// The commit transaction that returns `change` to `change_script`.
pub open spec fn commit_with_change(
    entries: Seq<Utxo>,
    slots: Seq<MintSlotView>,
    mint_amount: u64,
    change_script: Seq<u8>,
    change: u64,
) -> TransactionView {
    TransactionView {
        version: 1,
        lock_time: 0,
        input: commit_inputs(entries),
        output: mint_outputs(slots, mint_amount).push(
            TxOutView { value: change, script_pubkey: change_script },
        ),
    }
}

/// The commit transaction for `slots`, and its fee: the fee is that of the
/// transaction which returns everything but the mint outputs, at its virtual
/// size and the allowance for signatures; the change is what the fee leaves.
/// `FeeOverflow` where the inputs' sum or the fee does not fit in 64 bits,
/// `InsufficientFunds` where the inputs do not cover the mint outputs and the
/// fee, or the change is over `MAX_CHANGE`.
pub open spec fn commit_of(
    entries: Seq<Utxo>,
    slots: Seq<MintSlotView>,
    mint_amount: u64,
    change_script: Seq<u8>,
    fee_rate: FeeRate,
) -> Result<CommitView, Error> {
    let total = total_of(entries);
    let minted = slots.len() * mint_amount;
    if total > u64::MAX {
        Err(Error::FeeOverflow)
    } else if total < minted {
        Err(Error::InsufficientFunds)
    } else {
        let probe = commit_with_change(
            entries,
            slots,
            mint_amount,
            change_script,
            (total - minted) as u64,
        );
        let fee = fee_of(fee_rate, vsize_of(probe) + COMMIT_SIGNATURE_VSIZE as nat);
        if fee > u64::MAX {
            Err(Error::FeeOverflow)
        } else if total - minted < fee || total - minted - fee > MAX_CHANGE {
            Err(Error::InsufficientFunds)
        } else {
            Ok(
                CommitView {
                    tx: commit_with_change(
                        entries,
                        slots,
                        mint_amount,
                        change_script,
                        (total - minted - fee) as u64,
                    ),
                    fee: fee as u64,
                },
            )
        }
    }
}

/// Whether `r` is the exec form of the spec result `expected`.
pub open spec fn commit_matches(r: Result<Commit, Error>, expected: Result<CommitView, Error>) -> bool {
    match expected {
        Ok(view) => r is Ok && r->Ok_0@ == view,
        Err(e) => r is Err && r->Err_0 == e,
    }
}

/// The mint outputs are worth their number times the amount of each.
pub proof fn lemma_mint_outputs_total(slots: Seq<MintSlotView>, mint_amount: u64)
    ensures
        output_total(mint_outputs(slots, mint_amount)) == slots.len() * mint_amount,
    decreases slots.len(),
{
    if slots.len() > 0 {
        let rest = slots.drop_last();
        lemma_mint_outputs_total(rest, mint_amount);
        assert(mint_outputs(slots, mint_amount).drop_last() == mint_outputs(rest, mint_amount));
        assert(slots.len() * mint_amount == rest.len() * mint_amount + mint_amount)
            by (nonlinear_arith)
            requires
                slots.len() == rest.len() + 1,
        ;
    } else {
        assert(slots.len() * mint_amount == 0) by (nonlinear_arith)
            requires
                slots.len() == 0,
        ;
    }
}

/// A commit transaction spends exactly what it pays out and leaves as its
/// fee, and each of its mint outputs carries the mint amount.
pub proof fn lemma_commit_balances(
    entries: Seq<Utxo>,
    slots: Seq<MintSlotView>,
    mint_amount: u64,
    change_script: Seq<u8>,
    fee_rate: FeeRate,
)
    requires
        commit_of(entries, slots, mint_amount, change_script, fee_rate) is Ok,
    ensures
        ({
            let commit = commit_of(entries, slots, mint_amount, change_script, fee_rate)->Ok_0;
            &&& total_of(entries) == output_total(commit.tx.output) + commit.fee
            &&& commit.tx.output.len() == slots.len() + 1
            &&& forall|i: int|
                0 <= i < slots.len() ==> (#[trigger] commit.tx.output[i]).value == mint_amount
            &&& forall|i: int|
                0 <= i < slots.len() ==> (#[trigger] commit.tx.output[i]).script_pubkey
                    == slots[i].script_pubkey()
            &&& commit.tx.output.last().script_pubkey == change_script
        }),
{
    let commit = commit_of(entries, slots, mint_amount, change_script, fee_rate)->Ok_0;
    lemma_mint_outputs_total(slots, mint_amount);
    assert(commit.tx.output.drop_last() == mint_outputs(slots, mint_amount));
}

/// The unsigned inputs that spend the entries of `utxos`, in their order.
fn unsigned_inputs(utxos: &UtxoSet) -> (inputs: Vec<TxIn>)
    ensures
        inputs@.map_values(|txin: TxIn| txin@) == commit_inputs(utxos@),
{
    let mut inputs: Vec<TxIn> = Vec::new();
    let mut i: usize = 0;
    while i < utxos.len()
        invariant
            i <= utxos@.len(),
            inputs@.len() == i,
            forall|j: int|
                0 <= j < i ==> (#[trigger] inputs@[j])@ == TxIn::spec_unsigned(utxos@[j].outpoint),
        decreases utxos@.len() - i,
    {
        inputs.push(TxIn::unsigned(utxos.entry(i).outpoint));
        i += 1;
    }
    assert(inputs@.map_values(|txin: TxIn| txin@) =~= commit_inputs(utxos@));
    inputs
}

/// The commit transaction that returns `change` to `change_script`.
fn assemble(
    utxos: &UtxoSet,
    slots: &Vec<MintSlot>,
    mint_amount: u64,
    change_script: &Vec<u8>,
    change: u64,
) -> (tx: Transaction)
    ensures
        tx@ == commit_with_change(
            utxos@,
            slots_view(slots@),
            mint_amount,
            change_script@,
            change,
        ),
{
    let input = unsigned_inputs(utxos);
    let mut output: Vec<TxOut> = Vec::new();
    let mut i: usize = 0;
    while i < slots.len()
        invariant
            i <= slots@.len(),
            output@.len() == i,
            forall|j: int|
                0 <= j < i ==> (#[trigger] output@[j])@ == (TxOutView {
                    value: mint_amount,
                    script_pubkey: slots@[j]@.script_pubkey(),
                }),
        decreases slots@.len() - i,
    {
        output.push(TxOut { value: mint_amount, script_pubkey: slots[i].script_pubkey() });
        i += 1;
    }
    output.push(TxOut { value: change, script_pubkey: copy_bytes(change_script.as_slice()) });
    let tx = Transaction { version: 1, lock_time: 0, input, output };
    assert(tx@.output =~= commit_with_change(
        utxos@,
        slots_view(slots@),
        mint_amount,
        change_script@,
        change,
    ).output);
    tx
}

/// The amount that each mint output must carry for reveals at
/// `reveal_fee_rate` to `destination`, estimated on the parts of a throwaway
/// slot.
pub fn mint_amount(probe: &RevealParts, destination: &Vec<u8>, reveal_fee_rate: FeeRate) -> (r:
    Result<u64, Error>)
    ensures
        r == mint_amount_of(probe@, destination@, reveal_fee_rate),
{
    let output = TxOut { value: 0, script_pubkey: copy_bytes(destination.as_slice()) };
    let (_, fee) = build_reveal_transaction(
        &probe.spend_info.control_block,
        reveal_fee_rate,
        OutPoint::null(),
        output,
        &probe.reveal_script,
    )?;
    if fee > u64::MAX - TARGET_POSTAGE {
        return Err(Error::FeeOverflow);
    }
    Ok(fee + TARGET_POSTAGE)
}

/// Plans the commit transaction that funds `slots` with `mint_amount` each
/// out of all of `utxos`, and pays the change to `change_script`.
pub fn build_commit_transaction(
    utxos: &UtxoSet,
    slots: &Vec<MintSlot>,
    mint_amount: u64,
    change_script: &Vec<u8>,
    fee_rate: FeeRate,
) -> (r: Result<Commit, Error>)
    ensures
        commit_matches(
            r,
            commit_of(utxos@, slots_view(slots@), mint_amount, change_script@, fee_rate),
        ),
{
    let total = match utxos.total() {
        Some(total) => total,
        None => {
            return Err(Error::FeeOverflow);
        },
    };
    let count: u128 = slots.len() as u128;
    let each: u128 = mint_amount as u128;
    assert(count * each <= 0xFFFF_FFFF_FFFF_FFFF * 0xFFFF_FFFF_FFFF_FFFF) by (nonlinear_arith)
        requires
            0 <= count <= 0xFFFF_FFFF_FFFF_FFFF,
            0 <= each <= 0xFFFF_FFFF_FFFF_FFFF,
    ;
    let minted: u128 = count * each;
    assert(slots_view(slots@).len() == slots@.len());
    assert(minted == slots_view(slots@).len() * mint_amount);
    if (total as u128) < minted {
        return Err(Error::InsufficientFunds);
    }
    let spare: u64 = (total as u128 - minted) as u64;
    let probe = assemble(utxos, slots, mint_amount, change_script, spare);
    let size = probe.vsize() + COMMIT_SIGNATURE_VSIZE;
    let fee = fee_rate.fee(size)?;
    if spare < fee || spare - fee > MAX_CHANGE {
        return Err(Error::InsufficientFunds);
    }
    let tx = assemble(utxos, slots, mint_amount, change_script, spare - fee);
    Ok(Commit { tx, fee })
}

} // verus!
