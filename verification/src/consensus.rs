//! What the consensus rules compute from a transaction.

use crate::chain::{Transaction, TransactionView, TxIn, TxInView, TxOut, TxOutView, Txid};
use bitcoin::absolute::LockTime;
use bitcoin::hashes::Hash as _;
use bitcoin::sighash::{Prevouts, SighashCache, TapSighashType};
use bitcoin::taproot::{LeafVersion, TapLeafHash};
use bitcoin::{Sequence, Witness};
use vstd::prelude::*;

verus! {

/// Above this weight a transaction is not relayed.
pub const MAX_STANDARD_TX_WEIGHT: u64 = 400_000;

/// The weight of a transaction, in weight units.
pub uninterp spec fn weight_of(tx: TransactionView) -> nat;

/// The id of a transaction.
pub uninterp spec fn txid_of(tx: TransactionView) -> Txid;

/// The least value that an output with this script may carry and still be relayed.
pub uninterp spec fn dust_value_of(script_pubkey: Seq<u8>) -> nat;

/// The hash of a script as a Tapscript leaf.
pub uninterp spec fn tap_leaf_hash_of(script: Seq<u8>) -> Seq<u8>;

/// The digest that a signature covers which spends `prevout`, by the script
/// path of the leaf `leaf_hash`, as the only input of a transaction with the
/// fields given.
pub uninterp spec fn script_spend_sighash_of(
    version: i32,
    lock_time: u32,
    input: TxInView,
    output: Seq<TxOutView>,
    prevout: TxOutView,
    leaf_hash: Seq<u8>,
) -> Seq<u8>;

/// The virtual size of a transaction: a quarter of its weight, rounded up.
pub open spec fn vsize_of(tx: TransactionView) -> nat {
    (weight_of(tx) + 3) / 4
}

/// The digest that a signature for the only input of `tx` covers.
pub open spec fn reveal_sighash_of(tx: TransactionView, prevout: TxOutView, leaf_hash: Seq<u8>) -> Seq<u8> {
    script_spend_sighash_of(tx.version, tx.lock_time, tx.input[0], tx.output, prevout, leaf_hash)
}

/// `bitcoin::Transaction::weight`: trusted to be a function of the
/// transaction's fields.
#[verifier::external_body]
fn consensus_weight(tx: &Transaction) -> (weight: u64)
    ensures
        weight == weight_of(tx@),
{
    let input = tx.input.iter().map(|i| bitcoin::TxIn {
        previous_output: bitcoin::OutPoint::new(bitcoin::Txid::from_byte_array(i.previous_output.txid.bytes), i.previous_output.vout),
        script_sig: i.script_sig.clone().into(),
        sequence: Sequence(i.sequence),
        witness: Witness::from_slice(&i.witness),
    }).collect();
    let output = tx.output.iter().map(|o| bitcoin::TxOut { value: o.value, script_pubkey: o.script_pubkey.clone().into() }).collect();
    let lock_time = LockTime::from_consensus(tx.lock_time);
    bitcoin::Transaction { version: tx.version, lock_time, input, output }.weight().to_wu()
}

/// `bitcoin::Transaction::txid`: trusted to be a function of the
/// transaction's fields.
#[verifier::external_body]
fn consensus_txid(tx: &Transaction) -> (txid: Txid)
    ensures
        txid == txid_of(tx@),
{
    let input = tx.input.iter().map(|i| bitcoin::TxIn {
        previous_output: bitcoin::OutPoint::new(bitcoin::Txid::from_byte_array(i.previous_output.txid.bytes), i.previous_output.vout),
        script_sig: i.script_sig.clone().into(),
        sequence: Sequence(i.sequence),
        witness: Witness::from_slice(&i.witness),
    }).collect();
    let output = tx.output.iter().map(|o| bitcoin::TxOut { value: o.value, script_pubkey: o.script_pubkey.clone().into() }).collect();
    let lock_time = LockTime::from_consensus(tx.lock_time);
    Txid { bytes: bitcoin::Transaction { version: tx.version, lock_time, input, output }.txid().to_byte_array() }
}

/// `bitcoin::taproot::TapLeafHash::from_script` with the Tapscript leaf
/// version: trusted to be a function of the script's bytes.
#[verifier::external_body]
fn consensus_tap_leaf_hash(script: &Vec<u8>) -> (hash: [u8; 32])
    ensures
        hash@ == tap_leaf_hash_of(script@),
{
    TapLeafHash::from_script(bitcoin::Script::from_bytes(script), LeafVersion::TapScript)
        .to_byte_array()
}

/// `bitcoin::sighash::SighashCache::taproot_script_spend_signature_hash` for
/// input 0 of a transaction with that one input, with the default sighash
/// type: trusted to be a function of the transaction's fields, the output
/// spent and the leaf hash.
#[verifier::external_body]
fn consensus_script_spend_sighash(
    version: i32,
    lock_time: u32,
    input: &TxIn,
    output: &Vec<TxOut>,
    prevout: &TxOut,
    leaf_hash: &[u8; 32],
) -> (digest: [u8; 32])
    ensures
        digest@ == script_spend_sighash_of(
            version,
            lock_time,
            input@,
            crate::chain::outputs_view(output@),
            prevout@,
            leaf_hash@,
        ),
{
    let out = |o: &TxOut| bitcoin::TxOut { value: o.value, script_pubkey: o.script_pubkey.clone().into() };
    let input = vec![bitcoin::TxIn {
        previous_output: bitcoin::OutPoint::new(bitcoin::Txid::from_byte_array(input.previous_output.txid.bytes), input.previous_output.vout),
        script_sig: input.script_sig.clone().into(),
        sequence: Sequence(input.sequence),
        witness: Witness::from_slice(&input.witness),
    }];
    let output = output.iter().map(out).collect();
    let tx = bitcoin::Transaction { version, lock_time: LockTime::from_consensus(lock_time), input, output };
    SighashCache::new(&tx)
        .taproot_script_spend_signature_hash(0, &Prevouts::All(&[out(prevout)]), TapLeafHash::from_byte_array(*leaf_hash), TapSighashType::Default)
        .unwrap().to_byte_array()
}

/// `bitcoin::Script::dust_value`: trusted to be a function of the script's bytes.
#[verifier::external_body]
fn consensus_dust_value(script_pubkey: &Vec<u8>) -> (dust: u64)
    ensures
        dust == dust_value_of(script_pubkey@),
{
    bitcoin::Script::from_bytes(script_pubkey).dust_value().to_sat()
}

impl Transaction {
    /// The weight of this transaction.
    pub fn weight(&self) -> (weight: u64)
        ensures
            weight == weight_of(self@),
    {
        consensus_weight(self)
    }

    /// The virtual size of this transaction.
    pub fn vsize(&self) -> (vsize: u64)
        ensures
            vsize == vsize_of(self@),
            vsize <= 0x4000_0000_0000_0000,
    {
        let weight = consensus_weight(self);
        weight / 4 + (if weight % 4 == 0 { 0 } else { 1 })
    }

    /// The id of this transaction.
    pub fn txid(&self) -> (txid: Txid)
        ensures
            txid == txid_of(self@),
    {
        consensus_txid(self)
    }

    /// The digest that a signature for this transaction's only input covers,
    /// where the input spends `prevout` by the script path of the leaf
    /// `leaf_hash`.
    pub fn script_spend_sighash(&self, prevout: &TxOut, leaf_hash: &[u8; 32]) -> (digest: [u8; 32])
        requires
            self.input@.len() == 1,
        ensures
            digest@ == reveal_sighash_of(self@, prevout@, leaf_hash@),
    {
        consensus_script_spend_sighash(
            self.version,
            self.lock_time,
            &self.input[0],
            &self.output,
            prevout,
            leaf_hash,
        )
    }
}

/// The hash of `script` as a Tapscript leaf.
pub fn tap_leaf_hash(script: &Vec<u8>) -> (hash: [u8; 32])
    ensures
        hash@ == tap_leaf_hash_of(script@),
{
    consensus_tap_leaf_hash(script)
}

/// The least value that an output with this script may carry and still be relayed.
pub fn dust_value(script_pubkey: &Vec<u8>) -> (dust: u64)
    ensures
        dust == dust_value_of(script_pubkey@),
{
    consensus_dust_value(script_pubkey)
}

} // verus!
