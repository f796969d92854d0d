//! Text: joining strings, and how ids, transactions and key bytes are written.

use crate::chain::{Transaction, TransactionView, Txid};
use crate::keys::Network;
use vstd::string::{StringExecFns, StringSliceAdditionalSpecFns};
use bitcoin::absolute::LockTime;
use bitcoin::hashes::Hash as _;
use bitcoin::{Sequence, Witness};
use bitcoincore_rpc::RawTx as _;
use vstd::prelude::*;

verus! {

/// The address that a script pays to on a network, as text.
pub uninterp spec fn address_text_of(script_pubkey: Seq<u8>, network: Network) -> Option<Seq<char>>;

/// The text that bytes encode, where they encode one.
pub uninterp spec fn utf8_text_of(bytes: Seq<u8>) -> Option<Seq<char>>;

/// The transaction id that a text names, the text given by its bytes.
pub uninterp spec fn txid_from_text_of(text: Seq<u8>) -> Option<Txid>;

/// The number that a text names, the text given by its bytes.
pub uninterp spec fn u32_from_text_of(text: Seq<u8>) -> Option<u32>;

/// A number in decimal digits.
pub uninterp spec fn decimal_text_of(number: u32) -> Seq<char>;

/// A transaction id as text.
pub uninterp spec fn txid_text_of(txid: Txid) -> Seq<char>;

/// The serialized transaction in hexadecimal digits.
pub uninterp spec fn raw_hex_of(tx: TransactionView) -> Seq<char>;

/// The bytes of a key as a list of decimal numbers in square brackets.
pub uninterp spec fn debug_text_of(bytes: Seq<u8>) -> Seq<char>;

/// `a` followed by `b`.
pub fn concat(a: &str, b: &str) -> (r: String)
    ensures
        r@ == a@ + b@,
{
    a.to_owned().concat(b)
}

/// `bitcoin::Address::from_script`, then `ToString::to_string`: trusted to be
/// a function of the script and the network; nothing where the script is of
/// no form that has an address.
#[verifier::external_body]
pub(crate) fn address_text(script_pubkey: &Vec<u8>, network: Network) -> (text: Option<String>)
    ensures
        match address_text_of(script_pubkey@, network) {
            Some(expected) => text is Some && text->0@ == expected,
            None => text is None,
        },
{
    let net = match network {
        Network::Bitcoin => bitcoin::Network::Bitcoin,
        Network::Testnet => bitcoin::Network::Testnet,
        Network::Signet => bitcoin::Network::Signet,
        Network::Regtest => bitcoin::Network::Regtest,
    };
    match bitcoin::Address::from_script(bitcoin::Script::from_bytes(script_pubkey), net) {
        Ok(address) => Some(address.to_string()),
        Err(_) => None,
    }
}

/// `String::from_utf8` of std: trusted to be a function of the bytes;
/// nothing where they encode no text.
#[verifier::external_body]
pub(crate) fn utf8_text(bytes: &Vec<u8>) -> (text: Option<String>)
    ensures
        match utf8_text_of(bytes@) {
            Some(expected) => text is Some && text->0@ == expected,
            None => text is None,
        },
{
    String::from_utf8(bytes.clone()).ok()
}

/// `str::parse` for `bitcoin::Txid`: trusted to be a function of the text;
/// nothing where the text is no id.
#[verifier::external_body]
pub(crate) fn parse_txid(text: &str) -> (txid: Option<Txid>)
    ensures
        txid == txid_from_text_of(text.spec_bytes()),
{
    match text.parse::<bitcoin::Txid>() {
        Ok(txid) => Some(Txid { bytes: txid.to_byte_array() }),
        Err(_) => None,
    }
}

/// `str::parse` of std for `u32`: trusted to be a function of the text;
/// nothing where the text is no number that fits.
#[verifier::external_body]
pub(crate) fn parse_u32(text: &str) -> (number: Option<u32>)
    ensures
        number == u32_from_text_of(text.spec_bytes()),
{
    text.parse::<u32>().ok()
}

/// `ToString::to_string` of std on `u32`: trusted to be a function of the number.
#[verifier::external_body]
pub(crate) fn decimal_text(number: u32) -> (text: String)
    ensures
        text@ == decimal_text_of(number),
{
    number.to_string()
}

/// `ToString::to_string` on `bitcoin::Txid`: trusted to be a function of the
/// id's bytes.
#[verifier::external_body]
pub(crate) fn txid_text(txid: &Txid) -> (text: String)
    ensures
        text@ == txid_text_of(*txid),
{
    bitcoin::Txid::from_byte_array(txid.bytes).to_string()
}

/// `bitcoincore_rpc::RawTx::raw_hex` on a transaction: trusted to be a
/// function of the transaction's fields.
#[verifier::external_body]
pub(crate) fn raw_hex(tx: &Transaction) -> (hex: String)
    ensures
        hex@ == raw_hex_of(tx@),
{
    let input = tx.input.iter().map(|i| bitcoin::TxIn {
        previous_output: bitcoin::OutPoint::new(bitcoin::Txid::from_byte_array(i.previous_output.txid.bytes), i.previous_output.vout),
        script_sig: i.script_sig.clone().into(),
        sequence: Sequence(i.sequence),
        witness: Witness::from_slice(&i.witness),
    }).collect();
    let output = tx.output.iter().map(|o| bitcoin::TxOut { value: o.value, script_pubkey: o.script_pubkey.clone().into() }).collect();
    let lock_time = LockTime::from_consensus(tx.lock_time);
    (&bitcoin::Transaction { version: tx.version, lock_time, input, output }).raw_hex()
}

/// `format!` of std with `{:?}` on an array of bytes: trusted to be a
/// function of the bytes.
#[verifier::external_body]
pub(crate) fn debug_text(bytes: &[u8; 32]) -> (text: String)
    ensures
        text@ == debug_text_of(bytes@),
{
    format!("{:?}", bytes)
}

} // verus!
