//! The id of an inscription and how it is written.

use crate::chain::Txid;
use crate::text::{
    concat, decimal_text, decimal_text_of, parse_txid, parse_u32, txid_from_text_of, txid_text,
    txid_text_of, u32_from_text_of,
};
use vstd::prelude::*;
use vstd::string::StringSliceAdditionalSpecFns;
use vstd::utf8::is_char_boundary;

verus! {

/// The id of an inscription: the id of its reveal and its place in it.
#[derive(Clone, Copy, Debug, PartialEq, Eq)]
pub struct InscriptionId {
    pub txid: Txid,
    pub index: u32,
}

/// The length of a transaction id as text.
pub const TXID_TEXT_LEN: usize = 64;

/// The letter between the transaction id and the index.
pub const SEPARATOR: u8 = 0x69;

/// The id that a text names, the text given by its bytes: 64 bytes that name
/// a transaction id, the letter `i`, and a number.
pub open spec fn inscription_id_of(text: Seq<u8>) -> Option<InscriptionId> {
    let rest = text.subrange(TXID_TEXT_LEN as int, text.len() as int);
    if text.len() < TXID_TEXT_LEN + 2 || !is_char_boundary(text, TXID_TEXT_LEN as int)
        || !is_char_boundary(rest, 1) || rest[0] != SEPARATOR {
        None
    } else {
        match (
            txid_from_text_of(text.subrange(0, TXID_TEXT_LEN as int)),
            u32_from_text_of(rest.subrange(1, rest.len() as int)),
        ) {
            (Some(txid), Some(index)) => Some(InscriptionId { txid, index }),
            _ => None,
        }
    }
}

impl InscriptionId {
    /// The id as text: the transaction id, the letter `i`, the index.
    pub open spec fn text(self) -> Seq<char> {
        txid_text_of(self.txid) + "i"@ + decimal_text_of(self.index)
    }

    /// The id that `text` names, if it names one.
    pub fn parse(text: &str) -> (id: Option<InscriptionId>)
        ensures
            id == inscription_id_of(text.spec_bytes()),
    {
        let bytes = text.as_bytes();
        if bytes.len() < TXID_TEXT_LEN + 2 || !text.is_char_boundary(TXID_TEXT_LEN) {
            return None;
        }
        let (txid_text, rest) = text.split_at(TXID_TEXT_LEN);
        if !rest.is_char_boundary(1) {
            return None;
        }
        if bytes[TXID_TEXT_LEN] != SEPARATOR {
            return None;
        }
        let (_, index_text) = rest.split_at(1);
        match (parse_txid(txid_text), parse_u32(index_text)) {
            (Some(txid), Some(index)) => Some(InscriptionId { txid, index }),
            _ => None,
        }
    }

    /// The id as text.
    pub fn to_text(&self) -> (text: String)
        ensures
            text@ == self.text(),
    {
        let txid = txid_text(&self.txid);
        let head = concat(txid.as_str(), "i");
        let index = decimal_text(self.index);
        concat(head.as_str(), index.as_str())
    }
}

} // verus!
