//! The query of an inscription by its id.

use crate::chain::OutPoint;
use crate::error::QueryError;
use crate::index::Index;
use crate::inscription_id::{inscription_id_of, InscriptionId};
use crate::keys::Network;
use crate::script::copy_bytes;
use crate::text::{address_text, address_text_of, utf8_text, utf8_text_of};
use vstd::prelude::*;

verus! {

/// The query: the id as text.
#[derive(Debug)]
pub struct FindById {
    pub id: String,
}

/// What the query answers.
#[derive(Debug, PartialEq)]
pub struct Output {
    pub content: Vec<u8>,
    pub content_type: String,
    pub inscribe_num: i64,
    pub output_address: String,
    pub input_address: String,
}

/// The address that the output `outpoint` pays to: empty where the index
/// lacks the transaction or the transaction lacks the output, `NotAnAddress`
/// where the output's script has no address.
pub open spec fn address_of_output(index: &Index, network: Network, outpoint: OutPoint) -> Result<
    Seq<char>,
    QueryError,
> {
    match index.transaction(outpoint.txid) {
        None => Ok(Seq::<char>::empty()),
        Some(transaction) => if outpoint.vout < transaction.output@.len() {
            match address_text_of(
                transaction.output@[outpoint.vout as int].script_pubkey@,
                network,
            ) {
                Some(text) => Ok(text),
                None => Err(QueryError::NotAnAddress),
            }
        } else {
            Ok(Seq::<char>::empty())
        },
    }
}

/// Whether `r` is the text, or the error, that `expected` holds.
pub open spec fn text_matches(r: Result<String, QueryError>, expected: Result<Seq<char>, QueryError>) -> bool {
    match expected {
        Ok(text) => r is Ok && r->Ok_0@ == text,
        Err(e) => r is Err && r->Err_0 == e,
    }
}

/// The address that the output `outpoint` pays to on `network`.
pub fn get_address_from_tx(network: Network, outpoint: OutPoint, index: &Index) -> (r: Result<
    String,
    QueryError,
>)
    ensures
        text_matches(r, address_of_output(index, network, outpoint)),
{
    match index.get_transaction(&outpoint.txid) {
        Some(transaction) => {
            if (outpoint.vout as usize) < transaction.output.len() {
                match address_text(
                    &transaction.output[outpoint.vout as usize].script_pubkey,
                    network,
                ) {
                    Some(text) => Ok(text),
                    None => Err(QueryError::NotAnAddress),
                }
            } else {
                Ok(String::new())
            }
        },
        None => Ok(String::new()),
    }
}

/// The addresses around the inscription `id`: the one that holds it now, and
/// the one whose output the transaction that placed it spends first.
/// `UnknownInscription` where the index has no place for the inscription,
/// `UnknownTransaction` where it lacks the transaction of the place,
/// `NoInput` where that transaction spends nothing.
pub open spec fn addresses_of(index: &Index, network: Network, id: InscriptionId) -> Result<
    (Seq<char>, Seq<char>),
    QueryError,
> {
    if index.inscription(id) is None || index.inscription(id)->0.satpoint is None {
        Err(QueryError::UnknownInscription)
    } else {
        let outpoint = index.inscription(id)->0.satpoint->0.outpoint;
        match index.transaction(outpoint.txid) {
            None => Err(QueryError::UnknownTransaction),
            Some(transaction) => match address_of_output(index, network, outpoint) {
                Err(e) => Err(e),
                Ok(output_address) => if transaction.input@.len() == 0 {
                    Err(QueryError::NoInput)
                } else {
                    match address_of_output(
                        index,
                        network,
                        transaction.input@[0].previous_output,
                    ) {
                        Err(e) => Err(e),
                        Ok(input_address) => Ok((output_address, input_address)),
                    }
                },
            },
        }
    }
}

/// The answer to the query for `id`: the addresses around the inscription,
/// then its content. `NoContent` where the index has no content for it,
/// `NoBody`, `NoContentType` or `NoEntry` where the content lacks its body,
/// a content type that is text, or the index lacks the number.
pub open spec fn answer_of(index: &Index, network: Network, id: InscriptionId) -> Result<
    (Seq<u8>, Seq<char>, i64, Seq<char>, Seq<char>),
    QueryError,
> {
    match addresses_of(index, network, id) {
        Err(e) => Err(e),
        Ok(addresses) => {
            let record = index.inscription(id)->0;
            if record.inscription is None {
                Err(QueryError::NoContent)
            } else if record.inscription->0.body is None {
                Err(QueryError::NoBody)
            } else if record.inscription->0.content_type is None || utf8_text_of(
                record.inscription->0.content_type->0@,
            ) is None {
                Err(QueryError::NoContentType)
            } else if record.entry is None {
                Err(QueryError::NoEntry)
            } else {
                Ok(
                    (
                        record.inscription->0.body->0@,
                        utf8_text_of(record.inscription->0.content_type->0@)->0,
                        record.entry->0.number,
                        addresses.0,
                        addresses.1,
                    ),
                )
            }
        },
    }
}

impl FindById {
    /// Answers the query from `index`. `InvalidId` where the text names no id.
    pub fn run(self, network: Network, index: &Index) -> (r: Result<Output, QueryError>)
        ensures
            match inscription_id_of(vstd::utf8::encode_utf8(self.id@)) {
                None => r is Err && r->Err_0 == QueryError::InvalidId,
                Some(id) => match answer_of(index, network, id) {
                    Err(e) => r is Err && r->Err_0 == e,
                    Ok(answer) => {
                        &&& r is Ok
                        &&& r->Ok_0.content@ == answer.0
                        &&& r->Ok_0.content_type@ == answer.1
                        &&& r->Ok_0.inscribe_num == answer.2
                        &&& r->Ok_0.output_address@ == answer.3
                        &&& r->Ok_0.input_address@ == answer.4
                    },
                },
            },
    {
        let id = match InscriptionId::parse(self.id.as_str()) {
            Some(id) => id,
            None => {
                return Err(QueryError::InvalidId);
            },
        };
        let entry = index.get_inscription_entry(&id);
        let satpoint = match index.get_inscription_satpoint_by_id(&id) {
            Some(satpoint) => satpoint,
            None => {
                return Err(QueryError::UnknownInscription);
            },
        };
        let transaction = match index.get_transaction(&satpoint.outpoint.txid) {
            Some(transaction) => transaction,
            None => {
                return Err(QueryError::UnknownTransaction);
            },
        };
        let output_address = get_address_from_tx(network, satpoint.outpoint, index)?;
        if transaction.input.len() == 0 {
            return Err(QueryError::NoInput);
        }
        let input_address = get_address_from_tx(
            network,
            transaction.input[0].previous_output,
            index,
        )?;
        let inscription = match index.get_inscription_by_id(&id) {
            Some(inscription) => inscription,
            None => {
                return Err(QueryError::NoContent);
            },
        };
        let content = match &inscription.body {
            Some(body) => copy_bytes(body.as_slice()),
            None => {
                return Err(QueryError::NoBody);
            },
        };
        let content_type = match &inscription.content_type {
            Some(bytes) => match utf8_text(bytes) {
                Some(text) => text,
                None => {
                    return Err(QueryError::NoContentType);
                },
            },
            None => {
                return Err(QueryError::NoContentType);
            },
        };
        let inscribe_num = match entry {
            Some(entry) => entry.number,
            None => {
                return Err(QueryError::NoEntry);
            },
        };
        Ok(Output { content, content_type, inscribe_num, output_address, input_address })
    }
}

} // verus!
