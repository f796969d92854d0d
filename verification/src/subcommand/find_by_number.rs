//! The query of an inscription by its number, with the addresses around it.

use crate::chain::OutPoint;
use crate::error::QueryError;
use crate::index::Index;
use crate::inscription_id::InscriptionId;
use crate::keys::Network;
use crate::script::copy_bytes;
use crate::subcommand::find_by_id::{address_of_output, addresses_of, text_matches};
use vstd::prelude::*;

verus! {

/// The query: the number of the inscription.
#[derive(Debug)]
pub struct FindNumber {
    pub number: u64,
}

/// What the query answers.
#[derive(Debug, PartialEq)]
pub struct Output {
    pub content: Vec<u8>,
    pub inscribe_num: u64,
    pub inscribe_id: String,
    pub sat: u64,
    pub output_address: String,
    pub input_address: String,
}

/// The address on the main network that the output `outpoint` pays to.
pub fn get_address_from_tx(outpoint: OutPoint, index: &Index) -> (r: Result<String, QueryError>)
    ensures
        text_matches(r, address_of_output(index, Network::Bitcoin, outpoint)),
{
    crate::subcommand::find_by_id::get_address_from_tx(Network::Bitcoin, outpoint, index)
}

/// The answer to the query for `number`: the id under the number, the
/// addresses around the inscription on the main network, and its body.
/// `UnknownInscription` where the index has no inscription under the
/// number, `NoContent` where it has no content for it, `NoBody` where the
/// content has no body.
pub open spec fn answer_of(index: &Index, number: u64) -> Result<
    (Seq<u8>, InscriptionId, Seq<char>, Seq<char>),
    QueryError,
> {
    if number > i64::MAX || index.numbered(number as i64) is None {
        Err(QueryError::UnknownInscription)
    } else {
        let id = index.numbered(number as i64)->0;
        match addresses_of(index, Network::Bitcoin, id) {
            Err(e) => Err(e),
            Ok(addresses) => {
                let record = index.inscription(id)->0;
                if record.inscription is None {
                    Err(QueryError::NoContent)
                } else if record.inscription->0.body is None {
                    Err(QueryError::NoBody)
                } else {
                    Ok((record.inscription->0.body->0@, id, addresses.0, addresses.1))
                }
            },
        }
    }
}

impl FindNumber {
    /// Answers the query from `index`. The sat is not looked up: it is given as 0.
    pub fn run(self, index: &Index) -> (r: Result<Output, QueryError>)
        ensures
            match answer_of(index, self.number) {
                Err(e) => r is Err && r->Err_0 == e,
                Ok(answer) => {
                    &&& r is Ok
                    &&& r->Ok_0.content@ == answer.0
                    &&& r->Ok_0.inscribe_num == self.number
                    &&& r->Ok_0.inscribe_id@ == answer.1.text()
                    &&& r->Ok_0.sat == 0
                    &&& r->Ok_0.output_address@ == answer.2
                    &&& r->Ok_0.input_address@ == answer.3
                },
            },
    {
        if self.number > i64::MAX as u64 {
            return Err(QueryError::UnknownInscription);
        }
        let id = match index.get_inscription_id_by_inscription_number(self.number as i64) {
            Some(id) => id,
            None => {
                return Err(QueryError::UnknownInscription);
            },
        };
        let satpoint = match index.get_inscription_satpoint_by_id(&id) {
            Some(satpoint) => satpoint,
            None => {
                return Err(QueryError::UnknownInscription);
            },
        };
        let transaction = match index.get_transaction(&satpoint.outpoint.txid) {
            Some(transaction) => transaction,
            None => {
                return Err(QueryError::UnknownTransaction);
            },
        };
        let output_address = get_address_from_tx(satpoint.outpoint, index)?;
        if transaction.input.len() == 0 {
            return Err(QueryError::NoInput);
        }
        let input_address = get_address_from_tx(transaction.input[0].previous_output, index)?;
        let inscription = match index.get_inscription_by_id(&id) {
            Some(inscription) => inscription,
            None => {
                return Err(QueryError::NoContent);
            },
        };
        let content = match &inscription.body {
            Some(body) => copy_bytes(body.as_slice()),
            None => {
                return Err(QueryError::NoBody);
            },
        };
        Ok(
            Output {
                content,
                inscribe_num: self.number,
                inscribe_id: id.to_text(),
                sat: 0,
                output_address,
                input_address,
            },
        )
    }
}

} // verus!
