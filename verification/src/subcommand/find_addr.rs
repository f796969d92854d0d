//! The query of the addresses around an inscription.

use crate::chain::OutPoint;
use crate::error::QueryError;
use crate::index::Index;
use crate::inscription_id::{inscription_id_of, InscriptionId};
use crate::keys::Network;
use crate::subcommand::find_by_id::{address_of_output, addresses_of, text_matches};
use vstd::prelude::*;

verus! {

/// The query: the id as text.
#[derive(Debug)]
pub struct FindAddr {
    pub id: String,
}

/// What the query answers.
#[derive(Debug, PartialEq)]
pub struct Output {
    pub output_address: String,
    pub input_address: String,
}

/// The address on the main network that the output `outpoint` pays to.
pub fn get_address_from_tx(outpoint: OutPoint, index: &Index) -> (r: Result<String, QueryError>)
    ensures
        text_matches(r, address_of_output(index, Network::Bitcoin, outpoint)),
{
    crate::subcommand::find_by_id::get_address_from_tx(Network::Bitcoin, outpoint, index)
}

impl FindAddr {
    /// Answers the query from `index`: the addresses around the inscription,
    /// on the main network. `InvalidId` where the text names no id.
    pub fn run(self, index: &Index) -> (r: Result<Output, QueryError>)
        ensures
            match inscription_id_of(vstd::utf8::encode_utf8(self.id@)) {
                None => r is Err && r->Err_0 == QueryError::InvalidId,
                Some(id) => match addresses_of(index, Network::Bitcoin, id) {
                    Err(e) => r is Err && r->Err_0 == e,
                    Ok(addresses) => {
                        &&& r is Ok
                        &&& r->Ok_0.output_address@ == addresses.0
                        &&& r->Ok_0.input_address@ == addresses.1
                    },
                },
            },
    {
        let id = match InscriptionId::parse(self.id.as_str()) {
            Some(id) => id,
            None => {
                return Err(QueryError::InvalidId);
            },
        };
        let satpoint = match index.get_inscription_satpoint_by_id(&id) {
            Some(satpoint) => satpoint,
            None => {
                return Err(QueryError::UnknownInscription);
            },
        };
        let transaction = match index.get_transaction(&satpoint.outpoint.txid) {
            Some(transaction) => transaction,
            None => {
                return Err(QueryError::UnknownTransaction);
            },
        };
        let output_address = get_address_from_tx(satpoint.outpoint, index)?;
        if transaction.input.len() == 0 {
            return Err(QueryError::NoInput);
        }
        let input_address = get_address_from_tx(transaction.input[0].previous_output, index)?;
        Ok(Output { output_address, input_address })
    }
}

} // verus!
