//! The query of an inscription's content by its number.

use crate::error::QueryError;
use crate::index::Index;
use crate::inscription_id::InscriptionId;
use crate::script::copy_bytes;
use vstd::prelude::*;

verus! {

/// The query: the number of the inscription.
#[derive(Debug)]
pub struct FindContent {
    pub number: i64,
}

/// What the query answers.
#[derive(Debug, PartialEq)]
pub struct Output {
    pub content: Vec<u8>,
    pub inscribe_num: i64,
    pub inscribe_id: String,
    pub timestamp: u32,
}

/// The answer to the query for `number`: the body, the id and the time.
/// `UnknownInscription` where the index has no inscription under the
/// number, `NoContent` where it has no content for it, `NoBody` where the
/// content has no body, `NoEntry` where the index lacks the time.
pub open spec fn answer_of(index: &Index, number: i64) -> Result<
    (Seq<u8>, InscriptionId, u32),
    QueryError,
> {
    match index.numbered(number) {
        None => Err(QueryError::UnknownInscription),
        Some(id) => {
            if index.inscription(id) is None || index.inscription(id)->0.inscription is None {
                Err(QueryError::NoContent)
            } else if index.inscription(id)->0.inscription->0.body is None {
                Err(QueryError::NoBody)
            } else if index.inscription(id)->0.entry is None {
                Err(QueryError::NoEntry)
            } else {
                Ok(
                    (
                        index.inscription(id)->0.inscription->0.body->0@,
                        id,
                        index.inscription(id)->0.entry->0.timestamp,
                    ),
                )
            }
        },
    }
}

impl FindContent {
    /// Answers the query from `index`.
    pub fn run(self, index: &Index) -> (r: Result<Output, QueryError>)
        ensures
            match answer_of(index, self.number) {
                Err(e) => r is Err && r->Err_0 == e,
                Ok(answer) => {
                    &&& r is Ok
                    &&& r->Ok_0.content@ == answer.0
                    &&& r->Ok_0.inscribe_num == self.number
                    &&& r->Ok_0.inscribe_id@ == answer.1.text()
                    &&& r->Ok_0.timestamp == answer.2
                },
            },
    {
        let id = match index.get_inscription_id_by_inscription_number(self.number) {
            Some(id) => id,
            None => {
                return Err(QueryError::UnknownInscription);
            },
        };
        let entry = index.get_inscription_entry(&id);
        let inscription = match index.get_inscription_by_id(&id) {
            Some(inscription) => inscription,
            None => {
                return Err(QueryError::NoContent);
            },
        };
        let content = match &inscription.body {
            Some(body) => copy_bytes(body.as_slice()),
            None => {
                return Err(QueryError::NoBody);
            },
        };
        let timestamp = match entry {
            Some(entry) => entry.timestamp,
            None => {
                return Err(QueryError::NoEntry);
            },
        };
        Ok(Output { content, inscribe_num: self.number, inscribe_id: id.to_text(), timestamp })
    }
}

} // verus!
