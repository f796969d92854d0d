//! A snapshot of what the chain index knows: transactions by their ids, and
//! inscriptions with their numbers, places and contents.

use crate::chain::{OutPoint, Transaction, Txid};
use crate::inscription::Inscription;
use crate::inscription_id::InscriptionId;
use vstd::prelude::*;

verus! {

/// A place on the chain: an output and an offset into its value.
#[derive(Clone, Copy, Debug, PartialEq, Eq)]
pub struct SatPoint {
    pub outpoint: OutPoint,
    pub offset: u64,
}

/// What the index records of an inscription besides its place and content.
#[derive(Clone, Copy, Debug, PartialEq, Eq)]
pub struct InscriptionEntry {
    pub number: i64,
    pub timestamp: u32,
}

/// All that the index knows of one inscription.
#[derive(Clone, Debug, PartialEq, Eq)]
pub struct InscriptionRecord {
    pub id: InscriptionId,
    pub entry: Option<InscriptionEntry>,
    pub satpoint: Option<SatPoint>,
    pub inscription: Option<Inscription>,
}

/// A transaction under its id.
#[derive(Clone, Debug, PartialEq, Eq)]
pub struct TransactionRecord {
    pub txid: Txid,
    pub transaction: Transaction,
}

/// The snapshot. Of several records under one key the first counts.
#[derive(Clone, Debug, PartialEq, Eq)]
pub struct Index {
    pub inscriptions: Vec<InscriptionRecord>,
    pub transactions: Vec<TransactionRecord>,
}

/// The position of the first record of the inscription `id`.
pub open spec fn inscription_position(records: Seq<InscriptionRecord>, id: InscriptionId) -> Option<int>
    decreases records.len(),
{
    if records.len() == 0 {
        None
    } else if inscription_position(records.drop_last(), id) is Some {
        inscription_position(records.drop_last(), id)
    } else if records.last().id == id {
        Some(records.len() - 1)
    } else {
        None
    }
}

/// The position of the first record of the inscription with this number.
pub open spec fn number_position(records: Seq<InscriptionRecord>, number: i64) -> Option<int>
    decreases records.len(),
{
    if records.len() == 0 {
        None
    } else if number_position(records.drop_last(), number) is Some {
        number_position(records.drop_last(), number)
    } else if records.last().entry is Some && records.last().entry->0.number == number {
        Some(records.len() - 1)
    } else {
        None
    }
}

/// The position of the first record of the transaction `txid`.
pub open spec fn transaction_position(records: Seq<TransactionRecord>, txid: Txid) -> Option<int>
    decreases records.len(),
{
    if records.len() == 0 {
        None
    } else if transaction_position(records.drop_last(), txid) is Some {
        transaction_position(records.drop_last(), txid)
    } else if records.last().txid == txid {
        Some(records.len() - 1)
    } else {
        None
    }
}

/// The number of records that have a place.
pub open spec fn placed_count(records: Seq<InscriptionRecord>) -> nat
    decreases records.len(),
{
    if records.len() == 0 {
        0
    } else {
        placed_count(records.drop_last()) + if records.last().satpoint is Some {
            1nat
        } else {
            0nat
        }
    }
}

/// The outputs of the places of the records that have one, in their order.
pub open spec fn placed_outpoints(records: Seq<InscriptionRecord>) -> Seq<OutPoint>
    decreases records.len(),
{
    if records.len() == 0 {
        Seq::<OutPoint>::empty()
    } else if records.last().satpoint is Some {
        placed_outpoints(records.drop_last()).push(records.last().satpoint->0.outpoint)
    } else {
        placed_outpoints(records.drop_last())
    }
}

impl InscriptionId {
    /// Whether two ids are the same.
    pub fn same(&self, other: &InscriptionId) -> (r: bool)
        ensures
            r == (*self == *other),
    {
        self.index == other.index && self.txid.same(&other.txid)
    }
}

impl Index {
    /// The record of the inscription `id`.
    pub open spec fn inscription(&self, id: InscriptionId) -> Option<InscriptionRecord> {
        match inscription_position(self.inscriptions@, id) {
            Some(i) => Some(self.inscriptions@[i]),
            None => None,
        }
    }

    /// The transaction with the id `txid`.
    pub open spec fn transaction(&self, txid: Txid) -> Option<Transaction> {
        match transaction_position(self.transactions@, txid) {
            Some(i) => Some(self.transactions@[i].transaction),
            None => None,
        }
    }

    /// The id of the inscription with this number.
    pub open spec fn numbered(&self, number: i64) -> Option<InscriptionId> {
        match number_position(self.inscriptions@, number) {
            Some(i) => Some(self.inscriptions@[i].id),
            None => None,
        }
    }

    /// The record of the inscription `id`, if the index has one.
    pub fn find_inscription(&self, id: &InscriptionId) -> (r: Option<&InscriptionRecord>)
        ensures
            match r {
                Some(record) => self.inscription(*id) == Some(*record),
                None => self.inscription(*id) is None,
            },
    {
        let mut i: usize = 0;
        while i < self.inscriptions.len()
            invariant
                i <= self.inscriptions@.len(),
                inscription_position(self.inscriptions@.take(i as int), *id) is None,
            decreases self.inscriptions@.len() - i,
        {
            proof {
                assert(self.inscriptions@.take(i + 1).drop_last() == self.inscriptions@.take(
                    i as int,
                ));
                if inscription_position(self.inscriptions@.take(i + 1), *id) is Some {
                    lemma_inscription_found(self.inscriptions@, *id, i + 1);
                }
            }
            if self.inscriptions[i].id.same(id) {
                return Some(&self.inscriptions[i]);
            }
            i += 1;
        }
        assert(self.inscriptions@.take(i as int) == self.inscriptions@);
        None
    }

    /// The place of the inscription `id`, if the index has one.
    pub fn get_inscription_satpoint_by_id(&self, id: &InscriptionId) -> (r: Option<SatPoint>)
        ensures
            r == match self.inscription(*id) {
                Some(record) => record.satpoint,
                None => None,
            },
    {
        match self.find_inscription(id) {
            Some(record) => record.satpoint,
            None => None,
        }
    }

    /// The number and time of the inscription `id`, if the index has them.
    pub fn get_inscription_entry(&self, id: &InscriptionId) -> (r: Option<InscriptionEntry>)
        ensures
            r == match self.inscription(*id) {
                Some(record) => record.entry,
                None => None,
            },
    {
        match self.find_inscription(id) {
            Some(record) => record.entry,
            None => None,
        }
    }

    /// The content of the inscription `id`, if the index has it.
    pub fn get_inscription_by_id(&self, id: &InscriptionId) -> (r: Option<&Inscription>)
        ensures
            match r {
                Some(inscription) => self.inscription(*id) is Some && self.inscription(
                    *id,
                )->0.inscription == Some(*inscription),
                None => self.inscription(*id) is None || self.inscription(*id)->0.inscription
                    is None,
            },
    {
        match self.find_inscription(id) {
            Some(record) => match &record.inscription {
                Some(inscription) => Some(inscription),
                None => None,
            },
            None => None,
        }
    }

    /// The transaction with the id `txid`, if the index has it.
    pub fn get_transaction(&self, txid: &Txid) -> (r: Option<&Transaction>)
        ensures
            match r {
                Some(transaction) => self.transaction(*txid) == Some(*transaction),
                None => self.transaction(*txid) is None,
            },
    {
        let mut i: usize = 0;
        while i < self.transactions.len()
            invariant
                i <= self.transactions@.len(),
                transaction_position(self.transactions@.take(i as int), *txid) is None,
            decreases self.transactions@.len() - i,
        {
            proof {
                assert(self.transactions@.take(i + 1).drop_last() == self.transactions@.take(
                    i as int,
                ));
                if transaction_position(self.transactions@.take(i + 1), *txid) is Some {
                    lemma_transaction_found(self.transactions@, *txid, i + 1);
                }
            }
            if self.transactions[i].txid.same(txid) {
                return Some(&self.transactions[i].transaction);
            }
            i += 1;
        }
        assert(self.transactions@.take(i as int) == self.transactions@);
        None
    }

    /// The id of the inscription with this number, if the index has one.
    pub fn get_inscription_id_by_inscription_number(&self, number: i64) -> (r: Option<
        InscriptionId,
    >)
        ensures
            r == self.numbered(number),
    {
        let mut i: usize = 0;
        while i < self.inscriptions.len()
            invariant
                i <= self.inscriptions@.len(),
                number_position(self.inscriptions@.take(i as int), number) is None,
            decreases self.inscriptions@.len() - i,
        {
            proof {
                assert(self.inscriptions@.take(i + 1).drop_last() == self.inscriptions@.take(
                    i as int,
                ));
                if number_position(self.inscriptions@.take(i + 1), number) is Some {
                    lemma_number_found(self.inscriptions@, number, i + 1);
                }
            }
            match self.inscriptions[i].entry {
                Some(entry) => {
                    if entry.number == number {
                        return Some(self.inscriptions[i].id);
                    }
                },
                None => {},
            }
            i += 1;
        }
        assert(self.inscriptions@.take(i as int) == self.inscriptions@);
        None
    }

    /// The number of inscriptions that have a place.
    pub fn inscription_count(&self) -> (count: usize)
        ensures
            count == placed_count(self.inscriptions@),
    {
        let mut count: usize = 0;
        let mut i: usize = 0;
        while i < self.inscriptions.len()
            invariant
                i <= self.inscriptions@.len(),
                count == placed_count(self.inscriptions@.take(i as int)),
                count <= i,
            decreases self.inscriptions@.len() - i,
        {
            assert(self.inscriptions@.take(i + 1).drop_last() == self.inscriptions@.take(
                i as int,
            ));
            if self.inscriptions[i].satpoint.is_some() {
                count += 1;
            }
            i += 1;
        }
        assert(self.inscriptions@.take(i as int) == self.inscriptions@);
        count
    }

    /// The outputs that hold an inscription.
    pub fn inscribed_outpoints(&self) -> (outpoints: Vec<OutPoint>)
        ensures
            outpoints@ == placed_outpoints(self.inscriptions@),
    {
        let mut outpoints: Vec<OutPoint> = Vec::new();
        let mut i: usize = 0;
        while i < self.inscriptions.len()
            invariant
                i <= self.inscriptions@.len(),
                outpoints@ == placed_outpoints(self.inscriptions@.take(i as int)),
            decreases self.inscriptions@.len() - i,
        {
            assert(self.inscriptions@.take(i + 1).drop_last() == self.inscriptions@.take(
                i as int,
            ));
            match self.inscriptions[i].satpoint {
                Some(satpoint) => {
                    outpoints.push(satpoint.outpoint);
                },
                None => {},
            }
            i += 1;
        }
        assert(self.inscriptions@.take(i as int) == self.inscriptions@);
        outpoints
    }
}

proof fn lemma_inscription_found(records: Seq<InscriptionRecord>, id: InscriptionId, upto: int)
    requires
        0 <= upto <= records.len(),
        inscription_position(records.take(upto), id) is Some,
    ensures
        inscription_position(records, id) == inscription_position(records.take(upto), id),
    decreases records.len() - upto,
{
    if upto < records.len() {
        assert(records.take(upto + 1).drop_last() == records.take(upto));
        lemma_inscription_found(records, id, upto + 1);
    } else {
        assert(records.take(upto) == records);
    }
}

proof fn lemma_number_found(records: Seq<InscriptionRecord>, number: i64, upto: int)
    requires
        0 <= upto <= records.len(),
        number_position(records.take(upto), number) is Some,
    ensures
        number_position(records, number) == number_position(records.take(upto), number),
    decreases records.len() - upto,
{
    if upto < records.len() {
        assert(records.take(upto + 1).drop_last() == records.take(upto));
        lemma_number_found(records, number, upto + 1);
    } else {
        assert(records.take(upto) == records);
    }
}

proof fn lemma_transaction_found(records: Seq<TransactionRecord>, txid: Txid, upto: int)
    requires
        0 <= upto <= records.len(),
        transaction_position(records.take(upto), txid) is Some,
    ensures
        transaction_position(records, txid) == transaction_position(records.take(upto), txid),
    decreases records.len() - upto,
{
    if upto < records.len() {
        assert(records.take(upto + 1).drop_last() == records.take(upto));
        lemma_transaction_found(records, txid, upto + 1);
    } else {
        assert(records.take(upto) == records);
    }
}

} // verus!
