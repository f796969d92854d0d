//! The spendable outputs of a wallet, kept in the order of their outpoints.

use crate::chain::{lemma_precedes_total, lemma_precedes_transitive, precedes, OutPoint};
use crate::error::Error;
use vstd::prelude::*;

verus! {

/// An unspent output and what it is worth.
#[derive(Clone, Copy, Debug, PartialEq, Eq)]
pub struct Utxo {
    pub outpoint: OutPoint,
    pub amount: u64,
}

/// A map from outpoints to amounts that is walked in ascending order.
#[derive(Debug)]
pub struct UtxoSet {
    entries: Vec<Utxo>,
}

/// Whether every entry sorts before all that follow it.
pub open spec fn ascending(entries: Seq<Utxo>) -> bool {
    forall|i: int, j: int|
        #![trigger entries[i], entries[j]]
        0 <= i < j < entries.len() ==> precedes(entries[i].outpoint, entries[j].outpoint)
}

/// The amount that `entries` holds for `outpoint`.
pub open spec fn amount_at(entries: Seq<Utxo>, outpoint: OutPoint) -> Option<u64>
    decreases entries.len(),
{
    if entries.len() == 0 {
        None
    } else if entries.last().outpoint == outpoint {
        Some(entries.last().amount)
    } else {
        amount_at(entries.drop_last(), outpoint)
    }
}

/// The amounts of `entries` by their outpoints.
pub open spec fn amounts_of(entries: Seq<Utxo>) -> Map<OutPoint, u64> {
    Map::new(
        |outpoint: OutPoint| amount_at(entries, outpoint) is Some,
        |outpoint: OutPoint| amount_at(entries, outpoint)->0,
    )
}

/// The sum of the amounts of `entries`.
pub open spec fn total_of(entries: Seq<Utxo>) -> int
    decreases entries.len(),
{
    if entries.len() == 0 {
        0
    } else {
        total_of(entries.drop_last()) + entries.last().amount
    }
}

/// The entries whose outpoint carries no inscription.
pub open spec fn cardinal(entries: Seq<Utxo>, inscribed: Set<OutPoint>) -> Seq<Utxo> {
    entries.filter(|utxo: Utxo| !inscribed.contains(utxo.outpoint))
}

/// Taking the inscribed outputs away twice leaves what taking them away once leaves.
pub proof fn lemma_cardinal_idempotent(entries: Seq<Utxo>, inscribed: Set<OutPoint>)
    ensures
        cardinal(cardinal(entries, inscribed), inscribed) == cardinal(entries, inscribed),
    decreases entries.len(),
{
    reveal(Seq::filter);
    let keep = |utxo: Utxo| !inscribed.contains(utxo.outpoint);
    if entries.len() > 0 {
        let rest = entries.drop_last();
        lemma_cardinal_idempotent(rest, inscribed);
        if keep(entries.last()) {
            let kept = rest.filter(keep).push(entries.last());
            assert(kept.drop_last() == rest.filter(keep));
        }
    }
}

/// What is left after the inscribed outputs are taken away holds none of them,
/// and holds every other entry with its amount.
pub proof fn lemma_cardinal_amounts(
    entries: Seq<Utxo>,
    inscribed: Set<OutPoint>,
    outpoint: OutPoint,
)
    ensures
        amount_at(cardinal(entries, inscribed), outpoint) == if inscribed.contains(outpoint) {
            None
        } else {
            amount_at(entries, outpoint)
        },
    decreases entries.len(),
{
    reveal(Seq::filter);
    let keep = |utxo: Utxo| !inscribed.contains(utxo.outpoint);
    if entries.len() > 0 {
        let rest = entries.drop_last();
        lemma_cardinal_amounts(rest, inscribed, outpoint);
        if keep(entries.last()) {
            let kept = rest.filter(keep).push(entries.last());
            assert(kept.drop_last() == rest.filter(keep));
        }
    }
}

proof fn lemma_cardinal_ascending(entries: Seq<Utxo>, inscribed: Set<OutPoint>)
    requires
        ascending(entries),
    ensures
        ascending(cardinal(entries, inscribed)),
        forall|k: int|
            0 <= k < cardinal(entries, inscribed).len() ==> exists|i: int|
                0 <= i < entries.len() && entries[i] == #[trigger] cardinal(entries, inscribed)[k],
    decreases entries.len(),
{
    reveal(Seq::filter);
    let keep = |utxo: Utxo| !inscribed.contains(utxo.outpoint);
    if entries.len() > 0 {
        let rest = entries.drop_last();
        lemma_cardinal_ascending(rest, inscribed);
        let kept = cardinal(entries, inscribed);
        let before = cardinal(rest, inscribed);
        assert forall|k: int| 0 <= k < kept.len() implies exists|i: int|
            0 <= i < entries.len() && entries[i] == #[trigger] kept[k] by {
            if k < before.len() {
                let i = choose|i: int| 0 <= i < rest.len() && rest[i] == before[k];
                assert(entries[i] == kept[k]);
            } else {
                assert(entries[entries.len() - 1] == kept[k]);
            }
        }
        assert forall|i: int, j: int| 0 <= i < j < kept.len() implies precedes(
            #[trigger] kept[i].outpoint,
            #[trigger] kept[j].outpoint,
        ) by {
            if j == before.len() {
                let a = choose|a: int| 0 <= a < rest.len() && rest[a] == before[i];
                assert(precedes(entries[a].outpoint, entries[entries.len() - 1].outpoint));
            }
        }
    }
}

/// In an ascending row every entry is found under its outpoint.
pub proof fn lemma_amount_at_index(entries: Seq<Utxo>, i: int)
    requires
        ascending(entries),
        0 <= i < entries.len(),
    ensures
        amount_at(entries, entries[i].outpoint) == Some(entries[i].amount),
    decreases entries.len(),
{
    let last = entries.len() - 1;
    if i < last {
        lemma_precedes_total(entries[i].outpoint, entries[last].outpoint);
        assert(precedes(entries[i].outpoint, entries[last].outpoint));
        let rest = entries.drop_last();
        assert(rest[i] == entries[i]);
        lemma_amount_at_index(rest, i);
    }
}

proof fn lemma_amount_at_absent(entries: Seq<Utxo>, outpoint: OutPoint)
    requires
        forall|i: int| 0 <= i < entries.len() ==> (#[trigger] entries[i]).outpoint != outpoint,
    ensures
        amount_at(entries, outpoint) is None,
    decreases entries.len(),
{
    if entries.len() > 0 {
        let rest = entries.drop_last();
        assert(entries[entries.len() - 1].outpoint != outpoint);
        assert forall|i: int| 0 <= i < rest.len() implies (#[trigger] rest[i]).outpoint
            != outpoint by {
            assert(rest[i] == entries[i]);
        }
        lemma_amount_at_absent(rest, outpoint);
    }
}

/// An amount that is found belongs to an entry.
pub proof fn lemma_amount_at_present(entries: Seq<Utxo>, outpoint: OutPoint)
    requires
        amount_at(entries, outpoint) is Some,
    ensures
        exists|i: int|
            0 <= i < entries.len() && #[trigger] entries[i] == (Utxo {
                outpoint,
                amount: amount_at(entries, outpoint)->0,
            }),
    decreases entries.len(),
{
    let last = entries.len() - 1;
    if entries[last].outpoint == outpoint {
        assert(entries[last] == Utxo { outpoint, amount: amount_at(entries, outpoint)->0 });
    } else {
        let rest = entries.drop_last();
        lemma_amount_at_present(rest, outpoint);
        let i = choose|i: int|
            0 <= i < rest.len() && #[trigger] rest[i] == (Utxo {
                outpoint,
                amount: amount_at(rest, outpoint)->0,
            });
        assert(entries[i] == rest[i]);
    }
}

impl View for UtxoSet {
    type V = Seq<Utxo>;

    closed spec fn view(&self) -> Seq<Utxo> {
        self.entries@
    }
}

impl UtxoSet {
    #[verifier::type_invariant]
    spec fn sorted(self) -> bool {
        ascending(self.entries@)
    }

    /// The amount that this set holds for `outpoint`.
    pub open spec fn amount(&self, outpoint: OutPoint) -> Option<u64> {
        amount_at(self@, outpoint)
    }

    /// The amounts of this set by their outpoints.
    pub open spec fn amounts(&self) -> Map<OutPoint, u64> {
        amounts_of(self@)
    }

    /// The set that holds nothing.
    pub fn new() -> (set: UtxoSet)
        ensures
            set@.len() == 0,
    {
        UtxoSet { entries: Vec::new() }
    }

    pub fn len(&self) -> (n: usize)
        ensures
            n == self@.len(),
    {
        self.entries.len()
    }

    /// A copy of this set.
    pub fn duplicate(&self) -> (set: UtxoSet)
        ensures
            set@ == self@,
    {
        proof {
            use_type_invariant(self);
        }
        let mut entries: Vec<Utxo> = Vec::new();
        let mut i: usize = 0;
        while i < self.entries.len()
            invariant
                i <= self.entries.len(),
                entries@ == self.entries@.take(i as int),
            decreases self.entries.len() - i,
        {
            entries.push(self.entries[i]);
            assert(self.entries@.take(i + 1) == self.entries@.take(i as int).push(
                self.entries@[i as int],
            ));
            i += 1;
        }
        assert(self.entries@.take(self.entries.len() as int) == self.entries@);
        UtxoSet { entries }
    }

    pub fn is_empty(&self) -> (r: bool)
        ensures
            r == (self@.len() == 0),
    {
        self.entries.len() == 0
    }

    /// The entry at position `i` of the ascending order.
    pub fn entry(&self, i: usize) -> (utxo: Utxo)
        requires
            i < self@.len(),
        ensures
            utxo == self@[i as int],
    {
        self.entries[i]
    }

    /// The entries of a set come in ascending order.
    pub fn order(&self)
        ensures
            ascending(self@),
    {
        proof {
            use_type_invariant(self);
        }
    }

    /// The first position whose entry does not sort before `outpoint`.
    fn position(&self, outpoint: &OutPoint) -> (p: usize)
        ensures
            p <= self@.len(),
            forall|j: int| 0 <= j < p ==> precedes((#[trigger] self@[j]).outpoint, *outpoint),
            p < self@.len() ==> !precedes(self@[p as int].outpoint, *outpoint),
    {
        let mut i: usize = 0;
        while i < self.entries.len()
            invariant
                i <= self.entries.len(),
                forall|j: int|
                    0 <= j < i ==> precedes((#[trigger] self.entries@[j]).outpoint, *outpoint),
            decreases self.entries.len() - i,
        {
            if !self.entries[i].outpoint.comes_before(outpoint) {
                return i;
            }
            i += 1;
        }
        i
    }

    /// The amount that this set holds for `outpoint`, if any.
    pub fn get(&self, outpoint: &OutPoint) -> (amount: Option<u64>)
        ensures
            amount == self.amount(*outpoint),
    {
        proof {
            use_type_invariant(self);
        }
        let p = self.position(outpoint);
        if p < self.entries.len() && self.entries[p].outpoint.same(outpoint) {
            proof {
                lemma_amount_at_index(self.entries@, p as int);
            }
            Some(self.entries[p].amount)
        } else {
            proof {
                let entries = self.entries@;
                assert forall|i: int| 0 <= i < entries.len() implies (#[trigger] entries[i]).outpoint
                    != *outpoint by {
                    lemma_precedes_total(entries[i].outpoint, *outpoint);
                    if i > p {
                        assert(precedes(entries[p as int].outpoint, entries[i].outpoint));
                        lemma_precedes_total(entries[p as int].outpoint, *outpoint);
                    }
                }
                lemma_amount_at_absent(entries, *outpoint);
            }
            None
        }
    }

    /// Sets the amount of `outpoint`, whether the set held it or not.
    pub fn insert(&mut self, outpoint: OutPoint, amount: u64)
        ensures
            forall|other: OutPoint|
                #![trigger final(self).amount(other)]
                final(self).amount(other) == if other == outpoint {
                    Some(amount)
                } else {
                    old(self).amount(other)
                },
            final(self)@.len() == if old(self).amount(outpoint) is Some {
                old(self)@.len()
            } else {
                old(self)@.len() + 1
            },
            final(self).amounts() == old(self).amounts().insert(outpoint, amount),
    {
        proof {
            use_type_invariant(&*self);
        }
        let ghost before = self.entries@;
        let p = self.position(&outpoint);
        let replace = p < self.entries.len() && self.entries[p].outpoint.same(&outpoint);
        let utxo = Utxo { outpoint, amount };
        let resume: usize = if replace { p + 1 } else { p };
        let mut fresh: Vec<Utxo> = Vec::new();
        let mut i: usize = 0;
        while i < p
            invariant
                i <= p <= self.entries.len(),
                fresh@ == self.entries@.take(i as int),
            decreases p - i,
        {
            fresh.push(self.entries[i]);
            assert(self.entries@.take(i + 1) == self.entries@.take(i as int).push(
                self.entries@[i as int],
            ));
            i += 1;
        }
        fresh.push(utxo);
        let mut k: usize = resume;
        while k < self.entries.len()
            invariant
                p <= resume <= k <= self.entries.len(),
                fresh@ == self.entries@.take(p as int).push(utxo) + self.entries@.subrange(
                    resume as int,
                    k as int,
                ),
            decreases self.entries.len() - k,
        {
            fresh.push(self.entries[k]);
            assert(self.entries@.subrange(resume as int, k + 1) == self.entries@.subrange(
                resume as int,
                k as int,
            ).push(self.entries@[k as int]));
            k += 1;
        }
        proof {
            let after = fresh@;
            let shift = if replace { 1int } else { 0int };
            // Where each entry of the new row comes from.
            assert forall|i: int| 0 <= i < after.len() implies #[trigger] after[i] == if i < p {
                before[i]
            } else if i == p {
                utxo
            } else {
                before[i - 1 + shift]
            } by {}
            assert forall|i: int, j: int| 0 <= i < j < after.len() implies precedes(
                #[trigger] after[i].outpoint,
                #[trigger] after[j].outpoint,
            ) by {
                if j == p {
                    assert(precedes(before[i].outpoint, outpoint));
                } else if i == p {
                    let k = j - 1 + shift;
                    lemma_precedes_total(before[p as int].outpoint, outpoint);
                    if k > p {
                        assert(precedes(before[p as int].outpoint, before[k].outpoint));
                        if replace {
                        } else {
                            lemma_precedes_transitive(
                                outpoint,
                                before[p as int].outpoint,
                                before[k].outpoint,
                            );
                        }
                    }
                } else {
                    let a = if i < p { i } else { i - 1 + shift };
                    let b = if j < p { j } else { j - 1 + shift };
                    assert(precedes(before[a].outpoint, before[b].outpoint));
                }
            }
            assert(ascending(after));
            lemma_amount_at_index(after, p as int);
            assert forall|other: OutPoint| amount_at(after, other) == if other == outpoint {
                Some(amount)
            } else {
                amount_at(before, other)
            } by {
                if other != outpoint {
                    if amount_at(before, other) is Some {
                        lemma_amount_at_present(before, other);
                        let i = choose|i: int|
                            0 <= i < before.len() && #[trigger] before[i] == (Utxo {
                                outpoint: other,
                                amount: amount_at(before, other)->0,
                            });
                        let k = if i < p { i } else { i + 1 - shift };
                        assert(after[k] == before[i]);
                        lemma_amount_at_index(after, k);
                    } else {
                        if amount_at(after, other) is Some {
                            lemma_amount_at_present(after, other);
                            let k = choose|k: int|
                                0 <= k < after.len() && #[trigger] after[k] == (Utxo {
                                    outpoint: other,
                                    amount: amount_at(after, other)->0,
                                });
                            let i = if k < p { k } else { k - 1 + shift };
                            assert(before[i] == after[k]);
                            lemma_amount_at_index(before, i);
                        }
                    }
                }
            }
            assert(amounts_of(after) =~= amounts_of(before).insert(outpoint, amount));
            if replace {
                lemma_amount_at_index(before, p as int);
            } else {
                assert forall|i: int| 0 <= i < before.len() implies (#[trigger] before[i]).outpoint
                    != outpoint by {
                    lemma_precedes_total(before[i].outpoint, outpoint);
                    if i > p {
                        assert(precedes(before[p as int].outpoint, before[i].outpoint));
                        lemma_precedes_total(before[p as int].outpoint, outpoint);
                    }
                }
                lemma_amount_at_absent(before, outpoint);
            }
        }
        self.entries = fresh;
    }

    /// The sum of all amounts, unless it does not fit in 64 bits.
    pub fn total(&self) -> (sum: Option<u64>)
        ensures
            0 <= total_of(self@),
            total_of(self@) <= u64::MAX ==> sum == Some(total_of(self@) as u64),
            total_of(self@) > u64::MAX ==> sum is None,
    {
        proof {
            lemma_total_of_nonnegative(self@);
        }
        let mut sum: u64 = 0;
        let mut i: usize = 0;
        while i < self.entries.len()
            invariant
                i <= self.entries.len(),
                sum == total_of(self.entries@.take(i as int)),
            decreases self.entries.len() - i,
        {
            proof {
                lemma_total_of_take(self.entries@, i as int);
                lemma_total_of_prefix(self.entries@, i + 1);
            }
            let amount = self.entries[i].amount;
            if amount > u64::MAX - sum {
                return None;
            }
            sum += amount;
            i += 1;
        }
        assert(self.entries@.take(self.entries.len() as int) == self.entries@);
        Some(sum)
    }

    /// The entries whose outpoint is not among `inscribed`, or
    /// `NoCardinalUtxos` where none is left.
    pub fn filter(&self, inscribed: &Vec<OutPoint>) -> (r: Result<UtxoSet, Error>)
        ensures
            cardinal(self@, inscribed@.to_set()).len() > 0 ==> r is Ok && r->Ok_0@ == cardinal(
                self@,
                inscribed@.to_set(),
            ),
            cardinal(self@, inscribed@.to_set()).len() == 0 ==> r == Err::<UtxoSet, Error>(
                Error::NoCardinalUtxos,
            ),
    {
        proof {
            use_type_invariant(self);
        }
        let ghost taken = inscribed@.to_set();
        let ghost keep = |utxo: Utxo| !taken.contains(utxo.outpoint);
        let mut kept: Vec<Utxo> = Vec::new();
        let mut i: usize = 0;
        assert(self.entries@.take(0).filter(keep) == Seq::<Utxo>::empty()) by {
            reveal(Seq::filter);
        }
        while i < self.entries.len()
            invariant
                i <= self.entries.len(),
                taken == inscribed@.to_set(),
                keep == |utxo: Utxo| !taken.contains(utxo.outpoint),
                kept@ == self.entries@.take(i as int).filter(keep),
            decreases self.entries.len() - i,
        {
            let utxo = self.entries[i];
            let found = contains_outpoint(inscribed, &utxo.outpoint);
            proof {
                reveal(Seq::filter);
                let next = self.entries@.take(i + 1);
                assert(next.drop_last() == self.entries@.take(i as int));
                assert(next.last() == utxo);
            }
            if !found {
                kept.push(utxo);
            }
            i += 1;
        }
        assert(self.entries@.take(self.entries.len() as int) == self.entries@);
        if kept.len() == 0 {
            Err(Error::NoCardinalUtxos)
        } else {
            proof {
                lemma_cardinal_ascending(self.entries@, taken);
            }
            Ok(UtxoSet { entries: kept })
        }
    }
}

proof fn lemma_total_of_take(entries: Seq<Utxo>, i: int)
    requires
        0 <= i < entries.len(),
    ensures
        total_of(entries.take(i + 1)) == total_of(entries.take(i)) + entries[i].amount,
{
    assert(entries.take(i + 1).drop_last() == entries.take(i));
}

/// A sum of amounts is not negative.
pub proof fn lemma_total_of_nonnegative(entries: Seq<Utxo>)
    ensures
        0 <= total_of(entries),
    decreases entries.len(),
{
    if entries.len() > 0 {
        lemma_total_of_nonnegative(entries.drop_last());
    }
}

proof fn lemma_total_of_prefix(entries: Seq<Utxo>, i: int)
    requires
        0 <= i <= entries.len(),
    ensures
        0 <= total_of(entries.take(i)) <= total_of(entries),
    decreases entries.len() - i,
{
    lemma_total_of_nonnegative(entries.take(i));
    if i < entries.len() {
        lemma_total_of_take(entries, i);
        lemma_total_of_prefix(entries, i + 1);
    } else {
        assert(entries.take(i) == entries);
    }
}

/// Whether `outpoint` is one of `outpoints`.
pub fn contains_outpoint(outpoints: &Vec<OutPoint>, outpoint: &OutPoint) -> (found: bool)
    ensures
        found == outpoints@.to_set().contains(*outpoint),
{
    let mut i: usize = 0;
    while i < outpoints.len()
        invariant
            i <= outpoints.len(),
            forall|j: int| 0 <= j < i ==> outpoints@[j] != *outpoint,
        decreases outpoints.len() - i,
    {
        if outpoints[i].same(outpoint) {
            assert(outpoints@.contains(*outpoint));
            return true;
        }
        i += 1;
    }
    assert(!outpoints@.contains(*outpoint));
    false
}

} // verus!
