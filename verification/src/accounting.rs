//! What transactions leave to the miners, by the amounts of the outputs they
//! spend.

use crate::chain::{output_total, outputs_view, OutPoint, Transaction, TransactionView, TxInView, TxOut};
use crate::error::Error;
use crate::utxo::{amounts_of, ascending, lemma_amount_at_index, total_of, Utxo, UtxoSet};
use vstd::prelude::*;

verus! {

/// Whether some input spends an output that `known` does not hold.
pub open spec fn dangling(inputs: Seq<TxInView>, known: Map<OutPoint, u64>) -> bool {
    exists|i: int| 0 <= i < inputs.len() && !known.contains_key(#[trigger] inputs[i].previous_output)
}

/// The sum of the amounts that `known` holds for the outputs that `inputs` spend.
pub open spec fn input_total(inputs: Seq<TxInView>, known: Map<OutPoint, u64>) -> int
    decreases inputs.len(),
{
    if inputs.len() == 0 {
        0
    } else {
        input_total(inputs.drop_last(), known) + if known.contains_key(
            inputs.last().previous_output,
        ) {
            known[inputs.last().previous_output] as int
        } else {
            0
        }
    }
}

/// What `tx` leaves: its inputs less its outputs. `DanglingInput` where
/// `known` lacks an output that it spends, `NegativeFee` where it pays out
/// more than it spends, `FeeOverflow` where the fee does not fit in 64 bits.
pub open spec fn actual_fee_of(tx: TransactionView, known: Map<OutPoint, u64>) -> Result<u64, Error> {
    let fee = input_total(tx.input, known) - output_total(tx.output);
    if dangling(tx.input, known) {
        Err(Error::DanglingInput)
    } else if fee < 0 {
        Err(Error::NegativeFee)
    } else if fee > u64::MAX {
        Err(Error::FeeOverflow)
    } else {
        Ok(fee as u64)
    }
}

/// What the reveals leave, each measured once the mint output that its
/// first input spends is known with the value that `commit` gives it.
/// `DanglingInput` where a reveal has no input or names an output that
/// `commit` lacks; else the error of the first reveal whose fee has one.
pub open spec fn reveal_fees_of(
    commit: TransactionView,
    reveals: Seq<TransactionView>,
    known: Map<OutPoint, u64>,
) -> Result<int, Error>
    decreases reveals.len(),
{
    if reveals.len() == 0 {
        Ok(0)
    } else {
        let first = reveals.first();
        if first.input.len() == 0 || first.input[0].previous_output.vout >= commit.output.len() {
            Err(Error::DanglingInput)
        } else {
            let spent = first.input[0].previous_output;
            let known = known.insert(spent, commit.output[spent.vout as int].value);
            match actual_fee_of(first, known) {
                Err(e) => Err(e),
                Ok(fee) => match reveal_fees_of(commit, reveals.drop_first(), known) {
                    Err(e) => Err(e),
                    Ok(rest) => Ok(fee + rest),
                },
            }
        }
    }
}

/// What the commit and the reveals leave together, or the first error among
/// them; `FeeOverflow` where the sum does not fit in 64 bits.
pub open spec fn total_fees_of(
    commit: TransactionView,
    reveals: Seq<TransactionView>,
    known: Map<OutPoint, u64>,
) -> Result<u64, Error> {
    match actual_fee_of(commit, known) {
        Err(e) => Err(e),
        Ok(fee) => match reveal_fees_of(commit, reveals, known) {
            Err(e) => Err(e),
            Ok(rest) => if fee + rest > u64::MAX {
                Err(Error::FeeOverflow)
            } else {
                Ok((fee + rest) as u64)
            },
        },
    }
}

/// The sum of a row of fees.
pub open spec fn fee_sum(fees: Seq<u64>) -> int
    decreases fees.len(),
{
    if fees.len() == 0 {
        0
    } else {
        fees.first() + fee_sum(fees.drop_first())
    }
}

/// A sum of fees is not negative.
pub proof fn lemma_fee_sum_nonnegative(fees: Seq<u64>)
    ensures
        0 <= fee_sum(fees),
    decreases fees.len(),
{
    if fees.len() > 0 {
        lemma_fee_sum_nonnegative(fees.drop_first());
    }
}

/// Reveals that each spend one output of the commit into one output leave
/// what lies between the two, whatever else is known.
pub proof fn lemma_single_spend_fees(
    commit: TransactionView,
    reveals: Seq<TransactionView>,
    fees: Seq<u64>,
    known: Map<OutPoint, u64>,
)
    requires
        reveals.len() == fees.len(),
        forall|i: int|
            0 <= i < reveals.len() ==> {
                let reveal = #[trigger] reveals[i];
                &&& reveal.input.len() == 1
                &&& reveal.output.len() == 1
                &&& reveal.input[0].previous_output.vout < commit.output.len()
                &&& commit.output[reveal.input[0].previous_output.vout as int].value
                    == reveal.output[0].value + fees[i]
            },
    ensures
        reveal_fees_of(commit, reveals, known) == Ok::<int, Error>(fee_sum(fees)),
    decreases reveals.len(),
{
    if reveals.len() > 0 {
        let first = reveals.first();
        let spent = first.input[0].previous_output;
        let after = known.insert(spent, commit.output[spent.vout as int].value);
        assert(first == reveals[0]);
        assert(first.input.drop_last().len() == 0);
        assert(first.output.drop_last().len() == 0);
        assert(input_total(first.input, after) == commit.output[spent.vout as int].value) by {
            assert(first.input.last() == first.input[0]);
            assert(input_total(first.input.drop_last(), after) == 0);
        }
        assert(output_total(first.output) == first.output[0].value) by {
            assert(first.output.last() == first.output[0]);
            assert(output_total(first.output.drop_last()) == 0);
        }
        assert(!dangling(first.input, after));
        assert(actual_fee_of(first, after) == Ok::<u64, Error>(fees[0]));
        assert forall|i: int| 0 <= i < reveals.drop_first().len() implies {
            let reveal = #[trigger] reveals.drop_first()[i];
            &&& reveal.input.len() == 1
            &&& reveal.output.len() == 1
            &&& reveal.input[0].previous_output.vout < commit.output.len()
            &&& commit.output[reveal.input[0].previous_output.vout as int].value
                == reveal.output[0].value + fees.drop_first()[i]
        } by {
            assert(reveals.drop_first()[i] == reveals[i + 1]);
        }
        lemma_single_spend_fees(commit, reveals.drop_first(), fees.drop_first(), after);
    }
}

/// A transaction that spends every entry of an ascending row, each once and
/// nothing else, spends their sum and has no dangling input.
pub proof fn lemma_spends_all(inputs: Seq<TxInView>, entries: Seq<Utxo>)
    requires
        ascending(entries),
        inputs.len() == entries.len(),
        forall|i: int|
            0 <= i < inputs.len() ==> (#[trigger] inputs[i]).previous_output == entries[i].outpoint,
    ensures
        input_total(inputs, amounts_of(entries)) == total_of(entries),
        !dangling(inputs, amounts_of(entries)),
{
    lemma_spends_prefix(inputs, entries, inputs.len() as int);
    assert(inputs.take(inputs.len() as int) == inputs);
    assert(entries.take(entries.len() as int) == entries);
    assert forall|i: int| 0 <= i < inputs.len() implies amounts_of(entries).contains_key(
        #[trigger] inputs[i].previous_output,
    ) by {
        lemma_amount_at_index(entries, i);
    }
}

proof fn lemma_spends_prefix(inputs: Seq<TxInView>, entries: Seq<Utxo>, upto: int)
    requires
        ascending(entries),
        inputs.len() == entries.len(),
        0 <= upto <= inputs.len(),
        forall|i: int|
            0 <= i < inputs.len() ==> (#[trigger] inputs[i]).previous_output == entries[i].outpoint,
    ensures
        input_total(inputs.take(upto), amounts_of(entries)) == total_of(entries.take(upto)),
    decreases upto,
{
    if upto > 0 {
        lemma_spends_prefix(inputs, entries, upto - 1);
        assert(inputs.take(upto).drop_last() == inputs.take(upto - 1));
        assert(entries.take(upto).drop_last() == entries.take(upto - 1));
        assert(inputs.take(upto).last() == inputs[upto - 1]);
        assert(entries.take(upto).last() == entries[upto - 1]);
        lemma_amount_at_index(entries, upto - 1);
    }
}

proof fn lemma_input_total_take(inputs: Seq<TxInView>, known: Map<OutPoint, u64>, i: int)
    requires
        0 <= i < inputs.len(),
    ensures
        input_total(inputs.take(i + 1), known) == input_total(inputs.take(i), known) + if known.contains_key(
            inputs[i].previous_output,
        ) {
            known[inputs[i].previous_output] as int
        } else {
            0
        },
{
    assert(inputs.take(i + 1).drop_last() == inputs.take(i));
}

proof fn lemma_output_total_take(outputs: Seq<crate::chain::TxOutView>, i: int)
    requires
        0 <= i < outputs.len(),
    ensures
        output_total(outputs.take(i + 1)) == output_total(outputs.take(i)) + outputs[i].value,
{
    assert(outputs.take(i + 1).drop_last() == outputs.take(i));
}

/// The sum of the values of `outputs`.
fn sum_outputs(outputs: &Vec<TxOut>) -> (sum: u128)
    ensures
        sum == output_total(outputs_view(outputs@)),
{
    let mut sum: u128 = 0;
    let mut i: usize = 0;
    while i < outputs.len()
        invariant
            i <= outputs.len(),
            sum == output_total(outputs_view(outputs@).take(i as int)),
            sum <= i * 0xFFFF_FFFF_FFFF_FFFF,
        decreases outputs.len() - i,
    {
        proof {
            lemma_output_total_take(outputs_view(outputs@), i as int);
            assert((i + 1) * 0xFFFF_FFFF_FFFF_FFFF <= 0xFFFF_FFFF_FFFF_FFFF * 0xFFFF_FFFF_FFFF_FFFF
                && (i + 1) * 0xFFFF_FFFF_FFFF_FFFF == i * 0xFFFF_FFFF_FFFF_FFFF
                + 0xFFFF_FFFF_FFFF_FFFF) by (nonlinear_arith)
                requires
                    0 <= i < 0xFFFF_FFFF_FFFF_FFFF,
            ;
        }
        sum = sum + outputs[i].value as u128;
        i += 1;
    }
    assert(outputs_view(outputs@).take(outputs.len() as int) == outputs_view(outputs@));
    sum
}

/// What `tx` leaves, by the amounts that `utxos` holds for what it spends.
pub fn calculate_fee(tx: &Transaction, utxos: &UtxoSet) -> (r: Result<u64, Error>)
    ensures
        r == actual_fee_of(tx@, utxos.amounts()),
{
    let ghost known = utxos.amounts();
    let mut spent: u128 = 0;
    let mut i: usize = 0;
    while i < tx.input.len()
        invariant
            i <= tx.input.len(),
            known == utxos.amounts(),
            spent == input_total(tx@.input.take(i as int), known),
            spent <= i * 0xFFFF_FFFF_FFFF_FFFF,
            forall|j: int| 0 <= j < i ==> known.contains_key(#[trigger] tx@.input[j].previous_output),
        decreases tx.input.len() - i,
    {
        proof {
            lemma_input_total_take(tx@.input, known, i as int);
            assert((i + 1) * 0xFFFF_FFFF_FFFF_FFFF <= 0xFFFF_FFFF_FFFF_FFFF * 0xFFFF_FFFF_FFFF_FFFF
                && (i + 1) * 0xFFFF_FFFF_FFFF_FFFF == i * 0xFFFF_FFFF_FFFF_FFFF
                + 0xFFFF_FFFF_FFFF_FFFF) by (nonlinear_arith)
                requires
                    0 <= i < 0xFFFF_FFFF_FFFF_FFFF,
            ;
            assert(tx@.input[i as int].previous_output == tx.input@[i as int].previous_output);
        }
        match utxos.get(&tx.input[i].previous_output) {
            Some(amount) => {
                spent = spent + amount as u128;
            },
            None => {
                assert(!known.contains_key(tx@.input[i as int].previous_output));
                return Err(Error::DanglingInput);
            },
        }
        i += 1;
    }
    assert(tx@.input.take(tx.input.len() as int) == tx@.input);
    let paid = sum_outputs(&tx.output);
    if spent < paid {
        Err(Error::NegativeFee)
    } else if spent - paid > u64::MAX as u128 {
        Err(Error::FeeOverflow)
    } else {
        Ok((spent - paid) as u64)
    }
}

/// What the commit and its reveals leave together. The amounts of `utxos`
/// measure the commit; each reveal is measured once the mint output that it
/// spends is known, with the value that the commit gives it.
pub fn total_fees(commit: &Transaction, reveals: &Vec<Transaction>, utxos: &UtxoSet) -> (r: Result<
    u64,
    Error,
>)
    ensures
        r == total_fees_of(commit@, crate::chain::transactions_view(reveals@), utxos.amounts()),
{
    let first = calculate_fee(commit, utxos)?;
    let ghost views = crate::chain::transactions_view(reveals@);
    let ghost start = utxos.amounts();
    let mut known = utxos.duplicate();
    let mut fees: u128 = 0;
    let mut i: usize = 0;
    assert(views.skip(0) == views);
    while i < reveals.len()
        invariant
            i <= reveals.len(),
            views == crate::chain::transactions_view(reveals@),
            start == utxos.amounts(),
            actual_fee_of(commit@, start) == Ok::<u64, Error>(first),
            fees <= i * 0xFFFF_FFFF_FFFF_FFFF,
            reveal_fees_of(commit@, views, start) == match reveal_fees_of(
                commit@,
                views.skip(i as int),
                known.amounts(),
            ) {
                Ok(rest) => Ok::<int, Error>(fees + rest),
                Err(e) => Err::<int, Error>(e),
            },
        decreases reveals.len() - i,
    {
        let reveal = &reveals[i];
        proof {
            assert(views.skip(i as int).first() == reveal@);
            assert(views.skip(i as int).drop_first() == views.skip(i + 1));
            assert(reveal@.input.len() == reveal.input@.len());
            assert(commit@.output.len() == commit.output@.len());
            assert((i + 1) * 0xFFFF_FFFF_FFFF_FFFF <= 0xFFFF_FFFF_FFFF_FFFF * 0xFFFF_FFFF_FFFF_FFFF
                && (i + 1) * 0xFFFF_FFFF_FFFF_FFFF == i * 0xFFFF_FFFF_FFFF_FFFF
                + 0xFFFF_FFFF_FFFF_FFFF) by (nonlinear_arith)
                requires
                    0 <= i < 0xFFFF_FFFF_FFFF_FFFF,
            ;
        }
        if reveal.input.len() == 0 {
            assert(reveal_fees_of(commit@, views.skip(i as int), known.amounts()) == Err::<
                int,
                Error,
            >(Error::DanglingInput));
            return Err(Error::DanglingInput);
        }
        let spent = reveal.input[0].previous_output;
        assert(reveal@.input[0].previous_output == spent);
        if spent.vout as usize >= commit.output.len() {
            assert(reveal_fees_of(commit@, views.skip(i as int), known.amounts()) == Err::<
                int,
                Error,
            >(Error::DanglingInput));
            return Err(Error::DanglingInput);
        }
        assert(commit@.output[spent.vout as int].value == commit.output@[spent.vout as int].value);
        known.insert(spent, commit.output[spent.vout as usize].value);
        let fee = calculate_fee(reveal, &known)?;
        fees = fees + fee as u128;
        i += 1;
    }
    assert(views.skip(reveals.len() as int).len() == 0);
    let sum: u128 = first as u128 + fees;
    if sum > u64::MAX as u128 {
        Err(Error::FeeOverflow)
    } else {
        Ok(sum as u64)
    }
}

} // verus!
