//! The batch mint command: keys are drawn, the batch is planned, every
//! reveal is signed, the fees are summed up, and the batch is lined up for
//! its broadcast.

use crate::accounting::{
    actual_fee_of, fee_sum, lemma_fee_sum_nonnegative, lemma_single_spend_fees, lemma_spends_all,
    total_fees, total_fees_of,
};
use crate::broadcast::{Broadcast, Phase, Settings, REVEAL_PAUSE_MILLIS};
use crate::chain::{transactions_view, OutPoint, Transaction, TransactionView};
use crate::consensus::{weight_of, MAX_STANDARD_TX_WEIGHT};
use crate::error::Error;
use crate::fee::FeeRate;
use crate::inscription::{Inscription, InscriptionView};
use crate::keys::{secret_key_valid, Network, SecretKey};
use crate::mint::{
    key_views, lemma_mint_outputs_carry_mint_amount, lemma_plan_balances, lemma_plan_shape,
    mint_plan_of, plan_matches, plan_mint, MintPlan, MintPlanView,
};
use crate::reveal_tx::{
    lemma_signed_reveal_witness, sign_reveal, signed_reveal_of, transaction_matches,
    UnsignedRevealView, SCHNORR_SIGNATURE_SIZE,
};
use crate::utxo::{amounts_of, ascending, cardinal, Utxo, UtxoSet};
use vstd::prelude::*;

verus! {

/// Whether reveal `i` is the reveal of the plan with a signature of 64 bytes
/// in its witness, within the weight limit where the limit applies.
pub open spec fn signs(plan: MintPlanView, reveals: Seq<TransactionView>, no_limit: bool, i: int) -> bool {
    let signature = reveals[i].input[0].witness[0];
    &&& signature.len() == SCHNORR_SIGNATURE_SIZE
    &&& signed_reveal_of(plan.reveals[i].tx, signature, plan.slots[i].parts, no_limit) == Ok::<
        TransactionView,
        Error,
    >(reveals[i])
}

/// Whether the commit, the signed reveals and the recovery keys are those of
/// the plan.
pub open spec fn carries_out(
    plan: MintPlanView,
    commit: TransactionView,
    reveals: Seq<TransactionView>,
    recovery_keys: Seq<Seq<u8>>,
    no_limit: bool,
) -> bool {
    &&& commit == plan.commit.tx
    &&& reveals.len() == plan.slots.len()
    &&& recovery_keys.len() == plan.slots.len()
    &&& forall|i: int| 0 <= i < plan.slots.len() ==> #[trigger] signs(plan, reveals, no_limit, i)
    &&& forall|i: int|
        0 <= i < plan.slots.len() ==> #[trigger] recovery_keys[i] == plan.slots[i].recovery_key
}

/// Whether signing the plan can end with the error `e`: some signature of 64
/// bytes makes the reveal of some slot fail with it.
pub open spec fn fails_to_sign(plan: MintPlanView, no_limit: bool, e: Error) -> bool {
    exists|i: int, signature: Seq<u8>|
        0 <= i < plan.slots.len() && signature.len() == SCHNORR_SIGNATURE_SIZE
            && #[trigger] signed_reveal_of(
            plan.reveals[i].tx,
            signature,
            plan.slots[i].parts,
            no_limit,
        ) == Err::<TransactionView, Error>(e)
}

/// Whether `r` is an outcome of signing what `planned` holds: the error of
/// the plan where it has one; else the plan carried out, or the error with
/// which a reveal fails under the signature that was drawn for it.
pub open spec fn outcome_of(
    r: Result<(Transaction, Vec<Transaction>, Vec<SecretKey>), Error>,
    planned: Result<MintPlanView, Error>,
    no_limit: bool,
) -> bool {
    match planned {
        Err(e) => r is Err && r->Err_0 == e,
        Ok(plan) => match r {
            Ok(made) => carries_out(
                plan,
                made.0@,
                transactions_view(made.1@),
                key_views(made.2@),
                no_limit,
            ),
            Err(e) => fails_to_sign(plan, no_limit, e),
        },
    }
}

/// A reveal fails to be signed only for its weight, and only where the limit
/// applies.
pub proof fn lemma_fails_to_sign(plan: MintPlanView, no_limit: bool, e: Error)
    requires
        fails_to_sign(plan, no_limit, e),
    ensures
        e == Error::NonStandardWeight,
        !no_limit,
{
}

/// Of a plan carried out: the witness of every reveal holds three items, a
/// signature of 64 bytes, the leaf script of its slot and the control block
/// of its slot; where the limit applies every reveal is within it; and every
/// reveal pays out the mint amount less its fee.
pub proof fn lemma_signed_reveals(
    plan: MintPlanView,
    commit: TransactionView,
    reveals: Seq<TransactionView>,
    recovery_keys: Seq<Seq<u8>>,
    no_limit: bool,
)
    requires
        carries_out(plan, commit, reveals, recovery_keys, no_limit),
        plan.reveals.len() == plan.slots.len(),
        forall|i: int| 0 <= i < plan.reveals.len() ==> (#[trigger] plan.reveals[i]).tx.input.len() == 1,
    ensures
        forall|i: int|
            0 <= i < reveals.len() ==> {
                let witness = (#[trigger] reveals[i]).input[0].witness;
                &&& witness.len() == 3
                &&& witness[0].len() == SCHNORR_SIGNATURE_SIZE
                &&& witness[1] == plan.slots[i].parts.reveal_script
                &&& witness[2] == plan.slots[i].parts.spend_info.control_block
                &&& reveals[i].output == plan.reveals[i].tx.output
                &&& !no_limit ==> weight_of(reveals[i]) <= MAX_STANDARD_TX_WEIGHT
            },
{
    assert forall|i: int| 0 <= i < reveals.len() implies {
        let witness = (#[trigger] reveals[i]).input[0].witness;
        &&& witness.len() == 3
        &&& witness[0].len() == SCHNORR_SIGNATURE_SIZE
        &&& witness[1] == plan.slots[i].parts.reveal_script
        &&& witness[2] == plan.slots[i].parts.spend_info.control_block
        &&& reveals[i].output == plan.reveals[i].tx.output
        &&& !no_limit ==> weight_of(reveals[i]) <= MAX_STANDARD_TX_WEIGHT
    } by {
        assert(signs(plan, reveals, no_limit, i));
        lemma_signed_reveal_witness(
            plan.reveals[i].tx,
            reveals[i].input[0].witness[0],
            plan.slots[i].parts,
            no_limit,
        );
    }
}

/// Signs every reveal of a plan and copies the recovery keys out.
fn sign_plan(plan: &MintPlan, no_limit: bool) -> (r: Result<
    (Vec<Transaction>, Vec<SecretKey>),
    Error,
>)
    requires
        plan.reveals@.len() == plan.slots@.len(),
        forall|i: int| 0 <= i < plan.reveals@.len() ==> (#[trigger] plan.reveals@[i]).tx@.input.len() == 1,
    ensures
        match r {
            Ok(made) => {
                &&& made.0@.len() == plan.slots@.len()
                &&& made.1@.len() == plan.slots@.len()
                &&& forall|i: int|
                    0 <= i < plan.slots@.len() ==> #[trigger] signs(
                        plan@,
                        transactions_view(made.0@),
                        no_limit,
                        i,
                    )
                &&& forall|i: int|
                    0 <= i < plan.slots@.len() ==> (#[trigger] made.1@[i])@
                        == plan.slots@[i].recovery_key@
            },
            Err(e) => fails_to_sign(plan@, no_limit, e),
        },
{
    let mut reveals: Vec<Transaction> = Vec::new();
    let mut recovery_keys: Vec<SecretKey> = Vec::new();
    let mut i: usize = 0;
    while i < plan.slots.len()
        invariant
            i <= plan.slots@.len(),
            plan.reveals@.len() == plan.slots@.len(),
            forall|j: int|
                0 <= j < plan.reveals@.len() ==> (#[trigger] plan.reveals@[j]).tx@.input.len() == 1,
            reveals@.len() == i,
            recovery_keys@.len() == i,
            forall|j: int|
                0 <= j < i ==> #[trigger] signs(plan@, transactions_view(reveals@), no_limit, j),
            forall|j: int|
                0 <= j < i ==> (#[trigger] recovery_keys@[j])@ == plan.slots@[j].recovery_key@,
        decreases plan.slots@.len() - i,
    {
        let ghost before = transactions_view(reveals@);
        let unsigned = &plan.reveals[i];
        let slot = &plan.slots[i];
        let attempt = sign_reveal(unsigned, slot, no_limit);
        let ghost signature = choose|signature: Seq<u8>|
            signature.len() == SCHNORR_SIGNATURE_SIZE && transaction_matches(
                attempt,
                #[trigger] signed_reveal_of(unsigned.tx@, signature, slot@.parts, no_limit),
            );
        assert(plan@.reveals[i as int] == unsigned@);
        assert(plan@.slots[i as int] == slot@);
        let signed = match attempt {
            Ok(signed) => signed,
            Err(e) => {
                assert(signed_reveal_of(
                    plan@.reveals[i as int].tx,
                    signature,
                    plan@.slots[i as int].parts,
                    no_limit,
                ) == Err::<TransactionView, Error>(e));
                return Err(e);
            },
        };
        assert(signed@.input[0].witness[0] == signature);
        reveals.push(signed);
        recovery_keys.push(slot.recovery_key.duplicate());
        proof {
            let after = transactions_view(reveals@);
            assert(after[i as int] == signed@);
            assert forall|j: int| 0 <= j < i + 1 implies #[trigger] signs(
                plan@,
                after,
                no_limit,
                j,
            ) by {
                if j < i {
                    assert(signs(plan@, before, no_limit, j));
                    assert(after[j] == before[j]);
                }
            }
        }
        i += 1;
    }
    Ok((reveals, recovery_keys))
}

/// The batch mint command: what it was asked for.
#[derive(Clone, Copy, Debug, PartialEq, Eq)]
pub struct Inscribes {
    /// The fee rate of the reveals.
    pub fee_rate: FeeRate,
    /// The fee rate of the commit, where it differs.
    pub commit_fee_rate: Option<FeeRate>,
    /// Do not import the recovery keys into the wallet.
    pub no_backup: bool,
    /// Do not hold the reveals to the standard weight.
    pub no_limit: bool,
    /// Plan and sign, but send nothing.
    pub dry_run: bool,
    /// The number of mints.
    pub mint_size: u64,
    /// Spend outputs that are not confirmed yet.
    pub un_safe: Option<bool>,
    /// The pause after every batch of reveals, in milliseconds.
    pub sleep_millis: Option<u64>,
    /// Send the commit and keep the reveals back.
    pub only_commit: Option<bool>,
}

/// The fees of a plan: that of its commit and those of its reveals.
pub open spec fn planned_fees(plan: MintPlanView) -> int {
    plan.commit.fee + fee_sum(plan.reveals.map_values(|reveal: UnsignedRevealView| reveal.fee))
}

/// What a plan carried out leaves, measured by the amounts of the outputs
/// that it was planned on, is the fees of the plan: measuring finds no
/// dangling input and no negative fee, and fails only where the sum does not
/// fit in 64 bits.
pub proof fn lemma_plan_fees(
    inscription: InscriptionView,
    entries: Seq<Utxo>,
    destination: Seq<u8>,
    change_script: Seq<u8>,
    commit_fee_rate: FeeRate,
    reveal_fee_rate: FeeRate,
    probe: Seq<u8>,
    keys: Seq<Seq<u8>>,
    commit: TransactionView,
    reveals: Seq<TransactionView>,
    recovery_keys: Seq<Seq<u8>>,
    no_limit: bool,
)
    requires
        ascending(entries),
        keys.len() <= u32::MAX,
        mint_plan_of(
            inscription,
            entries,
            destination,
            change_script,
            commit_fee_rate,
            reveal_fee_rate,
            probe,
            keys,
        ) is Ok,
        carries_out(
            mint_plan_of(
                inscription,
                entries,
                destination,
                change_script,
                commit_fee_rate,
                reveal_fee_rate,
                probe,
                keys,
            )->Ok_0,
            commit,
            reveals,
            recovery_keys,
            no_limit,
        ),
    ensures
        ({
            let plan = mint_plan_of(
                inscription,
                entries,
                destination,
                change_script,
                commit_fee_rate,
                reveal_fee_rate,
                probe,
                keys,
            )->Ok_0;
            &&& 0 <= planned_fees(plan)
            &&& total_fees_of(commit, reveals, amounts_of(entries)) == if planned_fees(plan)
                > u64::MAX {
                Err::<u64, Error>(Error::FeeOverflow)
            } else {
                Ok::<u64, Error>(planned_fees(plan) as u64)
            }
        }),
{
    let plan = mint_plan_of(
        inscription,
        entries,
        destination,
        change_script,
        commit_fee_rate,
        reveal_fee_rate,
        probe,
        keys,
    )->Ok_0;
    lemma_plan_shape(
        inscription,
        entries,
        destination,
        change_script,
        commit_fee_rate,
        reveal_fee_rate,
        probe,
        keys,
    );
    lemma_plan_balances(
        inscription,
        entries,
        destination,
        change_script,
        commit_fee_rate,
        reveal_fee_rate,
        probe,
        keys,
    );
    lemma_mint_outputs_carry_mint_amount(
        inscription,
        entries,
        destination,
        change_script,
        commit_fee_rate,
        reveal_fee_rate,
        probe,
        keys,
    );
    lemma_signed_reveals(plan, commit, reveals, recovery_keys, no_limit);
    lemma_spends_all(commit.input, entries);
    let fees = plan.reveals.map_values(|reveal: UnsignedRevealView| reveal.fee);
    let known = amounts_of(entries);
    assert forall|i: int| 0 <= i < reveals.len() implies {
        let reveal = #[trigger] reveals[i];
        &&& reveal.input.len() == 1
        &&& reveal.output.len() == 1
        &&& reveal.input[0].previous_output.vout < commit.output.len()
        &&& commit.output[reveal.input[0].previous_output.vout as int].value
            == reveal.output[0].value + fees[i]
    } by {
        assert(signs(plan, reveals, no_limit, i));
        assert(plan.reveals[i].tx.input.len() == 1);
        assert(plan.reveals[i].tx.input[0].previous_output.vout == i);
        assert(commit.output[i].value == plan.mint_amount);
    }
    lemma_single_spend_fees(commit, reveals, fees, known);
    lemma_fee_sum_nonnegative(fees);
    assert(actual_fee_of(commit, known) == Ok::<u64, Error>(plan.commit.fee));
}

/// Whether `r` is a way in which a run on `planned` can end: with the error
/// of the plan; else with a broadcast that waits to begin and holds the plan
/// carried out and its fees; else with the error with which a reveal fails
/// under the signature that was drawn for it, or with `FeeOverflow` where
/// the fees do not fit in 64 bits.
pub open spec fn run_outcome_of(
    r: Result<Broadcast, Error>,
    planned: Result<MintPlanView, Error>,
    known: Map<OutPoint, u64>,
    settings: Settings,
    no_limit: bool,
) -> bool {
    match planned {
        Err(e) => r is Err && r->Err_0 == e,
        Ok(plan) => match r {
            Ok(broadcast) => {
                &&& broadcast.wf()
                &&& broadcast.phase == Phase::Start
                &&& broadcast.settings == settings
                &&& carries_out(
                    plan,
                    broadcast.commit@,
                    transactions_view(broadcast.reveals@),
                    key_views(broadcast.recovery_keys@),
                    no_limit,
                )
                &&& total_fees_of(
                    broadcast.commit@,
                    transactions_view(broadcast.reveals@),
                    known,
                ) == Ok::<u64, Error>(broadcast.fees)
                &&& broadcast.fees == planned_fees(plan)
            },
            Err(e) => fails_to_sign(plan, no_limit, e) || (e == Error::FeeOverflow
                && planned_fees(plan) > u64::MAX),
        },
    }
}

impl Inscribes {
    /// Whether the outputs that wait for confirmation are spent too.
    pub open spec fn spec_use_pending(&self) -> bool {
        self.un_safe == Some(true)
    }

    /// Whether the outputs that wait for confirmation are spent too.
    #[verifier::when_used_as_spec(spec_use_pending)]
    pub fn use_pending(&self) -> (r: bool)
        ensures
            r == self.spec_use_pending(),
    {
        match self.un_safe {
            Some(un_safe) => un_safe,
            None => false,
        }
    }

    /// How the batch is to be broadcast: the flags as they were given, a
    /// pause of 1200 milliseconds after every batch unless another was asked
    /// for, and the reveals sent unless only the commit was asked for.
    pub open spec fn spec_settings(&self, network: Network) -> Settings {
        Settings {
            no_backup: self.no_backup,
            only_commit: self.only_commit == Some(true),
            dry_run: self.dry_run,
            batch_pause_millis: match self.sleep_millis {
                Some(millis) => millis,
                None => REVEAL_PAUSE_MILLIS,
            },
            network,
        }
    }

    /// How the batch is to be broadcast.
    #[verifier::when_used_as_spec(spec_settings)]
    pub fn settings(&self, network: Network) -> (settings: Settings)
        ensures
            settings == self.spec_settings(network),
    {
        Settings {
            no_backup: self.no_backup,
            only_commit: match self.only_commit {
                Some(only_commit) => only_commit,
                None => false,
            },
            dry_run: self.dry_run,
            batch_pause_millis: match self.sleep_millis {
                Some(millis) => millis,
                None => REVEAL_PAUSE_MILLIS,
            },
            network,
        }
    }

    /// The fee rate of the commit: its own where one was given, else that of
    /// the reveals.
    pub open spec fn spec_effective_commit_fee_rate(&self) -> FeeRate {
        match self.commit_fee_rate {
            Some(rate) => rate,
            None => self.fee_rate,
        }
    }

    /// The fee rate of the commit.
    #[verifier::when_used_as_spec(spec_effective_commit_fee_rate)]
    pub fn effective_commit_fee_rate(&self) -> (rate: FeeRate)
        ensures
            rate == self.spec_effective_commit_fee_rate(),
    {
        match self.commit_fee_rate {
            Some(rate) => rate,
            None => self.fee_rate,
        }
    }

    /// Prepares the batch: takes the inscribed outputs out of `utxos`, plans
    /// and signs the transactions on what is left, and sums up their fees.
    /// `NoCardinalUtxos` where nothing is left. The result waits to begin its
    /// broadcast; the caller performs the actions that `Broadcast::step` asks
    /// for.
    pub fn run(
        &self,
        inscription: &Inscription,
        utxos: &UtxoSet,
        inscribed: &Vec<OutPoint>,
        destination: &Vec<u8>,
        change_address: &Vec<u8>,
        network: Network,
    ) -> (r: Result<Broadcast, Error>)
        requires
            inscription.wf(),
            self.mint_size <= u32::MAX,
        ensures
            cardinal(utxos@, inscribed@.to_set()).len() == 0 ==> r is Err && r->Err_0
                == Error::NoCardinalUtxos,
            cardinal(utxos@, inscribed@.to_set()).len() > 0 ==> exists|
                probe: Seq<u8>,
                keys: Seq<Seq<u8>>,
            |
                {
                    &&& secret_key_valid(probe)
                    &&& keys.len() == self.mint_size
                    &&& forall|i: int| 0 <= i < keys.len() ==> secret_key_valid(#[trigger] keys[i])
                    &&& run_outcome_of(
                        r,
                        #[trigger] mint_plan_of(
                            inscription@,
                            cardinal(utxos@, inscribed@.to_set()),
                            destination@,
                            change_address@,
                            self.spec_effective_commit_fee_rate(),
                            self.fee_rate,
                            probe,
                            keys,
                        ),
                        amounts_of(cardinal(utxos@, inscribed@.to_set())),
                        self.spec_settings(network),
                        self.no_limit,
                    )
                },
    {
        let spendable = utxos.filter(inscribed)?;
        let made = Self::create_inscription_transactions(
            inscription,
            &spendable,
            destination,
            self.mint_size,
            self.effective_commit_fee_rate(),
            self.fee_rate,
            self.no_limit,
            change_address,
        );
        let ghost (probe, keys) = choose|probe: Seq<u8>, keys: Seq<Seq<u8>>|
            {
                &&& secret_key_valid(probe)
                &&& keys.len() == self.mint_size
                &&& forall|i: int| 0 <= i < keys.len() ==> secret_key_valid(#[trigger] keys[i])
                &&& outcome_of(
                    made,
                    #[trigger] mint_plan_of(
                        inscription@,
                        spendable@,
                        destination@,
                        change_address@,
                        self.spec_effective_commit_fee_rate(),
                        self.fee_rate,
                        probe,
                        keys,
                    ),
                    self.no_limit,
                )
            };
        let ghost planned = mint_plan_of(
            inscription@,
            spendable@,
            destination@,
            change_address@,
            self.spec_effective_commit_fee_rate(),
            self.fee_rate,
            probe,
            keys,
        );
        let r = match made {
            Err(e) => Err(e),
            Ok((commit, reveals, recovery_keys)) => {
                spendable.order();
                proof {
                    lemma_plan_fees(
                        inscription@,
                        spendable@,
                        destination@,
                        change_address@,
                        self.spec_effective_commit_fee_rate(),
                        self.fee_rate,
                        probe,
                        keys,
                        commit@,
                        transactions_view(reveals@),
                        key_views(recovery_keys@),
                        self.no_limit,
                    );
                    assert(transactions_view(reveals@).len() == reveals@.len());
                    assert(key_views(recovery_keys@).len() == recovery_keys@.len());
                }
                match total_fees(&commit, &reveals, &spendable) {
                    Err(e) => Err(e),
                    Ok(fees) => Ok(
                        Broadcast::new(self.settings(network), commit, reveals, recovery_keys, fees),
                    ),
                }
            },
        };
        assert(run_outcome_of(
            r,
            planned,
            amounts_of(spendable@),
            self.spec_settings(network),
            self.no_limit,
        ));
        r
    }

    /// Plans and signs a batch of `mint_size` mints of `inscription`: the
    /// commit transaction spends all of `utxos`, and each reveal pays to
    /// `destination`. The keys and the signatures are drawn afresh, so two
    /// calls differ; whatever was drawn, the result is an outcome of the
    /// plan for the keys drawn.
    pub fn create_inscription_transactions(
        inscription: &Inscription,
        utxos: &UtxoSet,
        destination: &Vec<u8>,
        mint_size: u64,
        commit_fee_rate: FeeRate,
        reveal_fee_rate: FeeRate,
        no_limit: bool,
        change_address: &Vec<u8>,
    ) -> (r: Result<(Transaction, Vec<Transaction>, Vec<SecretKey>), Error>)
        requires
            inscription.wf(),
            mint_size <= u32::MAX,
        ensures
            exists|probe: Seq<u8>, keys: Seq<Seq<u8>>|
                {
                    &&& secret_key_valid(probe)
                    &&& keys.len() == mint_size
                    &&& forall|i: int| 0 <= i < keys.len() ==> secret_key_valid(#[trigger] keys[i])
                    &&& outcome_of(
                        r,
                        #[trigger] mint_plan_of(
                            inscription@,
                            utxos@,
                            destination@,
                            change_address@,
                            commit_fee_rate,
                            reveal_fee_rate,
                            probe,
                            keys,
                        ),
                        no_limit,
                    )
                },
    {
        let probe = SecretKey::generate();
        let mut keys: Vec<SecretKey> = Vec::new();
        while (keys.len() as u64) < mint_size
            invariant
                keys@.len() <= mint_size <= u32::MAX,
                forall|i: int|
                    0 <= i < keys@.len() ==> secret_key_valid(#[trigger] key_views(keys@)[i]),
            decreases mint_size - keys@.len(),
        {
            let ghost before = key_views(keys@);
            keys.push(SecretKey::generate());
            assert forall|i: int| 0 <= i < keys@.len() implies secret_key_valid(
                #[trigger] key_views(keys@)[i],
            ) by {
                if i < before.len() {
                    assert(key_views(keys@)[i] == before[i]);
                }
            }
        }
        let ghost planned = mint_plan_of(
            inscription@,
            utxos@,
            destination@,
            change_address@,
            commit_fee_rate,
            reveal_fee_rate,
            probe@,
            key_views(keys@),
        );
        proof {
            if planned is Ok {
                lemma_plan_shape(
                    inscription@,
                    utxos@,
                    destination@,
                    change_address@,
                    commit_fee_rate,
                    reveal_fee_rate,
                    probe@,
                    key_views(keys@),
                );
            }
        }
        let r = Self::sign_planned(
            plan_mint(
                inscription,
                utxos,
                destination,
                change_address,
                commit_fee_rate,
                reveal_fee_rate,
                &probe,
                &keys,
            ),
            no_limit,
            Ghost(planned),
        );
        assert(key_views(keys@).len() == mint_size);
        assert(outcome_of(r, planned, no_limit));
        r
    }

    /// Signs what was planned, or hands the plan's error on.
    fn sign_planned(
        planned: Result<MintPlan, Error>,
        no_limit: bool,
        Ghost(expected): Ghost<Result<MintPlanView, Error>>,
    ) -> (r: Result<(Transaction, Vec<Transaction>, Vec<SecretKey>), Error>)
        requires
            plan_matches(planned, expected),
            expected is Ok ==> {
                &&& expected->Ok_0.reveals.len() == expected->Ok_0.slots.len()
                &&& forall|i: int|
                    0 <= i < expected->Ok_0.reveals.len() ==> (
                    #[trigger] expected->Ok_0.reveals[i]).tx.input.len() == 1
            },
        ensures
            outcome_of(r, expected, no_limit),
    {
        let plan = planned?;
        assert forall|i: int| 0 <= i < plan.reveals@.len() implies (
        #[trigger] plan.reveals@[i]).tx@.input.len() == 1 by {
            assert(plan@.reveals[i] == plan.reveals@[i]@);
        }
        assert(plan@.reveals.len() == plan.reveals@.len());
        assert(plan@.slots.len() == plan.slots@.len());
        let (reveals, recovery_keys) = sign_plan(&plan, no_limit)?;
        assert forall|i: int| 0 <= i < plan@.slots.len() implies #[trigger] key_views(
            recovery_keys@,
        )[i] == plan@.slots[i].recovery_key by {
            assert(plan@.slots[i] == plan.slots@[i]@);
        }
        Ok((plan.commit.tx, reveals, recovery_keys))
    }
}

} // verus!
