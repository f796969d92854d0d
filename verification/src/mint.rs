//! The plan of a batch: the slots, the commit transaction that funds them,
//! and each slot's reveal up to its signature. Given the keys, everything in
//! it is determined.

use crate::chain::{output_total, OutPoint, Transaction, TransactionView, TxOutView};
use crate::commit::{
    build_commit_transaction, commit_of, lemma_commit_balances, mint_amount, mint_amount_of,
    Commit, CommitView, TARGET_POSTAGE,
};
use crate::consensus::txid_of;
use crate::error::Error;
use crate::fee::FeeRate;
use crate::inscription::{Inscription, InscriptionView};
use crate::keys::{tap_tweaked_secret_of, x_only_public_key_of, SecretKey};
use crate::reveal_tx::{
    estimated_reveal_fee, prepare_reveal, unsigned_reveal_of, UnsignedReveal, UnsignedRevealView,
};
use crate::script::p2tr_script;
use crate::slot::{
    reveal_parts_of, slot_of, slots_view, MintSlot, MintSlotView, RevealParts,
};
use crate::utxo::{total_of, Utxo, UtxoSet};
use vstd::prelude::*;

verus! {

/// The plan of a batch.
pub struct MintPlan {
    /// What each mint output carries.
    pub mint_amount: u64,
    pub slots: Vec<MintSlot>,
    pub commit: Commit,
    /// The reveal of each slot, in the order of the slots.
    pub reveals: Vec<UnsignedReveal>,
}

pub struct MintPlanView {
    pub mint_amount: u64,
    pub slots: Seq<MintSlotView>,
    pub commit: CommitView,
    pub reveals: Seq<UnsignedRevealView>,
}

impl View for MintPlan {
    type V = MintPlanView;

    open spec fn view(&self) -> MintPlanView {
        MintPlanView {
            mint_amount: self.mint_amount,
            slots: slots_view(self.slots@),
            commit: self.commit@,
            reveals: reveals_view(self.reveals@),
        }
    }
}

/// The bytes of a row of keys.
pub open spec fn key_views(keys: Seq<SecretKey>) -> Seq<Seq<u8>> {
    keys.map_values(|key: SecretKey| key@)
}

/// The views of a row of unsigned reveals.
pub open spec fn reveals_view(reveals: Seq<UnsignedReveal>) -> Seq<UnsignedRevealView> {
    reveals.map_values(|reveal: UnsignedReveal| reveal@)
}

/// The slots of `keys`, or `RecoveryKeyMismatch` where the recovery key of
/// one of them would not spend its output.
pub open spec fn slots_of(keys: Seq<Seq<u8>>, inscription: InscriptionView) -> Result<
    Seq<MintSlotView>,
    Error,
> {
    if forall|i: int| 0 <= i < keys.len() ==> (#[trigger] slot_of(keys[i], inscription)).recoverable() {
        Ok(Seq::new(keys.len(), |i: int| slot_of(keys[i], inscription)))
    } else {
        Err(Error::RecoveryKeyMismatch)
    }
}

/// The unsigned reveals of the first `count` slots, each spending the output
/// of `commit` at its slot's index, or the error of the first that fails.
pub open spec fn unsigned_reveals_of(
    commit: TransactionView,
    slots: Seq<MintSlotView>,
    destination: Seq<u8>,
    fee_rate: FeeRate,
    count: nat,
) -> Result<Seq<UnsignedRevealView>, Error>
    decreases count,
{
    if count == 0 {
        Ok(Seq::<UnsignedRevealView>::empty())
    } else {
        match unsigned_reveals_of(commit, slots, destination, fee_rate, (count - 1) as nat) {
            Err(e) => Err(e),
            Ok(before) => match unsigned_reveal_of(
                txid_of(commit),
                (count - 1) as u32,
                commit.output[count - 1],
                slots[count - 1].parts,
                destination,
                fee_rate,
            ) {
                Err(e) => Err(e),
                Ok(reveal) => Ok(before.push(reveal)),
            },
        }
    }
}

/// The plan of the batch with one slot for each of `keys`: the mint amount
/// is estimated on the slot of `probe`, then the slots are derived, the
/// commit is planned, and the reveals are prepared; the first step that
/// fails gives the error.
pub open spec fn mint_plan_of(
    inscription: InscriptionView,
    entries: Seq<Utxo>,
    destination: Seq<u8>,
    change_script: Seq<u8>,
    commit_fee_rate: FeeRate,
    reveal_fee_rate: FeeRate,
    probe: Seq<u8>,
    keys: Seq<Seq<u8>>,
) -> Result<MintPlanView, Error> {
    match mint_amount_of(reveal_parts_of(probe, inscription), destination, reveal_fee_rate) {
        Err(e) => Err(e),
        Ok(mint_amount) => match slots_of(keys, inscription) {
            Err(e) => Err(e),
            Ok(slots) => match commit_of(
                entries,
                slots,
                mint_amount,
                change_script,
                commit_fee_rate,
            ) {
                Err(e) => Err(e),
                Ok(commit) => match unsigned_reveals_of(
                    commit.tx,
                    slots,
                    destination,
                    reveal_fee_rate,
                    slots.len(),
                ) {
                    Err(e) => Err(e),
                    Ok(reveals) => Ok(MintPlanView { mint_amount, slots, commit, reveals }),
                },
            },
        },
    }
}

/// Whether `r` is the exec form of the spec result `expected`.
pub open spec fn plan_matches(r: Result<MintPlan, Error>, expected: Result<MintPlanView, Error>) -> bool {
    match expected {
        Ok(view) => r is Ok && r->Ok_0@ == view,
        Err(e) => r is Err && r->Err_0 == e,
    }
}

/// The slots of `keys` for `inscription`.
fn derive_slots(inscription: &Inscription, keys: &Vec<SecretKey>) -> (r: Result<
    Vec<MintSlot>,
    Error,
>)
    requires
        inscription.wf(),
    ensures
        match slots_of(key_views(keys@), inscription@) {
            Ok(slots) => r is Ok && slots_view(r->Ok_0@) == slots,
            Err(e) => r is Err && r->Err_0 == e,
        },
{
    let mut slots: Vec<MintSlot> = Vec::new();
    let mut i: usize = 0;
    while i < keys.len()
        invariant
            inscription.wf(),
            i <= keys@.len(),
            slots@.len() == i,
            forall|j: int|
                0 <= j < i ==> (#[trigger] slot_of(
                    key_views(keys@)[j],
                    inscription@,
                )).recoverable(),
            forall|j: int|
                0 <= j < i ==> (#[trigger] slots@[j])@ == slot_of(
                    key_views(keys@)[j],
                    inscription@,
                ),
        decreases keys@.len() - i,
    {
        match MintSlot::derive(inscription, keys[i].duplicate()) {
            Ok(slot) => {
                slots.push(slot);
            },
            Err(e) => {
                assert(!slot_of(key_views(keys@)[i as int], inscription@).recoverable());
                return Err(e);
            },
        }
        i += 1;
    }
    assert(slots_view(slots@) =~= Seq::new(
        keys@.len(),
        |i: int| slot_of(key_views(keys@)[i], inscription@),
    ));
    Ok(slots)
}

/// The reveals of `slots`, each up to its signature.
fn prepare_reveals(
    commit: &Transaction,
    slots: &Vec<MintSlot>,
    destination: &Vec<u8>,
    fee_rate: FeeRate,
) -> (r: Result<Vec<UnsignedReveal>, Error>)
    requires
        slots@.len() <= u32::MAX,
        slots@.len() <= commit.output@.len(),
    ensures
        match unsigned_reveals_of(
            commit@,
            slots_view(slots@),
            destination@,
            fee_rate,
            slots@.len(),
        ) {
            Ok(reveals) => r is Ok && reveals_view(r->Ok_0@) == reveals,
            Err(e) => r is Err && r->Err_0 == e,
        },
{
    let txid = commit.txid();
    let mut reveals: Vec<UnsignedReveal> = Vec::new();
    let mut i: usize = 0;
    assert(reveals_view(reveals@) =~= Seq::<UnsignedRevealView>::empty());
    while i < slots.len()
        invariant
            i <= slots@.len() <= u32::MAX,
            slots@.len() <= commit.output@.len(),
            txid == txid_of(commit@),
            unsigned_reveals_of(commit@, slots_view(slots@), destination@, fee_rate, i as nat)
                == Ok::<Seq<UnsignedRevealView>, Error>(reveals_view(reveals@)),
        decreases slots@.len() - i,
    {
        let ghost before = reveals_view(reveals@);
        match prepare_reveal(
            txid,
            i as u32,
            &commit.output[i],
            &slots[i].parts,
            destination,
            fee_rate,
        ) {
            Ok(reveal) => {
                reveals.push(reveal);
                assert(reveals_view(reveals@) =~= before.push(reveal@));
            },
            Err(e) => {
                proof {
                    lemma_reveals_stay_failed(
                        commit@,
                        slots_view(slots@),
                        destination@,
                        fee_rate,
                        (i + 1) as nat,
                        slots@.len() as nat,
                    );
                }
                return Err(e);
            },
        }
        i += 1;
    }
    Ok(reveals)
}

/// Once the reveals of the first slots have failed, more slots do not mend it.
proof fn lemma_reveals_stay_failed(
    commit: TransactionView,
    slots: Seq<MintSlotView>,
    destination: Seq<u8>,
    fee_rate: FeeRate,
    failed: nat,
    count: nat,
)
    requires
        failed <= count,
        unsigned_reveals_of(commit, slots, destination, fee_rate, failed) is Err,
    ensures
        unsigned_reveals_of(commit, slots, destination, fee_rate, count) == unsigned_reveals_of(
            commit,
            slots,
            destination,
            fee_rate,
            failed,
        ),
    decreases count,
{
    if failed < count {
        lemma_reveals_stay_failed(commit, slots, destination, fee_rate, failed, (count - 1) as nat);
    }
}

/// The reveals that were prepared are as many as were asked for, and each is
/// the reveal of its slot.
pub proof fn lemma_unsigned_reveals(
    commit: TransactionView,
    slots: Seq<MintSlotView>,
    destination: Seq<u8>,
    fee_rate: FeeRate,
    count: nat,
)
    requires
        unsigned_reveals_of(commit, slots, destination, fee_rate, count) is Ok,
    ensures
        ({
            let reveals = unsigned_reveals_of(commit, slots, destination, fee_rate, count)->Ok_0;
            &&& reveals.len() == count
            &&& forall|i: int|
                0 <= i < count ==> unsigned_reveal_of(
                    txid_of(commit),
                    i as u32,
                    commit.output[i],
                    slots[i].parts,
                    destination,
                    fee_rate,
                ) == Ok::<UnsignedRevealView, Error>(#[trigger] reveals[i])
        }),
    decreases count,
{
    if count > 0 {
        lemma_unsigned_reveals(commit, slots, destination, fee_rate, (count - 1) as nat);
    }
}

/// A plan has one slot, one mint output and one reveal for each key, and one
/// output more for the change; each reveal has the one input that spends the
/// mint output of its slot.
pub proof fn lemma_plan_shape(
    inscription: InscriptionView,
    entries: Seq<Utxo>,
    destination: Seq<u8>,
    change_script: Seq<u8>,
    commit_fee_rate: FeeRate,
    reveal_fee_rate: FeeRate,
    probe: Seq<u8>,
    keys: Seq<Seq<u8>>,
)
    requires
        mint_plan_of(
            inscription,
            entries,
            destination,
            change_script,
            commit_fee_rate,
            reveal_fee_rate,
            probe,
            keys,
        ) is Ok,
    ensures
        ({
            let plan = mint_plan_of(
                inscription,
                entries,
                destination,
                change_script,
                commit_fee_rate,
                reveal_fee_rate,
                probe,
                keys,
            )->Ok_0;
            &&& plan.slots.len() == keys.len()
            &&& plan.reveals.len() == keys.len()
            &&& plan.commit.tx.output.len() == keys.len() + 1
            &&& plan.commit.tx.output.last().script_pubkey == change_script
            &&& forall|i: int|
                0 <= i < keys.len() ==> {
                    &&& (#[trigger] plan.reveals[i]).tx.input.len() == 1
                    &&& plan.reveals[i].tx.input[0].previous_output == (OutPoint {
                        txid: txid_of(plan.commit.tx),
                        vout: i as u32,
                    })
                    &&& plan.reveals[i].tx.output.len() == 1
                    &&& plan.reveals[i].tx.output[0].script_pubkey == destination
                }
        }),
{
    let plan = mint_plan_of(
        inscription,
        entries,
        destination,
        change_script,
        commit_fee_rate,
        reveal_fee_rate,
        probe,
        keys,
    )->Ok_0;
    lemma_commit_balances(entries, plan.slots, plan.mint_amount, change_script, commit_fee_rate);
    lemma_unsigned_reveals(plan.commit.tx, plan.slots, destination, reveal_fee_rate, plan.slots.len());
}

/// Every mint output of a plan carries the mint amount, and the mint amount
/// is the estimated fee of a reveal and the postage.
pub proof fn lemma_mint_outputs_carry_mint_amount(
    inscription: InscriptionView,
    entries: Seq<Utxo>,
    destination: Seq<u8>,
    change_script: Seq<u8>,
    commit_fee_rate: FeeRate,
    reveal_fee_rate: FeeRate,
    probe: Seq<u8>,
    keys: Seq<Seq<u8>>,
)
    requires
        mint_plan_of(
            inscription,
            entries,
            destination,
            change_script,
            commit_fee_rate,
            reveal_fee_rate,
            probe,
            keys,
        ) is Ok,
    ensures
        ({
            let plan = mint_plan_of(
                inscription,
                entries,
                destination,
                change_script,
                commit_fee_rate,
                reveal_fee_rate,
                probe,
                keys,
            )->Ok_0;
            let parts = reveal_parts_of(probe, inscription);
            &&& plan.mint_amount == estimated_reveal_fee(
                parts.spend_info.control_block,
                reveal_fee_rate,
                OutPoint::spec_null(),
                TxOutView { value: 0, script_pubkey: destination },
                parts.reveal_script,
            ) + TARGET_POSTAGE
            &&& forall|i: int|
                0 <= i < keys.len() ==> (#[trigger] plan.commit.tx.output[i]).value
                    == plan.mint_amount
        }),
{
    let plan = mint_plan_of(
        inscription,
        entries,
        destination,
        change_script,
        commit_fee_rate,
        reveal_fee_rate,
        probe,
        keys,
    )->Ok_0;
    lemma_commit_balances(entries, plan.slots, plan.mint_amount, change_script, commit_fee_rate);
}

/// Every mint output of a plan is locked to the Taproot output key of its
/// slot, and the slot's recovery key, which is the slot's key tweaked by the
/// merkle root, unlocks the same script.
pub proof fn lemma_recovery_key_unlocks_mint_output(
    inscription: InscriptionView,
    entries: Seq<Utxo>,
    destination: Seq<u8>,
    change_script: Seq<u8>,
    commit_fee_rate: FeeRate,
    reveal_fee_rate: FeeRate,
    probe: Seq<u8>,
    keys: Seq<Seq<u8>>,
)
    requires
        mint_plan_of(
            inscription,
            entries,
            destination,
            change_script,
            commit_fee_rate,
            reveal_fee_rate,
            probe,
            keys,
        ) is Ok,
    ensures
        ({
            let plan = mint_plan_of(
                inscription,
                entries,
                destination,
                change_script,
                commit_fee_rate,
                reveal_fee_rate,
                probe,
                keys,
            )->Ok_0;
            forall|i: int|
                0 <= i < keys.len() ==> {
                    let slot = #[trigger] plan.slots[i];
                    &&& slot == slot_of(keys[i], inscription)
                    &&& slot.recovery_key == tap_tweaked_secret_of(
                        keys[i],
                        slot.parts.spend_info.merkle_root,
                    )
                    &&& plan.commit.tx.output[i].script_pubkey == p2tr_script(
                        slot.parts.spend_info.output_key,
                    )
                    &&& p2tr_script(x_only_public_key_of(slot.recovery_key)) == p2tr_script(
                        slot.parts.spend_info.output_key,
                    )
                }
        }),
{
    let plan = mint_plan_of(
        inscription,
        entries,
        destination,
        change_script,
        commit_fee_rate,
        reveal_fee_rate,
        probe,
        keys,
    )->Ok_0;
    lemma_commit_balances(entries, plan.slots, plan.mint_amount, change_script, commit_fee_rate);
    assert forall|i: int| 0 <= i < keys.len() implies {
        let slot = #[trigger] plan.slots[i];
        &&& slot == slot_of(keys[i], inscription)
        &&& slot.recoverable()
        &&& plan.commit.tx.output[i].script_pubkey == slot.script_pubkey()
    } by {
        assert(slot_of(keys[i], inscription).recoverable());
    }
}

/// The commit of a plan spends exactly what its outputs and its fee take,
/// and every reveal pays out the mint amount less its own fee.
pub proof fn lemma_plan_balances(
    inscription: InscriptionView,
    entries: Seq<Utxo>,
    destination: Seq<u8>,
    change_script: Seq<u8>,
    commit_fee_rate: FeeRate,
    reveal_fee_rate: FeeRate,
    probe: Seq<u8>,
    keys: Seq<Seq<u8>>,
)
    requires
        mint_plan_of(
            inscription,
            entries,
            destination,
            change_script,
            commit_fee_rate,
            reveal_fee_rate,
            probe,
            keys,
        ) is Ok,
    ensures
        ({
            let plan = mint_plan_of(
                inscription,
                entries,
                destination,
                change_script,
                commit_fee_rate,
                reveal_fee_rate,
                probe,
                keys,
            )->Ok_0;
            &&& total_of(entries) == output_total(plan.commit.tx.output) + plan.commit.fee
            &&& forall|i: int|
                0 <= i < keys.len() ==> (#[trigger] plan.reveals[i]).tx.output[0].value
                    == plan.mint_amount - plan.reveals[i].fee
        }),
{
    let plan = mint_plan_of(
        inscription,
        entries,
        destination,
        change_script,
        commit_fee_rate,
        reveal_fee_rate,
        probe,
        keys,
    )->Ok_0;
    lemma_commit_balances(entries, plan.slots, plan.mint_amount, change_script, commit_fee_rate);
    lemma_unsigned_reveals(plan.commit.tx, plan.slots, destination, reveal_fee_rate, plan.slots.len());
}

/// Plans the batch with one slot for each of `keys`.
pub fn plan_mint(
    inscription: &Inscription,
    utxos: &UtxoSet,
    destination: &Vec<u8>,
    change_script: &Vec<u8>,
    commit_fee_rate: FeeRate,
    reveal_fee_rate: FeeRate,
    probe: &SecretKey,
    keys: &Vec<SecretKey>,
) -> (r: Result<MintPlan, Error>)
    requires
        inscription.wf(),
        keys@.len() <= u32::MAX,
    ensures
        plan_matches(
            r,
            mint_plan_of(
                inscription@,
                utxos@,
                destination@,
                change_script@,
                commit_fee_rate,
                reveal_fee_rate,
                probe@,
                key_views(keys@),
            ),
        ),
{
    let probe_parts = RevealParts::derive(inscription, probe);
    let mint_amount = mint_amount(&probe_parts, destination, reveal_fee_rate)?;
    let slots = derive_slots(inscription, keys)?;
    let commit = build_commit_transaction(
        utxos,
        &slots,
        mint_amount,
        change_script,
        commit_fee_rate,
    )?;
    proof {
        lemma_commit_balances(
            utxos@,
            slots_view(slots@),
            mint_amount,
            change_script@,
            commit_fee_rate,
        );
        assert(slots_view(slots@).len() == slots@.len());
        assert(commit@.tx.output.len() == commit.tx.output@.len());
    }
    let reveals = prepare_reveals(&commit.tx, &slots, destination, reveal_fee_rate)?;
    Ok(MintPlan { mint_amount, slots, commit, reveals })
}

} // verus!
