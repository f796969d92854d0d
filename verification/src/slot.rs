//! One mint slot: a fresh key, the script that reveals the inscription under
//! it, the Taproot output that commits to the script, and the key that
//! recovers the output.

use crate::error::Error;
use crate::inscription::{with_envelope, Inscription, InscriptionView};
use crate::keys::{tap_tweaked_secret_of, x_only_public_key_of, SecretKey};
use crate::script::{
    bytes_equal, p2tr_script, p2tr_script_pubkey, push_opcode, push_slice, with_push, OP_CHECKSIG,
};
use crate::taproot::{taproot_spend_info_of, TaprootSpendInfo, TaprootSpendInfoView};
use vstd::prelude::*;

verus! {

/// What a slot reveals: the script of the leaf and the output that commits to it.
pub struct RevealParts {
    pub public_key: [u8; 32],
    pub reveal_script: Vec<u8>,
    pub spend_info: TaprootSpendInfo,
}

pub struct RevealPartsView {
    pub public_key: Seq<u8>,
    pub reveal_script: Seq<u8>,
    pub spend_info: TaprootSpendInfoView,
}

impl View for RevealParts {
    type V = RevealPartsView;

    open spec fn view(&self) -> RevealPartsView {
        RevealPartsView {
            public_key: self.public_key@,
            reveal_script: self.reveal_script@,
            spend_info: self.spend_info@,
        }
    }
}

/// A slot of the batch.
pub struct MintSlot {
    pub key: SecretKey,
    pub parts: RevealParts,
    pub recovery_key: SecretKey,
}

pub struct MintSlotView {
    pub key: Seq<u8>,
    pub parts: RevealPartsView,
    pub recovery_key: Seq<u8>,
}

impl View for MintSlot {
    type V = MintSlotView;

    open spec fn view(&self) -> MintSlotView {
        MintSlotView { key: self.key@, parts: self.parts@, recovery_key: self.recovery_key@ }
    }
}

/// The script that checks a signature of `public_key` and then carries the
/// envelope of `inscription`.
pub open spec fn reveal_script_of(public_key: Seq<u8>, inscription: InscriptionView) -> Seq<u8> {
    with_envelope(with_push(Seq::<u8>::empty(), public_key).push(OP_CHECKSIG), inscription)
}

/// What the slot of `key` reveals of `inscription`.
pub open spec fn reveal_parts_of(key: Seq<u8>, inscription: InscriptionView) -> RevealPartsView {
    let public_key = x_only_public_key_of(key);
    let reveal_script = reveal_script_of(public_key, inscription);
    RevealPartsView {
        public_key,
        reveal_script,
        spend_info: taproot_spend_info_of(key, reveal_script),
    }
}

/// The slot of `key` for `inscription`.
pub open spec fn slot_of(key: Seq<u8>, inscription: InscriptionView) -> MintSlotView {
    let parts = reveal_parts_of(key, inscription);
    MintSlotView {
        key,
        parts,
        recovery_key: tap_tweaked_secret_of(key, parts.spend_info.merkle_root),
    }
}

/// The views of a row of slots.
pub open spec fn slots_view(slots: Seq<MintSlot>) -> Seq<MintSlotView> {
    slots.map_values(|slot: MintSlot| slot@)
}

impl MintSlotView {
    /// The script that locks the slot's output of the commit transaction.
    pub open spec fn script_pubkey(self) -> Seq<u8> {
        p2tr_script(self.parts.spend_info.output_key)
    }

    /// Whether the recovery key alone spends the slot's output: the output
    /// that pays to its public key is the output of the slot.
    pub open spec fn recoverable(self) -> bool {
        p2tr_script(x_only_public_key_of(self.recovery_key)) == self.script_pubkey()
    }
}

impl RevealParts {
    /// What the slot of `key` reveals of `inscription`.
    pub fn derive(inscription: &Inscription, key: &SecretKey) -> (parts: RevealParts)
        requires
            inscription.wf(),
        ensures
            parts@ == reveal_parts_of(key@, inscription@),
    {
        let public_key = key.x_only_public_key();
        let mut script: Vec<u8> = Vec::new();
        assert(script@ == Seq::<u8>::empty());
        script = push_slice(script, public_key.as_slice());
        script = push_opcode(script, OP_CHECKSIG);
        let reveal_script = inscription.append_reveal_script(script);
        let spend_info = TaprootSpendInfo::single_leaf(key, &reveal_script);
        RevealParts { public_key, reveal_script, spend_info }
    }
}

impl MintSlot {
    /// The script that locks this slot's output of the commit transaction.
    pub fn script_pubkey(&self) -> (script: Vec<u8>)
        ensures
            script@ == self@.script_pubkey(),
    {
        p2tr_script_pubkey(&self.parts.spend_info.output_key)
    }

    /// The slot of `key` for `inscription`, or `RecoveryKeyMismatch` where the
    /// tweaked key would not spend the slot's output.
    pub fn derive(inscription: &Inscription, key: SecretKey) -> (r: Result<MintSlot, Error>)
        requires
            inscription.wf(),
        ensures
            slot_of(key@, inscription@).recoverable() ==> r is Ok && r->Ok_0@ == slot_of(
                key@,
                inscription@,
            ),
            !slot_of(key@, inscription@).recoverable() ==> r is Err && r->Err_0
                == Error::RecoveryKeyMismatch,
    {
        let parts = RevealParts::derive(inscription, &key);
        let recovery_key = key.tap_tweak(&parts.spend_info.merkle_root);
        let recovery_public_key = recovery_key.x_only_public_key();
        let unlocked = p2tr_script_pubkey(&recovery_public_key);
        let locked = p2tr_script_pubkey(&parts.spend_info.output_key);
        if bytes_equal(unlocked.as_slice(), locked.as_slice()) {
            Ok(MintSlot { key, parts, recovery_key })
        } else {
            Err(Error::RecoveryKeyMismatch)
        }
    }
}

} // verus!
