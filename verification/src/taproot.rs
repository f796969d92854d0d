//! The Taproot output that commits to one script.

use crate::keys::{secret_key_valid, SecretKey};
use bitcoin::secp256k1::{KeyPair, Secp256k1, XOnlyPublicKey};
use bitcoin::taproot::{LeafVersion, TaprootBuilder};
use bitcoin::ScriptBuf;
use vstd::prelude::*;

verus! {

/// What spending a single-leaf Taproot output takes.
#[derive(Clone, Debug, PartialEq, Eq)]
pub struct TaprootSpendInfo {
    /// The tweaked key that the output is locked to.
    pub output_key: [u8; 32],
    /// The root of the script tree, here the hash of its only leaf.
    pub merkle_root: [u8; 32],
    /// The serialized proof that the leaf script belongs to the output key.
    pub control_block: Vec<u8>,
}

pub struct TaprootSpendInfoView {
    pub output_key: Seq<u8>,
    pub merkle_root: Seq<u8>,
    pub control_block: Seq<u8>,
}

impl View for TaprootSpendInfo {
    type V = TaprootSpendInfoView;

    open spec fn view(&self) -> TaprootSpendInfoView {
        TaprootSpendInfoView {
            output_key: self.output_key@,
            merkle_root: self.merkle_root@,
            control_block: self.control_block@,
        }
    }
}

/// The spend info of the tree whose only leaf is `script`, with the public
/// key of `secret` as the internal key.
pub uninterp spec fn taproot_spend_info_of(secret: Seq<u8>, script: Seq<u8>) -> TaprootSpendInfoView;

/// `bitcoin::taproot::TaprootBuilder::finalize` on the tree with the one
/// Tapscript leaf `script` at depth 0, and the x-only public key of `secret`
/// as the internal key: trusted to be a function of the two. The outside
/// function gives up where the tagged hash of key and root is no scalar of
/// the curve, or cancels the key out; no input is known to do so.
#[verifier::external_body]
fn finalize_single_leaf(secret: &[u8; 32], script: &Vec<u8>) -> (info: TaprootSpendInfo)
    requires
        secret_key_valid(secret@),
    ensures
        info@ == taproot_spend_info_of(secret@, script@),
{
    let secp = Secp256k1::new();
    let pair = KeyPair::from_seckey_slice(&secp, secret).unwrap();
    let leaf = ScriptBuf::from_bytes(script.clone());
    let builder = TaprootBuilder::new().add_leaf(0, leaf.clone()).unwrap();
    let info = builder.finalize(&secp, XOnlyPublicKey::from_keypair(&pair).0).unwrap();
    TaprootSpendInfo {
        output_key: info.output_key().serialize(),
        merkle_root: *info.merkle_root().unwrap().as_ref(),
        control_block: info.control_block(&(leaf, LeafVersion::TapScript)).unwrap().serialize(),
    }
}

impl TaprootSpendInfo {
    /// The spend info of the output that commits to `script` under the public
    /// key of `key`.
    pub fn single_leaf(key: &SecretKey, script: &Vec<u8>) -> (info: TaprootSpendInfo)
        ensures
            info@ == taproot_spend_info_of(key@, script@),
    {
        let secret = key.secret_bytes();
        finalize_single_leaf(&secret, script)
    }
}

} // verus!
