//! Secret keys and what secp256k1 computes from them.

use bitcoin::key::TapTweak as _;
use vstd::prelude::*;

verus! {

/// The chain a key or an address belongs to.
#[derive(Clone, Copy, Debug, PartialEq, Eq, Structural)]
pub enum Network {
    Bitcoin,
    Testnet,
    Signet,
    Regtest,
}

/// Whether 32 bytes are a secret key that secp256k1 accepts.
pub uninterp spec fn secret_key_valid(bytes: Seq<u8>) -> bool;

/// The x-only public key that belongs to a secret key.
pub uninterp spec fn x_only_public_key_of(secret: Seq<u8>) -> Seq<u8>;

/// The secret key that results from the Taproot tweak of `secret` with `merkle_root`.
pub uninterp spec fn tap_tweaked_secret_of(secret: Seq<u8>, merkle_root: Seq<u8>) -> Seq<u8>;

/// The wallet import format of a secret key on a network.
pub uninterp spec fn wif_of(secret: Seq<u8>, network: Network) -> Seq<char>;

/// A secret key that secp256k1 accepts.
pub struct SecretKey {
    bytes: [u8; 32],
}

impl View for SecretKey {
    type V = Seq<u8>;

    closed spec fn view(&self) -> Seq<u8> {
        self.bytes@
    }
}

/// `secp256k1::KeyPair::from_seckey_slice`: trusted to accept exactly the keys
/// that `secret_key_valid` names.
#[verifier::external_body]
fn check_secret_key(bytes: &[u8; 32]) -> (ok: bool)
    ensures
        ok == secret_key_valid(bytes@),
{
    let secp = bitcoin::secp256k1::Secp256k1::new();
    bitcoin::secp256k1::KeyPair::from_seckey_slice(&secp, bytes).is_ok()
}

/// `secp256k1::KeyPair::new` with the thread's random number generator: trusted
/// to return the bytes of a key that secp256k1 accepts. Which key is left open.
#[verifier::external_body]
fn random_secret_bytes() -> (bytes: [u8; 32])
    ensures
        secret_key_valid(bytes@),
{
    let secp = bitcoin::secp256k1::Secp256k1::new();
    bitcoin::secp256k1::KeyPair::new(&secp, &mut bitcoin::secp256k1::rand::thread_rng())
        .secret_bytes()
}

/// `secp256k1::XOnlyPublicKey::from_keypair`, serialized: trusted to be a
/// function of the secret key alone.
#[verifier::external_body]
fn x_only_bytes(secret: &[u8; 32]) -> (key: [u8; 32])
    requires
        secret_key_valid(secret@),
    ensures
        key@ == x_only_public_key_of(secret@),
{
    let secp = bitcoin::secp256k1::Secp256k1::new();
    let pair = bitcoin::secp256k1::KeyPair::from_seckey_slice(&secp, secret).unwrap();
    bitcoin::secp256k1::XOnlyPublicKey::from_keypair(&pair).0.serialize()
}

/// `bitcoin::key::TapTweak::tap_tweak` on a key pair: trusted to be a function
/// of the secret key and the merkle root, and to return a key that secp256k1
/// accepts. The outside function gives up where the tagged hash of the two is
/// no scalar of the curve, or cancels the secret out; no input is known to do so.
#[verifier::external_body]
fn tap_tweak_bytes(secret: &[u8; 32], merkle_root: &[u8; 32]) -> (tweaked: [u8; 32])
    requires
        secret_key_valid(secret@),
    ensures
        tweaked@ == tap_tweaked_secret_of(secret@, merkle_root@),
        secret_key_valid(tweaked@),
{
    let secp = bitcoin::secp256k1::Secp256k1::new();
    let pair = bitcoin::secp256k1::KeyPair::from_seckey_slice(&secp, secret).unwrap();
    let root = bitcoin::taproot::TapNodeHash::assume_hidden(*merkle_root);
    pair.tap_tweak(&secp, Some(root)).to_inner().secret_bytes()
}

/// `rand::RngCore::fill_bytes` on the thread's random number generator:
/// which bytes come is left open, so nothing is claimed of them beyond
/// their number.
#[verifier::external_body]
fn random_aux_bytes() -> (aux: [u8; 32]) {
    let mut aux = [0u8; 32];
    bitcoin::secp256k1::rand::RngCore::fill_bytes(
        &mut bitcoin::secp256k1::rand::thread_rng(),
        &mut aux,
    );
    aux
}

/// `bitcoin::PrivateKey::to_wif` for a compressed key: trusted to be a
/// function of the secret key and the network.
#[verifier::external_body]
fn wif_string(secret: &[u8; 32], network: Network) -> (wif: String)
    requires
        secret_key_valid(secret@),
    ensures
        wif@ == wif_of(secret@, network),
{
    let net = match network {
        Network::Bitcoin => bitcoin::Network::Bitcoin,
        Network::Testnet => bitcoin::Network::Testnet,
        Network::Signet => bitcoin::Network::Signet,
        Network::Regtest => bitcoin::Network::Regtest,
    };
    let key = bitcoin::secp256k1::SecretKey::from_slice(secret).unwrap();
    bitcoin::PrivateKey::new(key, net).to_wif()
}

impl SecretKey {
    #[verifier::type_invariant]
    spec fn accepted(self) -> bool {
        secret_key_valid(self.bytes@)
    }

    /// The key with these bytes, if secp256k1 accepts them.
    pub fn from_bytes(bytes: [u8; 32]) -> (key: Option<SecretKey>)
        ensures
            key is Some <==> secret_key_valid(bytes@),
            key is Some ==> key->0@ == bytes@,
    {
        if check_secret_key(&bytes) {
            Some(SecretKey { bytes })
        } else {
            None
        }
    }

    /// A fresh key from the thread's random number generator.
    pub fn generate() -> (key: SecretKey)
        ensures
            secret_key_valid(key@),
    {
        let bytes = random_secret_bytes();
        SecretKey { bytes }
    }

    pub fn secret_bytes(&self) -> (bytes: [u8; 32])
        ensures
            bytes@ == self@,
            secret_key_valid(self@),
    {
        proof {
            use_type_invariant(self);
        }
        self.bytes
    }

    pub fn duplicate(&self) -> (key: SecretKey)
        ensures
            key@ == self@,
    {
        proof {
            use_type_invariant(self);
        }
        SecretKey { bytes: self.bytes }
    }

    /// The x-only public key of this key.
    pub fn x_only_public_key(&self) -> (key: [u8; 32])
        ensures
            key@ == x_only_public_key_of(self@),
    {
        proof {
            use_type_invariant(self);
        }
        x_only_bytes(&self.bytes)
    }

    /// The key that spends, by the key path, what was locked to this key and
    /// `merkle_root`.
    pub fn tap_tweak(&self, merkle_root: &[u8; 32]) -> (tweaked: SecretKey)
        ensures
            tweaked@ == tap_tweaked_secret_of(self@, merkle_root@),
    {
        proof {
            use_type_invariant(self);
        }
        let bytes = tap_tweak_bytes(&self.bytes, merkle_root);
        SecretKey { bytes }
    }

    /// The Schnorr signature of `digest` under this key with fresh auxiliary bytes.
    pub fn sign_schnorr(&self, digest: &[u8; 32]) -> (signature: [u8; 64])
        ensures
            exists|aux: Seq<u8>|
                aux.len() == 32 && signature@ == #[trigger] schnorr_signature_of(
                    self@,
                    digest@,
                    aux,
                ),
    {
        let aux = random_aux_bytes();
        let signature = self.sign_schnorr_with_aux_rand(digest, &aux);
        assert(aux@.len() == 32 && signature@ == schnorr_signature_of(self@, digest@, aux@));
        signature
    }

    /// The Schnorr signature of `digest` under this key with the auxiliary
    /// bytes `aux`.
    pub fn sign_schnorr_with_aux_rand(&self, digest: &[u8; 32], aux: &[u8; 32]) -> (signature: [
        u8;
        64
    ])
        ensures
            signature@ == schnorr_signature_of(self@, digest@, aux@),
    {
        proof {
            use_type_invariant(self);
        }
        sign_schnorr_bytes(&self.bytes, digest, aux)
    }

    /// The wallet import format of this key.
    pub fn to_wif(&self, network: Network) -> (wif: String)
        ensures
            wif@ == wif_of(self@, network),
    {
        proof {
            use_type_invariant(self);
        }
        wif_string(&self.bytes, network)
    }
}

/// The Schnorr signature of a digest under a secret key, made with 32
/// auxiliary bytes.
pub uninterp spec fn schnorr_signature_of(secret: Seq<u8>, digest: Seq<u8>, aux: Seq<u8>) -> Seq<u8>;

/// `secp256k1::Secp256k1::sign_schnorr_with_aux_rand`: trusted to be a
/// function of the secret key, the digest and the auxiliary bytes. The
/// outside function gives up where the nonce that it derives from the three
/// is zero; no input is known to do so.
#[verifier::external_body]
fn sign_schnorr_bytes(secret: &[u8; 32], digest: &[u8; 32], aux: &[u8; 32]) -> (signature: [u8; 64])
    requires
        secret_key_valid(secret@),
    ensures
        signature@ == schnorr_signature_of(secret@, digest@, aux@),
{
    let secp = bitcoin::secp256k1::Secp256k1::new();
    let pair = bitcoin::secp256k1::KeyPair::from_seckey_slice(&secp, secret).unwrap();
    let message = bitcoin::secp256k1::Message::from_slice(digest).unwrap();
    *secp.sign_schnorr_with_aux_rand(&message, &pair, aux).as_ref()
}

} // verus!
