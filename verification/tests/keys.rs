use bitcoin::key::TapTweak;
use inscribes::keys::{Network, SecretKey};

fn key(byte: u8) -> SecretKey {
    SecretKey::from_bytes([byte; 32]).unwrap()
}

#[test]
fn only_keys_in_range_are_accepted() {
    assert!(SecretKey::from_bytes([0u8; 32]).is_none());
    assert!(SecretKey::from_bytes([0xffu8; 32]).is_none());
    let one = {
        let mut bytes = [0u8; 32];
        bytes[31] = 1;
        bytes
    };
    assert_eq!(SecretKey::from_bytes(one).unwrap().secret_bytes(), one);
    assert_eq!(key(0xcd).secret_bytes(), [0xcd; 32]);
    assert_eq!(key(0xcd).duplicate().secret_bytes(), [0xcd; 32]);
}

#[test]
fn generated_keys_are_accepted_and_differ() {
    let a = SecretKey::generate();
    let b = SecretKey::generate();
    assert!(SecretKey::from_bytes(a.secret_bytes()).is_some());
    assert!(SecretKey::from_bytes(b.secret_bytes()).is_some());
    assert_ne!(a.secret_bytes(), b.secret_bytes());
}

#[test]
fn public_key_of_one_is_the_generator() {
    let mut bytes = [0u8; 32];
    bytes[31] = 1;
    let public = SecretKey::from_bytes(bytes).unwrap().x_only_public_key();
    assert_eq!(
        public,
        [
            0x79, 0xbe, 0x66, 0x7e, 0xf9, 0xdc, 0xbb, 0xac, 0x55, 0xa0, 0x62, 0x95, 0xce, 0x87,
            0x0b, 0x07, 0x02, 0x9b, 0xfc, 0xdb, 0x2d, 0xce, 0x28, 0xd9, 0x59, 0xf2, 0x81, 0x5b,
            0x16, 0xf8, 0x17, 0x98,
        ]
    );
    assert_ne!(key(3).x_only_public_key(), [3u8; 32]);
}

#[test]
fn tap_tweak_agrees_with_the_outside_tweak() {
    let secp = bitcoin::secp256k1::Secp256k1::new();
    let pair = bitcoin::secp256k1::KeyPair::from_seckey_slice(&secp, &[5u8; 32]).unwrap();
    let root = [9u8; 32];
    let expected = pair
        .tap_tweak(&secp, Some(bitcoin::taproot::TapNodeHash::assume_hidden(root)))
        .to_inner()
        .secret_bytes();
    let tweaked = key(5).tap_tweak(&root);
    assert_eq!(tweaked.secret_bytes(), expected);
    assert_ne!(tweaked.secret_bytes(), [5u8; 32]);
    assert_ne!(key(5).tap_tweak(&[8u8; 32]).secret_bytes(), expected);
}

#[test]
fn signature_verifies_under_the_public_key() {
    let secp = bitcoin::secp256k1::Secp256k1::new();
    let digest = [0x42u8; 32];
    let signer = key(7);
    let signature = signer.sign_schnorr(&digest);
    let signature = bitcoin::secp256k1::schnorr::Signature::from_slice(&signature).unwrap();
    let message = bitcoin::secp256k1::Message::from_slice(&digest).unwrap();
    let public = bitcoin::secp256k1::XOnlyPublicKey::from_slice(&signer.x_only_public_key()).unwrap();
    assert!(secp.verify_schnorr(&signature, &message, &public).is_ok());
    let other = bitcoin::secp256k1::Message::from_slice(&[0x43u8; 32]).unwrap();
    assert!(secp.verify_schnorr(&signature, &other, &public).is_err());
}

#[test]
fn wif_depends_on_key_and_network() {
    let mut bytes = [0u8; 32];
    bytes[31] = 1;
    let one = SecretKey::from_bytes(bytes).unwrap();
    assert_eq!(one.to_wif(Network::Bitcoin), "KwDiBf89QgGbjEhKnhXJuH7LrciVrZi3qYjgd9M7rFU73sVHnoWn");
    assert_eq!(one.to_wif(Network::Testnet), "cMahea7zqjxrtgAbB7LSGbcQUr1uX1ojuat9jZodMN87JcbXMTcA");
    assert_eq!(one.to_wif(Network::Regtest), one.to_wif(Network::Testnet));
    assert_eq!(one.to_wif(Network::Signet), one.to_wif(Network::Testnet));
    assert_ne!(key(2).to_wif(Network::Bitcoin), one.to_wif(Network::Bitcoin));
}

#[test]
fn signature_with_given_auxiliary_bytes_is_determined() {
    let secp = bitcoin::secp256k1::Secp256k1::new();
    let digest = [0x42u8; 32];
    let aux = [0x07u8; 32];
    let signer = key(7);
    let signature = signer.sign_schnorr_with_aux_rand(&digest, &aux);
    assert_eq!(signature, signer.sign_schnorr_with_aux_rand(&digest, &aux));
    let pair = bitcoin::secp256k1::KeyPair::from_seckey_slice(&secp, &[7u8; 32]).unwrap();
    let message = bitcoin::secp256k1::Message::from_slice(&digest).unwrap();
    let expected = secp.sign_schnorr_with_aux_rand(&message, &pair, &aux);
    assert_eq!(&signature[..], &expected.as_ref()[..]);
    assert_ne!(signature, signer.sign_schnorr_with_aux_rand(&digest, &[0x08u8; 32]));
    assert_ne!(signature, signer.sign_schnorr_with_aux_rand(&[0x43u8; 32], &aux));
    assert_ne!(signature, key(8).sign_schnorr_with_aux_rand(&digest, &aux));
    let public = bitcoin::secp256k1::XOnlyPublicKey::from_slice(&signer.x_only_public_key()).unwrap();
    assert!(secp.verify_schnorr(&expected, &message, &public).is_ok());
}

#[test]
fn signature_of_the_first_standard_vector() {
    let mut secret = [0u8; 32];
    secret[31] = 3;
    let signer = SecretKey::from_bytes(secret).unwrap();
    let signature = signer.sign_schnorr_with_aux_rand(&[0u8; 32], &[0u8; 32]);
    let expected: [u8; 64] = [
        0xE9, 0x07, 0x83, 0x1F, 0x80, 0x84, 0x8D, 0x10, 0x69, 0xA5, 0x37, 0x1B, 0x40, 0x24, 0x10,
        0x36, 0x4B, 0xDF, 0x1C, 0x5F, 0x83, 0x07, 0xB0, 0x08, 0x4C, 0x55, 0xF1, 0xCE, 0x2D, 0xCA,
        0x82, 0x15, 0x25, 0xF6, 0x6A, 0x4A, 0x85, 0xEA, 0x8B, 0x71, 0xE4, 0x82, 0xA7, 0x4F, 0x38,
        0x2D, 0x2C, 0xE5, 0xEB, 0xEE, 0xE8, 0xFD, 0xB2, 0x17, 0x2F, 0x47, 0x7D, 0xF4, 0x90, 0x0D,
        0x31, 0x05, 0x36, 0xC0,
    ];
    assert_eq!(signature, expected);
}

#[test]
fn fresh_signatures_differ_and_verify() {
    let secp = bitcoin::secp256k1::Secp256k1::new();
    let digest = [0x11u8; 32];
    let signer = key(9);
    let first = signer.sign_schnorr(&digest);
    let second = signer.sign_schnorr(&digest);
    assert_ne!(first, second);
    let message = bitcoin::secp256k1::Message::from_slice(&digest).unwrap();
    let public = bitcoin::secp256k1::XOnlyPublicKey::from_slice(&signer.x_only_public_key()).unwrap();
    for signature in [first, second] {
        let signature = bitcoin::secp256k1::schnorr::Signature::from_slice(&signature).unwrap();
        assert!(secp.verify_schnorr(&signature, &message, &public).is_ok());
    }
}
