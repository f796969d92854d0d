use inscribes::inscription::Inscription;
use inscribes::script::{bytes_equal, copy_bytes, p2tr_script_pubkey};

fn text_plain_hi() -> Inscription {
    Inscription { content_type: Some(b"text/plain".to_vec()), body: Some(b"hi".to_vec()) }
}

#[test]
fn p2tr_script_is_op_1_and_the_pushed_key() {
    let key = [7u8; 32];
    let script = p2tr_script_pubkey(&key);
    let mut expected = vec![0x51, 0x20];
    expected.extend_from_slice(&key);
    assert_eq!(script, expected);
    let outside = bitcoin::ScriptBuf::new_v1_p2tr_tweaked(
        bitcoin::key::TweakedPublicKey::dangerous_assume_tweaked(
            bitcoin::secp256k1::XOnlyPublicKey::from_slice(&[
                0x79, 0xbe, 0x66, 0x7e, 0xf9, 0xdc, 0xbb, 0xac, 0x55, 0xa0, 0x62, 0x95, 0xce, 0x87,
                0x0b, 0x07, 0x02, 0x9b, 0xfc, 0xdb, 0x2d, 0xce, 0x28, 0xd9, 0x59, 0xf2, 0x81, 0x5b,
                0x16, 0xf8, 0x17, 0x98,
            ])
            .unwrap(),
        ),
    );
    let generator = [
        0x79, 0xbe, 0x66, 0x7e, 0xf9, 0xdc, 0xbb, 0xac, 0x55, 0xa0, 0x62, 0x95, 0xce, 0x87, 0x0b,
        0x07, 0x02, 0x9b, 0xfc, 0xdb, 0x2d, 0xce, 0x28, 0xd9, 0x59, 0xf2, 0x81, 0x5b, 0x16, 0xf8,
        0x17, 0x98,
    ];
    assert_eq!(p2tr_script_pubkey(&generator), outside.into_bytes());
}

#[test]
fn envelope_of_a_short_text() {
    let script = text_plain_hi().append_reveal_script(vec![0xaa]);
    let mut expected = vec![0xaa, 0x00, 0x63, 0x03, b'o', b'r', b'd', 0x01, 0x01, 0x0a];
    expected.extend_from_slice(b"text/plain");
    expected.extend_from_slice(&[0x00, 0x02, b'h', b'i', 0x68]);
    assert_eq!(script, expected);
}

#[test]
fn envelope_without_type_or_body() {
    let bare = Inscription { content_type: None, body: None };
    assert_eq!(bare.append_reveal_script(vec![]), vec![0x00, 0x63, 0x03, b'o', b'r', b'd', 0x68]);
    let empty = Inscription { content_type: None, body: Some(vec![]) };
    assert_eq!(
        empty.append_reveal_script(vec![]),
        vec![0x00, 0x63, 0x03, b'o', b'r', b'd', 0x00, 0x68]
    );
    let typed = Inscription { content_type: Some(vec![b'a']), body: None };
    assert_eq!(
        typed.append_reveal_script(vec![]),
        vec![0x00, 0x63, 0x03, b'o', b'r', b'd', 0x01, 0x01, 0x01, b'a', 0x68]
    );
}

#[test]
fn long_body_is_cut_into_chunks_of_520() {
    let body: Vec<u8> = (0..1100u32).map(|i| (i % 251) as u8).collect();
    let inscription = Inscription { content_type: None, body: Some(body.clone()) };
    let script = inscription.append_reveal_script(vec![]);
    let mut expected = vec![0x00, 0x63, 0x03, b'o', b'r', b'd', 0x00];
    expected.extend_from_slice(&[0x4d, 0x08, 0x02]);
    expected.extend_from_slice(&body[..520]);
    expected.extend_from_slice(&[0x4d, 0x08, 0x02]);
    expected.extend_from_slice(&body[520..1040]);
    expected.extend_from_slice(&[0x3c]);
    expected.extend_from_slice(&body[1040..]);
    expected.push(0x68);
    assert_eq!(script, expected);
}

#[test]
fn body_of_exactly_one_chunk_and_pushdata1() {
    let body = vec![9u8; 520];
    let script = Inscription { content_type: None, body: Some(body.clone()) }.append_reveal_script(vec![]);
    assert_eq!(script.len(), 7 + 3 + 520 + 1);
    assert_eq!(&script[7..10], &[0x4d, 0x08, 0x02]);
    let body = vec![9u8; 200];
    let script = Inscription { content_type: None, body: Some(body) }.append_reveal_script(vec![]);
    assert_eq!(&script[7..9], &[0x4c, 200]);
    assert_eq!(script.len(), 7 + 2 + 200 + 1);
    let body = vec![9u8; 75];
    let script = Inscription { content_type: None, body: Some(body) }.append_reveal_script(vec![]);
    assert_eq!(script[7], 75);
    assert_eq!(script.len(), 7 + 1 + 75 + 1);
}

#[test]
fn envelope_agrees_with_the_outside_builder() {
    let body: Vec<u8> = (0..700u32).map(|i| (i % 13) as u8).collect();
    let inscription = Inscription { content_type: Some(b"image/png".to_vec()), body: Some(body.clone()) };
    let first: &bitcoin::script::PushBytes = (&body[..520]).try_into().unwrap();
    let second: &bitcoin::script::PushBytes = (&body[520..]).try_into().unwrap();
    let outside = bitcoin::script::Builder::new()
        .push_opcode(bitcoin::opcodes::OP_FALSE)
        .push_opcode(bitcoin::opcodes::all::OP_IF)
        .push_slice(b"ord")
        .push_slice([1u8])
        .push_slice(b"image/png")
        .push_slice([])
        .push_slice(first)
        .push_slice(second)
        .push_opcode(bitcoin::opcodes::all::OP_ENDIF)
        .into_bytes();
    assert_eq!(inscription.append_reveal_script(vec![]), outside);
}

#[test]
fn bytes_equal_and_copy() {
    assert!(bytes_equal(&[1, 2, 3], &[1, 2, 3]));
    assert!(!bytes_equal(&[1, 2, 3], &[1, 2, 4]));
    assert!(!bytes_equal(&[1, 2, 3], &[1, 2]));
    assert!(bytes_equal(&[], &[]));
    assert_eq!(copy_bytes(&[4, 5, 6]), vec![4, 5, 6]);
    assert_eq!(copy_bytes(&[]), Vec::<u8>::new());
}
