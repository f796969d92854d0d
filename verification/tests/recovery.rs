use inscribes::broadcast::Broadcast;
use inscribes::broadcast::Settings;
use inscribes::chain::{OutPoint, Transaction, TxIn, TxOut, Txid};
use inscribes::keys::{Network, SecretKey};
use inscribes::recovery::{
    import_request, import_succeeded, recovery_descriptor, recovery_log_line, recovery_log_name,
};

fn one() -> SecretKey {
    let mut bytes = [0u8; 32];
    bytes[31] = 1;
    SecretKey::from_bytes(bytes).unwrap()
}

fn tx() -> Transaction {
    Transaction {
        version: 1,
        lock_time: 0,
        input: vec![TxIn::unsigned(OutPoint { txid: Txid { bytes: [1u8; 32] }, vout: 0 })],
        output: vec![TxOut { value: 330, script_pubkey: vec![0x51] }],
    }
}

#[test]
fn descriptor_wraps_the_import_format() {
    assert_eq!(
        recovery_descriptor(&one(), Network::Bitcoin),
        "rawtr(KwDiBf89QgGbjEhKnhXJuH7LrciVrZi3qYjgd9M7rFU73sVHnoWn)"
    );
    assert_eq!(
        recovery_descriptor(&one(), Network::Regtest),
        "rawtr(cMahea7zqjxrtgAbB7LSGbcQUr1uX1ojuat9jZodMN87JcbXMTcA)"
    );
}

#[test]
fn import_request_is_inactive_and_labelled() {
    let request = import_request(&one(), Network::Bitcoin, "q7djs3ed");
    assert_eq!(
        request.descriptor,
        "rawtr(KwDiBf89QgGbjEhKnhXJuH7LrciVrZi3qYjgd9M7rFU73sVHnoWn)#q7djs3ed"
    );
    assert!(request.timestamp_now);
    assert!(!request.active);
    assert!(!request.internal);
    assert_eq!(request.label, "commit tx recovery key");
}

#[test]
fn import_succeeds_where_every_result_does() {
    assert!(import_succeeded(&vec![]));
    assert!(import_succeeded(&vec![true]));
    assert!(import_succeeded(&vec![true, true, true]));
    assert!(!import_succeeded(&vec![false]));
    assert!(!import_succeeded(&vec![true, false, true]));
    assert!(!import_succeeded(&vec![true, true, false]));
}

#[test]
fn log_line_names_reveal_and_key() {
    let line = recovery_log_line(&tx(), &SecretKey::from_bytes([2u8; 32]).unwrap());
    let there = bitcoin::Transaction {
        version: 1,
        lock_time: bitcoin::absolute::LockTime::ZERO,
        input: vec![bitcoin::TxIn {
            previous_output: bitcoin::OutPoint::new(
                <bitcoin::Txid as bitcoin::hashes::Hash>::from_byte_array([1u8; 32]),
                0,
            ),
            script_sig: bitcoin::ScriptBuf::new(),
            sequence: bitcoin::Sequence::ENABLE_RBF_NO_LOCKTIME,
            witness: bitcoin::Witness::new(),
        }],
        output: vec![bitcoin::TxOut {
            value: 330,
            script_pubkey: bitcoin::ScriptBuf::from_bytes(vec![0x51]),
        }],
    };
    let expected = format!(
        "{} {} {:?}",
        there.txid(),
        bitcoin::consensus::encode::serialize_hex(&there),
        [2u8; 32]
    );
    assert_eq!(line, expected);
    let parts: Vec<&str> = line.splitn(3, ' ').collect();
    assert_eq!(parts[0].len(), 64);
    assert_eq!(
        parts[1],
        "010000000101010101010101010101010101010101010101010101010101010101010101010000000000fdffffff014a01000000000000015100000000"
    );
    assert!(parts[2].starts_with("[2, 2, 2, "));
    assert!(parts[2].ends_with(", 2]"));
}

#[test]
fn log_is_named_after_the_commit() {
    let name = recovery_log_name(&tx());
    let id = inscribes::inscription_id::InscriptionId { txid: tx().txid(), index: 0 }.to_text();
    assert_eq!(name, format!("output_{}.txt", &id[..64]));
    assert_eq!(name.len(), 7 + 64 + 4);
}

#[test]
fn broadcast_hands_out_the_log() {
    let settings = Settings {
        no_backup: false,
        only_commit: false,
        dry_run: false,
        batch_pause_millis: 1200,
        network: Network::Bitcoin,
    };
    let keys = vec![SecretKey::from_bytes([2u8; 32]).unwrap(), one()];
    let b = Broadcast::new(settings, tx(), vec![tx(), tx()], keys, 0);
    let lines = b.recovery_log();
    assert_eq!(lines.len(), 2);
    assert_eq!(lines[0], recovery_log_line(&tx(), &SecretKey::from_bytes([2u8; 32]).unwrap()));
    assert_eq!(lines[1], recovery_log_line(&tx(), &one()));
    assert_eq!(b.descriptor(1), recovery_descriptor(&one(), Network::Bitcoin));
    assert!(b.import(1).is_none());
}
