use bitcoin::hashes::Hash as _;
use inscribes::chain::{OutPoint, Transaction, TxIn, TxOut, Txid};
use inscribes::consensus::{dust_value, tap_leaf_hash, MAX_STANDARD_TX_WEIGHT};

fn sample() -> Transaction {
    Transaction {
        version: 1,
        lock_time: 0,
        input: vec![
            TxIn {
                previous_output: OutPoint { txid: Txid { bytes: [3u8; 32] }, vout: 1 },
                script_sig: vec![],
                sequence: 0xFFFF_FFFD,
                witness: vec![vec![0u8; 64], vec![1, 2, 3], vec![0xc0; 33]],
            },
            TxIn {
                previous_output: OutPoint { txid: Txid { bytes: [4u8; 32] }, vout: 0 },
                script_sig: vec![0x51],
                sequence: 0xFFFF_FFFF,
                witness: vec![],
            },
        ],
        output: vec![
            TxOut { value: 5000, script_pubkey: vec![0x51, 0x20, 7, 7, 7] },
            TxOut { value: 1, script_pubkey: vec![] },
        ],
    }
}

fn outside(tx: &Transaction) -> bitcoin::Transaction {
    bitcoin::Transaction {
        version: tx.version,
        lock_time: bitcoin::absolute::LockTime::from_consensus(tx.lock_time),
        input: tx
            .input
            .iter()
            .map(|i| bitcoin::TxIn {
                previous_output: bitcoin::OutPoint::new(
                    bitcoin::Txid::from_byte_array(i.previous_output.txid.bytes),
                    i.previous_output.vout,
                ),
                script_sig: bitcoin::ScriptBuf::from_bytes(i.script_sig.clone()),
                sequence: bitcoin::Sequence(i.sequence),
                witness: bitcoin::Witness::from_slice(&i.witness),
            })
            .collect(),
        output: tx
            .output
            .iter()
            .map(|o| bitcoin::TxOut {
                value: o.value,
                script_pubkey: bitcoin::ScriptBuf::from_bytes(o.script_pubkey.clone()),
            })
            .collect(),
    }
}

#[test]
fn weight_and_vsize_agree_with_the_outside_transaction() {
    let tx = sample();
    let there = outside(&tx);
    assert_eq!(tx.weight(), there.weight().to_wu());
    assert_eq!(tx.vsize(), there.vsize() as u64);
    assert_eq!(tx.vsize(), (tx.weight() + 3) / 4);
}

#[test]
fn weight_of_a_bare_spend() {
    let tx = Transaction {
        version: 1,
        lock_time: 0,
        input: vec![TxIn::unsigned(OutPoint::null())],
        output: vec![TxOut { value: 0, script_pubkey: vec![0x51, 0x20] }],
    };
    // 4 version, 1 count, 41 input, 1 count, 8 value, 1 length, 2 script, 4 lock time
    assert_eq!(tx.weight(), 62 * 4);
    assert_eq!(tx.vsize(), 62);
}

#[test]
fn txid_agrees_with_the_outside_transaction() {
    let tx = sample();
    assert_eq!(tx.txid().bytes, outside(&tx).txid().to_byte_array());
    let mut other = sample();
    other.output[0].value = 5001;
    assert_ne!(tx.txid(), other.txid());
    let mut rewitnessed = sample();
    rewitnessed.input[0].witness = vec![];
    assert_eq!(tx.txid(), rewitnessed.txid());
}

#[test]
fn dust_depends_on_the_kind_of_script() {
    let mut p2tr = vec![0x51, 0x20];
    p2tr.extend_from_slice(&[1u8; 32]);
    assert_eq!(dust_value(&p2tr), 330);
    let mut p2pkh = vec![0x76, 0xa9, 0x14];
    p2pkh.extend_from_slice(&[1u8; 20]);
    p2pkh.extend_from_slice(&[0x88, 0xac]);
    assert_eq!(dust_value(&p2pkh), 546);
    assert_eq!(dust_value(&vec![0x6a, 0x01, 0x00]), 0);
}

#[test]
fn leaf_hash_agrees_with_the_outside_hash() {
    let script = vec![0x20, 1, 2, 3, 0xac];
    let expected = bitcoin::taproot::TapLeafHash::from_script(
        bitcoin::Script::from_bytes(&script),
        bitcoin::taproot::LeafVersion::TapScript,
    );
    assert_eq!(tap_leaf_hash(&script), expected.to_byte_array());
    assert_ne!(tap_leaf_hash(&vec![0x20]), expected.to_byte_array());
}

#[test]
fn sighash_agrees_with_the_outside_cache() {
    let tx = Transaction {
        version: 1,
        lock_time: 0,
        input: vec![TxIn::unsigned(OutPoint { txid: Txid { bytes: [8u8; 32] }, vout: 2 })],
        output: vec![TxOut { value: 330, script_pubkey: vec![0x51, 0x20, 9] }],
    };
    let prevout = TxOut { value: 1000, script_pubkey: vec![0x51, 0x20, 5, 5] };
    let script = vec![0x20, 1, 2, 3, 0xac];
    let leaf = tap_leaf_hash(&script);
    let there = outside(&tx);
    let spent = [bitcoin::TxOut {
        value: prevout.value,
        script_pubkey: bitcoin::ScriptBuf::from_bytes(prevout.script_pubkey.clone()),
    }];
    let expected = bitcoin::sighash::SighashCache::new(&there)
        .taproot_script_spend_signature_hash(
            0,
            &bitcoin::sighash::Prevouts::All(&spent),
            bitcoin::taproot::TapLeafHash::from_script(
                bitcoin::Script::from_bytes(&script),
                bitcoin::taproot::LeafVersion::TapScript,
            ),
            bitcoin::sighash::TapSighashType::Default,
        )
        .unwrap();
    assert_eq!(tx.script_spend_sighash(&prevout, &leaf), expected.to_byte_array());
    let cheaper = TxOut { value: 999, script_pubkey: vec![0x51, 0x20, 5, 5] };
    assert_ne!(tx.script_spend_sighash(&cheaper, &leaf), expected.to_byte_array());
    assert_ne!(tx.script_spend_sighash(&prevout, &[0u8; 32]), expected.to_byte_array());
}

#[test]
fn standard_weight_limit() {
    assert_eq!(MAX_STANDARD_TX_WEIGHT, 400_000);
    assert_eq!(MAX_STANDARD_TX_WEIGHT, bitcoin::policy::MAX_STANDARD_TX_WEIGHT as u64);
}
