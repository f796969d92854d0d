use inscribes::chain::{OutPoint, Transaction, TxIn, TxOut, Txid};
use inscribes::commit::{build_commit_transaction, mint_amount, COMMIT_SIGNATURE_VSIZE, TARGET_POSTAGE};
use inscribes::error::Error;
use inscribes::fee::FeeRate;
use inscribes::inscription::Inscription;
use inscribes::keys::SecretKey;
use inscribes::slot::{MintSlot, RevealParts};
use inscribes::utxo::UtxoSet;

fn text_plain_hi() -> Inscription {
    Inscription { content_type: Some(b"text/plain".to_vec()), body: Some(b"hi".to_vec()) }
}

fn key(byte: u8) -> SecretKey {
    SecretKey::from_bytes([byte; 32]).unwrap()
}

fn p2tr(byte: u8) -> Vec<u8> {
    let mut script = vec![0x51, 0x20];
    script.extend_from_slice(&[byte; 32]);
    script
}

fn rate(sat_per_vb: u64) -> FeeRate {
    FeeRate::from_sat_per_vb(sat_per_vb).unwrap()
}

fn outpoint(first: u8, vout: u32) -> OutPoint {
    let mut bytes = [0u8; 32];
    bytes[0] = first;
    OutPoint { txid: Txid { bytes }, vout }
}

fn wallet(amounts: &[u64]) -> UtxoSet {
    let mut set = UtxoSet::new();
    for (i, amount) in amounts.iter().enumerate() {
        set.insert(outpoint(i as u8 + 1, 0), *amount);
    }
    set
}

fn slots(count: u8) -> Vec<MintSlot> {
    (1..=count).map(|i| MintSlot::derive(&text_plain_hi(), key(i)).unwrap()).collect()
}

#[test]
fn mint_amount_is_the_reveal_fee_and_the_postage() {
    let probe = RevealParts::derive(&text_plain_hi(), &key(9));
    assert_eq!(TARGET_POSTAGE, 330);
    assert_eq!(mint_amount(&probe, &p2tr(2), rate(1)), Ok(135 + 330));
    assert_eq!(mint_amount(&probe, &p2tr(2), rate(10)), Ok(1350 + 330));
    assert_eq!(mint_amount(&probe, &p2tr(2), FeeRate { sat_per_kvb: 0 }), Ok(330));
    assert_eq!(
        mint_amount(&probe, &p2tr(2), FeeRate { sat_per_kvb: u64::MAX }),
        Ok(2_490_310_449_950_789_799)
    );
    let heavy = Inscription { content_type: None, body: Some(vec![7u8; 20_000]) };
    let probe = RevealParts::derive(&heavy, &key(9));
    assert_eq!(
        mint_amount(&probe, &p2tr(2), FeeRate { sat_per_kvb: u64::MAX }),
        Err(Error::FeeOverflow)
    );
    // A fee that fits and leaves no room for the postage.
    let sized = mint_amount(&probe, &p2tr(2), rate(1)).unwrap() - 330;
    assert!(sized > 1000);
    let steep = ((u64::MAX - 100) as u128 * 1000 / sized as u128) as u64;
    let fits = FeeRate { sat_per_kvb: steep };
    assert!(fits.fee(sized).unwrap() > u64::MAX - 330);
    assert_eq!(mint_amount(&probe, &p2tr(2), fits), Err(Error::FeeOverflow));
}

#[test]
fn commit_for_one_slot() {
    let utxos = wallet(&[1_000_000]);
    let slots = slots(1);
    let commit = build_commit_transaction(&utxos, &slots, 465, &p2tr(3), rate(1)).unwrap();
    let probe = Transaction {
        version: 1,
        lock_time: 0,
        input: vec![TxIn::unsigned(outpoint(1, 0))],
        output: vec![
            TxOut { value: 465, script_pubkey: slots[0].script_pubkey() },
            TxOut { value: 1_000_000 - 465, script_pubkey: p2tr(3) },
        ],
    };
    assert_eq!(COMMIT_SIGNATURE_VSIZE, 17);
    // 4 + 1 + 41 + 1 + 43 + 43 + 4 = 137 bytes, and no witness yet
    assert_eq!(probe.vsize(), 137);
    assert_eq!(commit.fee, 137 + 17);
    let mut expected = probe.clone();
    expected.output[1].value = 1_000_000 - 465 - 154;
    assert_eq!(commit.tx, expected);
}

#[test]
fn commit_spends_every_output_in_order_and_balances() {
    let mut utxos = UtxoSet::new();
    utxos.insert(outpoint(9, 1), 400_000);
    utxos.insert(outpoint(2, 7), 300_000);
    utxos.insert(outpoint(9, 0), 200_000);
    let slots = slots(5);
    let commit = build_commit_transaction(&utxos, &slots, 1000, &p2tr(3), rate(3)).unwrap();
    let inputs: Vec<OutPoint> = commit.tx.input.iter().map(|i| i.previous_output).collect();
    assert_eq!(inputs, vec![outpoint(2, 7), outpoint(9, 0), outpoint(9, 1)]);
    assert!(commit.tx.input.iter().all(|i| i.sequence == 0xFFFF_FFFD && i.witness.is_empty() && i.script_sig.is_empty()));
    assert_eq!(commit.tx.version, 1);
    assert_eq!(commit.tx.lock_time, 0);
    assert_eq!(commit.tx.output.len(), 6);
    for i in 0..5 {
        assert_eq!(commit.tx.output[i].value, 1000);
        assert_eq!(commit.tx.output[i].script_pubkey, slots[i].script_pubkey());
    }
    assert_eq!(commit.tx.output[5].script_pubkey, p2tr(3));
    let paid: u64 = commit.tx.output.iter().map(|o| o.value).sum();
    assert_eq!(paid + commit.fee, 900_000);
    assert_eq!(commit.fee, 3 * (commit.tx.vsize() + 17));
}

#[test]
fn commit_without_slots_returns_the_change() {
    let utxos = wallet(&[50_000]);
    let commit = build_commit_transaction(&utxos, &vec![], 465, &p2tr(3), rate(1)).unwrap();
    assert_eq!(commit.tx.output.len(), 1);
    assert_eq!(commit.tx.output[0].value + commit.fee, 50_000);
}

#[test]
fn commit_that_the_wallet_cannot_fund_fails() {
    let slots = slots(5);
    let utxos = wallet(&[1000]);
    assert_eq!(
        build_commit_transaction(&utxos, &slots, 1680, &p2tr(3), rate(10)).err(),
        Some(Error::InsufficientFunds)
    );
    // The mint outputs are covered, the fee is not.
    let utxos = wallet(&[5 * 1680 + 100]);
    assert_eq!(
        build_commit_transaction(&utxos, &slots, 1680, &p2tr(3), rate(10)).err(),
        Some(Error::InsufficientFunds)
    );
    // To the satoshi: 309 bytes and the allowance at 10 per byte.
    let utxos = wallet(&[5 * 1680 + 3260]);
    let commit = build_commit_transaction(&utxos, &slots, 1680, &p2tr(3), rate(10)).unwrap();
    assert_eq!(commit.fee, 3260);
    assert_eq!(commit.tx.output[5].value, 0);
    let utxos = wallet(&[5 * 1680 + 3259]);
    assert_eq!(
        build_commit_transaction(&utxos, &slots, 1680, &p2tr(3), rate(10)).err(),
        Some(Error::InsufficientFunds)
    );
}

#[test]
fn commit_with_a_sum_or_a_fee_that_does_not_fit_overflows() {
    let slots = slots(1);
    let utxos = wallet(&[u64::MAX, 1]);
    assert_eq!(
        build_commit_transaction(&utxos, &slots, 465, &p2tr(3), rate(1)).err(),
        Some(Error::FeeOverflow)
    );
    // Thirty inputs make more than a thousand bytes.
    let utxos = wallet(&[1_000_000; 30]);
    assert_eq!(
        build_commit_transaction(&utxos, &slots, 465, &p2tr(3), FeeRate { sat_per_kvb: u64::MAX }).err(),
        Some(Error::FeeOverflow)
    );
    let utxos = wallet(&[1_000_000]);
    assert_eq!(
        build_commit_transaction(&utxos, &slots, 465, &p2tr(3), FeeRate { sat_per_kvb: u64::MAX }).err(),
        Some(Error::InsufficientFunds)
    );
}

#[test]
fn change_over_the_signed_range_fails() {
    let slots = slots(1);
    let utxos = wallet(&[u64::MAX]);
    assert_eq!(
        build_commit_transaction(&utxos, &slots, 465, &p2tr(3), rate(1)).err(),
        Some(Error::InsufficientFunds)
    );
    let utxos = wallet(&[i64::MAX as u64 + 465 + 154]);
    let commit = build_commit_transaction(&utxos, &slots, 465, &p2tr(3), rate(1)).unwrap();
    assert_eq!(commit.tx.output[1].value, i64::MAX as u64);
    let utxos = wallet(&[i64::MAX as u64 + 465 + 155]);
    assert_eq!(
        build_commit_transaction(&utxos, &slots, 465, &p2tr(3), rate(1)).err(),
        Some(Error::InsufficientFunds)
    );
}

#[test]
fn commit_size_does_not_depend_on_the_keys() {
    let utxos = wallet(&[1_000_000]);
    let a: Vec<MintSlot> = (1..=3).map(|i| MintSlot::derive(&text_plain_hi(), key(i)).unwrap()).collect();
    let b: Vec<MintSlot> = (11..=13).map(|i| MintSlot::derive(&text_plain_hi(), key(i)).unwrap()).collect();
    let first = build_commit_transaction(&utxos, &a, 465, &p2tr(3), rate(1)).unwrap();
    let second = build_commit_transaction(&utxos, &b, 465, &p2tr(3), rate(1)).unwrap();
    assert_eq!(first.fee, second.fee);
    assert_eq!(first.tx.vsize(), second.tx.vsize());
    assert_ne!(first.tx.txid(), second.tx.txid());
}
