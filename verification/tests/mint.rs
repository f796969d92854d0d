use inscribes::chain::{OutPoint, TxOut, Txid};
use inscribes::error::Error;
use inscribes::fee::FeeRate;
use inscribes::inscription::Inscription;
use inscribes::keys::SecretKey;
use inscribes::mint::{plan_mint, MintPlan};
use inscribes::utxo::UtxoSet;

fn text_plain_hi() -> Inscription {
    Inscription { content_type: Some(b"text/plain".to_vec()), body: Some(b"hi".to_vec()) }
}

fn key(byte: u8) -> SecretKey {
    SecretKey::from_bytes([byte; 32]).unwrap()
}

fn keys(count: u8) -> Vec<SecretKey> {
    (1..=count).map(key).collect()
}

fn p2tr(byte: u8) -> Vec<u8> {
    let mut script = vec![0x51, 0x20];
    script.extend_from_slice(&[byte; 32]);
    script
}

fn p2pkh(byte: u8) -> Vec<u8> {
    let mut script = vec![0x76, 0xa9, 0x14];
    script.extend_from_slice(&[byte; 20]);
    script.extend_from_slice(&[0x88, 0xac]);
    script
}

fn rate(sat_per_vb: u64) -> FeeRate {
    FeeRate::from_sat_per_vb(sat_per_vb).unwrap()
}

fn outpoint(first: u8, vout: u32) -> OutPoint {
    let mut bytes = [0u8; 32];
    bytes[0] = first;
    OutPoint { txid: Txid { bytes }, vout }
}

fn wallet(amounts: &[u64]) -> UtxoSet {
    let mut set = UtxoSet::new();
    for (i, amount) in amounts.iter().enumerate() {
        set.insert(outpoint(i as u8 + 1, 0), *amount);
    }
    set
}

fn plan(amounts: &[u64], count: u8, sat_per_vb: u64) -> Result<MintPlan, Error> {
    plan_mint(
        &text_plain_hi(),
        &wallet(amounts),
        &p2tr(2),
        &p2tr(3),
        rate(sat_per_vb),
        rate(sat_per_vb),
        &key(99),
        &keys(count),
    )
}

#[test]
fn minimal_mint() {
    let plan = plan(&[1_000_000], 1, 1).unwrap();
    assert_eq!(plan.mint_amount, 135 + 330);
    assert_eq!(plan.commit.tx.input.len(), 1);
    assert_eq!(plan.commit.tx.output.len(), 2);
    assert_eq!(plan.commit.fee, 154);
    assert_eq!(plan.commit.tx.output[0].value, 465);
    assert_eq!(plan.commit.tx.output[1].value, 1_000_000 - 465 - 154);
    assert_eq!(plan.reveals.len(), 1);
    assert_eq!(plan.slots.len(), 1);
    let reveal = &plan.reveals[0];
    assert_eq!(reveal.tx.input.len(), 1);
    assert_eq!(reveal.tx.output.len(), 1);
    assert_eq!(reveal.fee, 135);
    assert_eq!(reveal.tx.output, vec![TxOut { value: 330, script_pubkey: p2tr(2) }]);
    assert_eq!(
        reveal.tx.input[0].previous_output,
        OutPoint { txid: plan.commit.tx.txid(), vout: 0 }
    );
    assert_eq!(plan.commit.fee + reveal.fee, plan.commit.tx.vsize() + 17 + 135);
}

#[test]
fn batch_of_five() {
    let plan = plan(&[10_000_000], 5, 1).unwrap();
    assert_eq!(plan.commit.tx.output.len(), 6);
    assert_eq!(plan.reveals.len(), 5);
    let revealed: u64 = plan.reveals.iter().map(|r| r.tx.output[0].value).sum();
    let reveal_fees: u64 = plan.reveals.iter().map(|r| r.fee).sum();
    let change = plan.commit.tx.output[5].value;
    assert_eq!(revealed + reveal_fees + plan.commit.fee + change, 10_000_000);
    for (i, reveal) in plan.reveals.iter().enumerate() {
        assert_eq!(plan.commit.tx.output[i].value, plan.mint_amount);
        assert_eq!(plan.commit.tx.output[i].script_pubkey, plan.slots[i].script_pubkey());
        assert_eq!(reveal.tx.output[0].value, plan.mint_amount - reveal.fee);
        assert_eq!(reveal.tx.input[0].previous_output.vout, i as u32);
        assert_eq!(reveal.tx.input[0].previous_output.txid, plan.commit.tx.txid());
        assert_eq!(
            plan.slots[i].recovery_key.x_only_public_key(),
            plan.slots[i].parts.spend_info.output_key
        );
    }
    let inputs = 10_000_000u64;
    let outputs: u64 = plan.commit.tx.output.iter().map(|o| o.value).sum();
    assert_eq!(inputs, outputs + plan.commit.fee);
}

#[test]
fn insufficient_funds() {
    assert_eq!(plan(&[1000], 5, 10).err(), Some(Error::InsufficientFunds));
}

#[test]
fn plan_is_determined_by_the_keys() {
    let a = plan(&[1_000_000, 20_000], 3, 2).unwrap();
    let b = plan(&[1_000_000, 20_000], 3, 2).unwrap();
    assert_eq!(a.commit.tx, b.commit.tx);
    assert_eq!(a.commit.tx.txid(), b.commit.tx.txid());
    for i in 0..3 {
        assert_eq!(a.reveals[i].tx, b.reveals[i].tx);
        assert_eq!(a.reveals[i].sighash, b.reveals[i].sighash);
        assert_eq!(a.slots[i].key.secret_bytes(), [i as u8 + 1; 32]);
    }
}

#[test]
fn separate_fee_rates() {
    let plan = plan_mint(
        &text_plain_hi(),
        &wallet(&[1_000_000]),
        &p2tr(2),
        &p2tr(3),
        rate(5),
        rate(2),
        &key(99),
        &keys(2),
    )
    .unwrap();
    assert_eq!(plan.mint_amount, 2 * 135 + 330);
    assert_eq!(plan.commit.fee, 5 * (plan.commit.tx.vsize() + 17));
    assert_eq!(plan.reveals[1].fee, 270);
}

#[test]
fn dust_reveal() {
    // The mint amount leaves 330 to each reveal: dust for a pay-to-pubkey-hash destination.
    let r = plan_mint(
        &text_plain_hi(),
        &wallet(&[1_000_000]),
        &p2pkh(2),
        &p2tr(3),
        rate(1),
        rate(1),
        &key(99),
        &keys(1),
    );
    assert_eq!(r.err(), Some(Error::Dust));
}

#[test]
fn plan_without_slots() {
    let plan = plan(&[1_000_000], 0, 1).unwrap();
    assert_eq!(plan.commit.tx.output.len(), 1);
    assert!(plan.reveals.is_empty());
    assert!(plan.slots.is_empty());
    assert_eq!(plan.mint_amount, 465);
}

#[test]
fn fee_overflow_comes_before_the_funds() {
    let heavy = Inscription { content_type: None, body: Some(vec![7u8; 20_000]) };
    let r = plan_mint(
        &heavy,
        &wallet(&[1000]),
        &p2tr(2),
        &p2tr(3),
        rate(1),
        FeeRate { sat_per_kvb: u64::MAX },
        &key(99),
        &keys(1),
    );
    assert_eq!(r.err(), Some(Error::FeeOverflow));
}
