use inscribes::error::Error;
use inscribes::fee::FeeRate;

#[test]
fn fee_is_rate_times_size() {
    let rate = FeeRate::from_sat_per_vb(1).unwrap();
    assert_eq!(rate.sat_per_kvb, 1000);
    assert_eq!(rate.fee(100), Ok(100));
    assert_eq!(FeeRate::from_sat_per_vb(10).unwrap().fee(154), Ok(1540));
    assert_eq!(rate.fee(0), Ok(0));
}

#[test]
fn fee_rounds_up_to_a_whole_satoshi() {
    let rate = FeeRate { sat_per_kvb: 1500 };
    assert_eq!(rate.fee(3), Ok(5));
    assert_eq!(rate.fee(2), Ok(3));
    assert_eq!(FeeRate { sat_per_kvb: 1 }.fee(1), Ok(1));
    assert_eq!(FeeRate { sat_per_kvb: 1 }.fee(1000), Ok(1));
    assert_eq!(FeeRate { sat_per_kvb: 1 }.fee(1001), Ok(2));
    assert_eq!(FeeRate { sat_per_kvb: 0 }.fee(1001), Ok(0));
}

#[test]
fn fee_that_does_not_fit_overflows() {
    let rate = FeeRate { sat_per_kvb: u64::MAX };
    assert_eq!(rate.fee(1001), Err(Error::FeeOverflow));
    assert_eq!(rate.fee(u64::MAX), Err(Error::FeeOverflow));
    assert_eq!(rate.fee(1000), Ok(u64::MAX));
    assert_eq!(rate.fee(1), Ok(18_446_744_073_709_552));
}

#[test]
fn rate_per_byte_must_fit_per_kilobyte() {
    assert_eq!(FeeRate::from_sat_per_vb(u64::MAX / 1000).unwrap().sat_per_kvb, u64::MAX / 1000 * 1000);
    assert!(FeeRate::from_sat_per_vb(u64::MAX / 1000 + 1).is_none());
    assert!(FeeRate::from_sat_per_vb(u64::MAX).is_none());
}
