//! Fee rates and the fee of a transaction of a given size.

use crate::error::Error;
use vstd::prelude::*;

verus! {

/// A fee rate in satoshis per thousand virtual bytes.
#[derive(Clone, Copy, Debug, PartialEq, Eq)]
pub struct FeeRate {
    pub sat_per_kvb: u64,
}

/// The fee of `vsize` virtual bytes at `rate`: the product, rounded up to a
/// whole satoshi.
pub open spec fn fee_of(rate: FeeRate, vsize: nat) -> nat {
    ((rate.sat_per_kvb * vsize + 999) / 1000) as nat
}

impl FeeRate {
    /// The rate of `sat_per_vb` satoshis per virtual byte, if it fits.
    pub fn from_sat_per_vb(sat_per_vb: u64) -> (rate: Option<FeeRate>)
        ensures
            rate is Some <==> sat_per_vb * 1000 <= u64::MAX,
            rate is Some ==> rate->0.sat_per_kvb == sat_per_vb * 1000,
    {
        if sat_per_vb <= u64::MAX / 1000 {
            Some(FeeRate { sat_per_kvb: sat_per_vb * 1000 })
        } else {
            None
        }
    }

    /// The fee of a transaction of `vsize` virtual bytes, or `FeeOverflow`
    /// where it does not fit in 64 bits.
    pub fn fee(&self, vsize: u64) -> (r: Result<u64, Error>)
        ensures
            fee_of(*self, vsize as nat) <= u64::MAX ==> r == Ok::<u64, Error>(
                fee_of(*self, vsize as nat) as u64,
            ),
            fee_of(*self, vsize as nat) > u64::MAX ==> r == Err::<u64, Error>(Error::FeeOverflow),
    {
        let rate: u128 = self.sat_per_kvb as u128;
        let size: u128 = vsize as u128;
        assert(rate * size <= 0xFFFF_FFFF_FFFF_FFFF * 0xFFFF_FFFF_FFFF_FFFF) by (nonlinear_arith)
            requires
                0 <= rate <= 0xFFFF_FFFF_FFFF_FFFF,
                0 <= size <= 0xFFFF_FFFF_FFFF_FFFF,
        ;
        let fee: u128 = (rate * size + 999) / 1000;
        if fee > u64::MAX as u128 {
            Err(Error::FeeOverflow)
        } else {
            Ok(fee as u64)
        }
    }
}

} // verus!
