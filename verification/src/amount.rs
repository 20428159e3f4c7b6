//! The two satoshi amount types that meet in this layer: the mint's own
//! and the Lightning side's.
//!
//! Both count whole satoshis. Millisatoshi values enter only through
//! `from_msat`, which truncates, and leave only through `to_msat`.

use vstd::prelude::*;

verus! {

/// Millisatoshis in one satoshi.
pub const MSAT_PER_SAT: u64 = 1000;

/// The satoshis that `msat` millisatoshis hold, the remainder dropped.
pub open spec fn msat_to_sat(msat: u64) -> u64 {
    msat / MSAT_PER_SAT
}

/// Number of satoshis, as the mint's token logic counts value.
#[derive(Debug, Clone, Copy, PartialEq, Eq, Structural, PartialOrd, Ord, Hash)]
pub struct Amount {
    pub sat: u64,
}

impl Amount {
    /// The amount of `sat` satoshis.
    pub fn from_sat(sat: u64) -> (amount: Self)
        ensures
            amount == (Amount { sat }),
    {
        Amount { sat }
    }

    /// The amount in satoshis.
    pub fn to_sat(&self) -> (sat: u64)
        ensures
            sat == self.sat,
    {
        self.sat
    }

    /// The whole satoshis in `msat` millisatoshis. What is below one
    /// satoshi is cut off, never rounded up.
    pub fn from_msat(msat: u64) -> (amount: Self)
        ensures
            amount == (Amount { sat: msat_to_sat(msat) }),
            amount.sat * MSAT_PER_SAT <= msat < (amount.sat + 1) * MSAT_PER_SAT,
    {
        Amount { sat: msat / MSAT_PER_SAT }
    }

    /// The amount in millisatoshis, or `None` where that does not fit in
    /// 64 bits.
    pub fn to_msat(&self) -> (msat: Option<u64>)
        ensures
            match msat {
                Some(m) => m == self.sat * MSAT_PER_SAT,
                None => self.sat * MSAT_PER_SAT > u64::MAX,
            },
    {
        self.sat.checked_mul(MSAT_PER_SAT)
    }
}

impl Default for Amount {
    /// The zero amount.
    fn default() -> (amount: Self)
        ensures
            amount == (Amount { sat: 0 }),
    {
        Amount { sat: 0 }
    }
}

/// Number of satoshis, as the Lightning side counts value.
#[derive(Debug, Clone, Copy, PartialEq, Eq, Structural, PartialOrd, Ord, Hash)]
pub struct LnAmount {
    pub sat: u64,
}

impl LnAmount {
    /// The amount of `sat` satoshis.
    pub fn from_sat(sat: u64) -> (amount: Self)
        ensures
            amount == (LnAmount { sat }),
    {
        LnAmount { sat }
    }

    /// The amount in satoshis.
    pub fn to_sat(&self) -> (sat: u64)
        ensures
            sat == self.sat,
    {
        self.sat
    }

    /// The whole satoshis in `msat` millisatoshis. What is below one
    /// satoshi is cut off, never rounded up.
    pub fn from_msat(msat: u64) -> (amount: Self)
        ensures
            amount == (LnAmount { sat: msat_to_sat(msat) }),
            amount.sat * MSAT_PER_SAT <= msat < (amount.sat + 1) * MSAT_PER_SAT,
    {
        LnAmount { sat: msat / MSAT_PER_SAT }
    }

    /// The amount in millisatoshis, or `None` where that does not fit in
    /// 64 bits.
    pub fn to_msat(&self) -> (msat: Option<u64>)
        ensures
            match msat {
                Some(m) => m == self.sat * MSAT_PER_SAT,
                None => self.sat * MSAT_PER_SAT > u64::MAX,
            },
    {
        self.sat.checked_mul(MSAT_PER_SAT)
    }
}

impl Default for LnAmount {
    /// The zero amount.
    fn default() -> (amount: Self)
        ensures
            amount == (LnAmount { sat: 0 }),
    {
        LnAmount { sat: 0 }
    }
}

/// Going to millisatoshis and back loses nothing: truncation only ever
/// drops what was below one satoshi.
pub proof fn lemma_msat_round_trip(sat: u64)
    requires
        sat * MSAT_PER_SAT <= u64::MAX,
    ensures
        msat_to_sat((sat * MSAT_PER_SAT) as u64) == sat,
{
}

} // verus!
