//! The amount bridge: the one place where a mint amount becomes a
//! Lightning amount and back.

use vstd::prelude::*;

use crate::amount::{Amount, LnAmount};

verus! {

/// The Lightning amount that stands for the same satoshis as `amount`.
pub open spec fn to_external(amount: Amount) -> LnAmount {
    LnAmount { sat: amount.sat }
}

/// The mint amount that stands for the same satoshis as `amount`.
pub open spec fn to_internal(amount: LnAmount) -> Amount {
    Amount { sat: amount.sat }
}

/// Converts a mint amount to the Lightning side's type, satoshi for
/// satoshi.
pub fn cashu_crab_amount_to_ln_rs_amount(amount: Amount) -> (out: LnAmount)
    ensures
        out == to_external(amount),
        out.sat == amount.sat,
{
    LnAmount::from_sat(amount.to_sat())
}

/// Converts a Lightning amount to the mint's type, satoshi for satoshi.
pub fn ln_rs_amount_to_cashu_crab_amount(amount: LnAmount) -> (out: Amount)
    ensures
        out == to_internal(amount),
        out.sat == amount.sat,
{
    Amount::from_sat(amount.to_sat())
}

/// Out to the Lightning side and back gives the amount one started with.
pub proof fn lemma_round_trip_internal(amount: Amount)
    ensures
        to_internal(to_external(amount)) == amount,
{
}

/// In from the Lightning side and out again gives the amount one started
/// with.
pub proof fn lemma_round_trip_external(amount: LnAmount)
    ensures
        to_external(to_internal(amount)) == amount,
{
}

/// Every satoshi count survives the bridge in both directions.
pub proof fn lemma_round_trip_sat(sat: u64)
    ensures
        to_internal(to_external(Amount { sat })).sat == sat,
        to_external(to_internal(LnAmount { sat })).sat == sat,
{
}

} // verus!
