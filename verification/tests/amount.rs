use cashu_mint_ln::amount::{Amount, LnAmount, MSAT_PER_SAT};
use cashu_mint_ln::utils::{cashu_crab_amount_to_ln_rs_amount, ln_rs_amount_to_cashu_crab_amount};

#[test]
fn amount_from_sat_to_sat() {
    assert_eq!(Amount::from_sat(1000).to_sat(), 1000);
    assert_eq!(LnAmount::from_sat(1000).to_sat(), 1000);
    assert_eq!(Amount::from_sat(0).to_sat(), 0);
    assert_eq!(LnAmount::from_sat(u64::MAX).to_sat(), u64::MAX);
}

#[test]
fn amount_from_msat_truncates() {
    assert_eq!(Amount::from_msat(1999).to_sat(), 1);
    assert_eq!(Amount::from_msat(2000).to_sat(), 2);
    assert_eq!(Amount::from_msat(999).to_sat(), 0);
    assert_eq!(LnAmount::from_msat(1_000_500).to_sat(), 1000);
    assert_eq!(LnAmount::from_msat(u64::MAX).to_sat(), u64::MAX / 1000);
}

#[test]
fn amount_to_msat_exact_or_none() {
    assert_eq!(MSAT_PER_SAT, 1000);
    assert_eq!(Amount::from_sat(21).to_msat(), Some(21_000));
    assert_eq!(LnAmount::from_sat(0).to_msat(), Some(0));
    let largest = u64::MAX / 1000;
    assert_eq!(Amount::from_sat(largest).to_msat(), Some(largest * 1000));
    assert_eq!(Amount::from_sat(largest + 1).to_msat(), None);
    assert_eq!(LnAmount::from_sat(u64::MAX).to_msat(), None);
}

#[test]
fn amount_msat_round_trip_keeps_whole_satoshis() {
    for sat in [0u64, 1, 999, 1000, 123_456_789, u64::MAX / 1000] {
        let msat = Amount::from_sat(sat).to_msat().unwrap();
        assert_eq!(Amount::from_msat(msat), Amount::from_sat(sat));
        let msat = LnAmount::from_sat(sat).to_msat().unwrap();
        assert_eq!(LnAmount::from_msat(msat), LnAmount::from_sat(sat));
    }
}

#[test]
fn amount_default_is_zero() {
    assert_eq!(Amount::default(), Amount::from_sat(0));
    assert_eq!(LnAmount::default(), LnAmount::from_sat(0));
}

#[test]
fn bridge_preserves_satoshis() {
    assert_eq!(cashu_crab_amount_to_ln_rs_amount(Amount::from_sat(1000)), LnAmount::from_sat(1000));
    assert_eq!(ln_rs_amount_to_cashu_crab_amount(LnAmount::from_sat(1000)), Amount::from_sat(1000));
    assert_eq!(cashu_crab_amount_to_ln_rs_amount(Amount::from_sat(0)).to_sat(), 0);
    assert_eq!(ln_rs_amount_to_cashu_crab_amount(LnAmount::from_sat(u64::MAX)).to_sat(), u64::MAX);
}

#[test]
fn bridge_round_trip_both_ways() {
    for sat in [0u64, 1, 7, 1000, 2_100_000_000_000_000, u64::MAX] {
        let inner = Amount::from_sat(sat);
        assert_eq!(
            ln_rs_amount_to_cashu_crab_amount(cashu_crab_amount_to_ln_rs_amount(inner)),
            inner
        );
        let outer = LnAmount::from_sat(sat);
        assert_eq!(
            cashu_crab_amount_to_ln_rs_amount(ln_rs_amount_to_cashu_crab_amount(outer)),
            outer
        );
    }
}

#[test]
fn amounts_order_by_satoshis() {
    assert!(Amount::from_sat(1) < Amount::from_sat(2));
    assert!(LnAmount::from_sat(1000) > LnAmount::from_sat(999));
    assert!(Amount::from_sat(5) <= Amount::from_sat(5));
    assert_eq!(Amount::from_sat(3).max(Amount::from_sat(7)), Amount::from_sat(7));
}
