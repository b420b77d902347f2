use amm::constants::LP_DECIMALS;
use amm::curve::deposit_amounts_from_share;
use amm::curve::withdraw_amounts_from_share;
use amm::curve::CurveError;

#[test]
fn deposit_amounts_exact_ratio() {
    // 10% of the supply costs exactly 10% of each reserve.
    let r = deposit_amounts_from_share(100, 200, 100, 10, LP_DECIMALS).unwrap();
    assert_eq!(r.x, 10);
    assert_eq!(r.y, 20);
}

#[test]
fn deposit_amounts_round_up() {
    // ceil(10 * 1 / 3) = 4, ceil(20 * 1 / 3) = 7.
    let r = deposit_amounts_from_share(10, 20, 3, 1, LP_DECIMALS).unwrap();
    assert_eq!(r.x, 4);
    assert_eq!(r.y, 7);
}

#[test]
fn withdraw_amounts_round_down() {
    // floor(10 * 1 / 3) = 3, floor(20 * 1 / 3) = 6.
    let r = withdraw_amounts_from_share(10, 20, 3, 1, LP_DECIMALS).unwrap();
    assert_eq!(r.x, 3);
    assert_eq!(r.y, 6);
}

#[test]
fn withdraw_amounts_proportional() {
    // floor(500 * 25 / 100) = 125, floor(301 * 25 / 100) = 75.
    let r = withdraw_amounts_from_share(500, 301, 100, 25, LP_DECIMALS).unwrap();
    assert_eq!(r.x, 125);
    assert_eq!(r.y, 75);
}

#[test]
fn zero_supply_is_rejected() {
    let r = deposit_amounts_from_share(10, 20, 0, 1, LP_DECIMALS);
    assert_eq!(r, Err(CurveError::ZeroSupply));
    let r = withdraw_amounts_from_share(10, 20, 0, 1, LP_DECIMALS);
    assert_eq!(r, Err(CurveError::ZeroSupply));
}

#[test]
fn overflowing_amounts_are_rejected() {
    // ceil(u64::MAX * 2 / 1) does not fit in a 64-bit balance.
    let r = deposit_amounts_from_share(u64::MAX, 1, 1, 2, LP_DECIMALS);
    assert_eq!(r, Err(CurveError::Overflow));
    let r = withdraw_amounts_from_share(u64::MAX, 1, 1, 2, LP_DECIMALS);
    assert_eq!(r, Err(CurveError::Overflow));
}

#[test]
fn round_trip_never_gains() {
    // Deposit 7 shares on a (1000, 333, 101) pool, then burn the same 7.
    let put = deposit_amounts_from_share(1000, 333, 101, 7, LP_DECIMALS).unwrap();
    let back = withdraw_amounts_from_share(
        1000 + put.x,
        333 + put.y,
        101 + 7,
        7,
        LP_DECIMALS,
    )
    .unwrap();
    assert!(back.x <= put.x);
    assert!(back.y <= put.y);
}
