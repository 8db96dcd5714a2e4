use amm::curve::{deposit_amounts, withdraw_amounts, AssetAmounts};
use amm::error::AmmError;

const PRECISION: u32 = 6;

#[test]
fn proportional_deposit_scenario() {
    // Reserves (1,000,000, 2,000,000), supply 1,000 shares, request 10 shares.
    let r = deposit_amounts(1_000_000, 2_000_000, 1_000, 10, u64::MAX, u64::MAX, PRECISION);
    assert_eq!(r, Ok(AssetAmounts { x: 10_000, y: 20_000 }));
}

#[test]
fn proportional_withdraw_scenario() {
    let r = withdraw_amounts(1_000_000, 2_000_000, 1_000, 10, PRECISION);
    assert_eq!(r, Ok(AssetAmounts { x: 10_000, y: 20_000 }));
}

#[test]
fn bootstrap_returns_bounds_exactly() {
    let r = deposit_amounts(0, 0, 0, 7, 500, 1_500, PRECISION);
    assert_eq!(r, Ok(AssetAmounts { x: 500, y: 1_500 }));
}

#[test]
fn bootstrap_ignores_relative_magnitude() {
    // The larger bound may sit on either asset; the amounts are verbatim.
    let r = deposit_amounts(0, 0, 0, 1, 1_500, 500, PRECISION);
    assert_eq!(r, Ok(AssetAmounts { x: 1_500, y: 500 }));
    let r = deposit_amounts(0, 0, 0, 1, 0, 9, PRECISION);
    assert_eq!(r, Ok(AssetAmounts { x: 0, y: 9 }));
}

#[test]
fn deposit_legs_floor() {
    // 1 share of supply 3 against reserves (10, 20): floor(10/3), floor(20/3).
    let r = deposit_amounts(10, 20, 3, 1, u64::MAX, u64::MAX, PRECISION);
    assert_eq!(r, Ok(AssetAmounts { x: 3, y: 6 }));
}

#[test]
fn withdraw_legs_floor() {
    let r = withdraw_amounts(10, 20, 3, 1, PRECISION);
    assert_eq!(r, Ok(AssetAmounts { x: 3, y: 6 }));
}

#[test]
fn zero_supply_beside_nonempty_reserve_is_refused() {
    // Unreachable under the pool invariant, but checked defensively.
    let r = deposit_amounts(5, 0, 0, 1, 10, 10, PRECISION);
    assert_eq!(r, Err(AmmError::ArithmeticError));
    let r = deposit_amounts(0, 5, 0, 1, 10, 10, PRECISION);
    assert_eq!(r, Err(AmmError::ArithmeticError));
}

#[test]
fn deposit_wide_overflow_is_refused() {
    // floor(MAX * MAX / 1) does not fit in 64 bits.
    let r = deposit_amounts(u64::MAX, 1, 1, u64::MAX, u64::MAX, u64::MAX, PRECISION);
    assert_eq!(r, Err(AmmError::ArithmeticError));
}

#[test]
fn withdraw_wide_overflow_is_refused() {
    let r = withdraw_amounts(u64::MAX, 1, 1, u64::MAX, PRECISION);
    assert_eq!(r, Err(AmmError::ArithmeticError));
}

#[test]
fn withdraw_from_empty_pool_is_refused() {
    let r = withdraw_amounts(0, 0, 0, 1, PRECISION);
    assert_eq!(r, Err(AmmError::InsufficientSupplyError));
}

#[test]
fn ratio_preserved_within_rounding_on_deposit() {
    // Uneven numbers, so both legs actually round down.
    let (x, y, l) = (1_000_003u64, 2_000_001u64, 997u64);
    let a = deposit_amounts(x, y, l, 31, u64::MAX, u64::MAX, PRECISION).unwrap();
    let xw = x as u128;
    let yw = y as u128;
    // Cross-multiplied: (x + dx) * y within one reserve unit of x * (y + dy).
    let lhs = (xw + a.x as u128) * yw;
    let rhs = xw * (yw + a.y as u128);
    assert!(lhs < rhs + xw);
    assert!(rhs < lhs + yw);
}

#[test]
fn ratio_preserved_within_rounding_on_withdraw() {
    let (x, y, l) = (1_000_003u64, 2_000_001u64, 997u64);
    let a = withdraw_amounts(x, y, l, 31, PRECISION).unwrap();
    let xw = x as u128;
    let yw = y as u128;
    let lhs = (xw - a.x as u128) * yw;
    let rhs = xw * (yw - a.y as u128);
    assert!(lhs < rhs + yw);
    assert!(rhs < lhs + xw);
}

#[test]
fn round_trip_returns_no_more_than_contributed() {
    let (x, y, l, n) = (1_000_003u64, 2_000_001u64, 997u64, 31u64);
    let d = deposit_amounts(x, y, l, n, u64::MAX, u64::MAX, PRECISION).unwrap();
    let w = withdraw_amounts(x + d.x, y + d.y, l + n, n, PRECISION).unwrap();
    assert!(w.x <= d.x);
    assert!(w.y <= d.y);
}
