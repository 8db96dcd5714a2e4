//! Curve engine: pure constant-product pricing of deposits and withdrawals.
//!
//! Both legs of both operations floor their quotient. The pool therefore
//! never gives out more value than strictly proportional to the share delta,
//! so cumulative rounding cannot drain the reserves below solvency.

use vstd::prelude::*;

use crate::error::AmmError;

verus! {

/// Paired amounts of the two pooled assets.
#[derive(Clone, Copy, Debug, PartialEq, Eq, Structural)]
pub struct AssetAmounts {
    pub x: u64,
    pub y: u64,
}

/// Mathematical value of one proportional leg: floor(shares * reserve / supply).
pub open spec fn floor_share(shares: int, reserve: int, supply: int) -> int
    recommends
        supply > 0,
{
    (shares * reserve) / supply
}

/// The proportional leg on machine words, as an unbounded integer.
pub open spec fn proportional_amount(shares: u64, reserve: u64, supply: u64) -> int
    recommends
        supply > 0,
{
    floor_share(shares as int, reserve as int, supply as int)
}

/// Exact result of pricing a deposit of `requested_shares` new shares.
///
/// With zero supply and both reserves zero (bootstrap), the caller's upper
/// bounds become the amounts verbatim and set the pool's initial price ratio.
/// A zero supply beside a non-empty reserve cannot arise under the pool
/// invariant and is refused defensively. Otherwise each leg is the floored
/// proportional amount, refused when it does not fit in 64 bits.
pub open spec fn deposit_amounts_spec(
    reserve_x: u64,
    reserve_y: u64,
    share_supply: u64,
    requested_shares: u64,
    max_x: u64,
    max_y: u64,
) -> Result<AssetAmounts, AmmError> {
    if share_supply == 0 {
        if reserve_x == 0 && reserve_y == 0 {
            Ok(AssetAmounts { x: max_x, y: max_y })
        } else {
            Err(AmmError::ArithmeticError)
        }
    } else {
        let dx = proportional_amount(requested_shares, reserve_x, share_supply);
        let dy = proportional_amount(requested_shares, reserve_y, share_supply);
        if dx <= u64::MAX && dy <= u64::MAX {
            Ok(AssetAmounts { x: dx as u64, y: dy as u64 })
        } else {
            Err(AmmError::ArithmeticError)
        }
    }
}

/// Exact result of pricing a withdrawal burning `shares_to_burn` shares.
///
/// An empty pool has nothing to redeem; otherwise each leg is the floored
/// proportional amount, refused when it does not fit in 64 bits.
pub open spec fn withdraw_amounts_spec(
    reserve_x: u64,
    reserve_y: u64,
    share_supply: u64,
    shares_to_burn: u64,
) -> Result<AssetAmounts, AmmError> {
    if share_supply == 0 {
        Err(AmmError::InsufficientSupplyError)
    } else {
        let dx = proportional_amount(shares_to_burn, reserve_x, share_supply);
        let dy = proportional_amount(shares_to_burn, reserve_y, share_supply);
        if dx <= u64::MAX && dy <= u64::MAX {
            Ok(AssetAmounts { x: dx as u64, y: dy as u64 })
        } else {
            Err(AmmError::ArithmeticError)
        }
    }
}

/// Amounts of each asset that must move into the pool for a deposit of
/// `requested_shares` new shares, per `deposit_amounts_spec`.
///
/// `precision` is the share token's decimal scaling; the proportional legs
/// are exact integer computations and do not consult it.
#[allow(unused_variables)]
pub fn deposit_amounts(
    reserve_x: u64,
    reserve_y: u64,
    share_supply: u64,
    requested_shares: u64,
    max_x: u64,
    max_y: u64,
    precision: u32,
) -> (r: Result<AssetAmounts, AmmError>)
    ensures
        r == deposit_amounts_spec(reserve_x, reserve_y, share_supply, requested_shares, max_x, max_y),
        share_supply == 0 && reserve_x == 0 && reserve_y == 0 ==> r == Ok::<AssetAmounts, AmmError>(
            (AssetAmounts { x: max_x, y: max_y }),
        ),
{
    if share_supply == 0 {
        if reserve_x == 0 && reserve_y == 0 {
            return Ok(AssetAmounts { x: max_x, y: max_y });
        }
        return Err(AmmError::ArithmeticError);
    }
    proof {
        assert((requested_shares as int) * (reserve_x as int) <= u64::MAX * u64::MAX)
            by (nonlinear_arith);
        assert((requested_shares as int) * (reserve_y as int) <= u64::MAX * u64::MAX)
            by (nonlinear_arith);
    }
    let wide_x: u128 = (requested_shares as u128) * (reserve_x as u128);
    let wide_y: u128 = (requested_shares as u128) * (reserve_y as u128);
    let qx: u128 = wide_x / (share_supply as u128);
    let qy: u128 = wide_y / (share_supply as u128);
    if qx > u64::MAX as u128 || qy > u64::MAX as u128 {
        return Err(AmmError::ArithmeticError);
    }
    Ok(AssetAmounts { x: qx as u64, y: qy as u64 })
}

/// Amounts of each asset owed for burning `shares_to_burn` shares, per
/// `withdraw_amounts_spec`.
///
/// `precision` is the share token's decimal scaling; the proportional legs
/// are exact integer computations and do not consult it.
#[allow(unused_variables)]
pub fn withdraw_amounts(
    reserve_x: u64,
    reserve_y: u64,
    share_supply: u64,
    shares_to_burn: u64,
    precision: u32,
) -> (r: Result<AssetAmounts, AmmError>)
    ensures
        r == withdraw_amounts_spec(reserve_x, reserve_y, share_supply, shares_to_burn),
        share_supply == 0 <==> r == Err::<AssetAmounts, AmmError>(AmmError::InsufficientSupplyError),
{
    if share_supply == 0 {
        return Err(AmmError::InsufficientSupplyError);
    }
    proof {
        assert((shares_to_burn as int) * (reserve_x as int) <= u64::MAX * u64::MAX)
            by (nonlinear_arith);
        assert((shares_to_burn as int) * (reserve_y as int) <= u64::MAX * u64::MAX)
            by (nonlinear_arith);
    }
    let wide_x: u128 = (shares_to_burn as u128) * (reserve_x as u128);
    let wide_y: u128 = (shares_to_burn as u128) * (reserve_y as u128);
    let qx: u128 = wide_x / (share_supply as u128);
    let qy: u128 = wide_y / (share_supply as u128);
    if qx > u64::MAX as u128 || qy > u64::MAX as u128 {
        return Err(AmmError::ArithmeticError);
    }
    Ok(AssetAmounts { x: qx as u64, y: qy as u64 })
}

/// A burn of at most the whole supply never exceeds the reserve:
/// `shares <= supply` implies `floor(shares * reserve / supply) <= reserve`.
pub proof fn lemma_proportional_le_reserve(shares: u64, reserve: u64, supply: u64)
    requires
        0 < supply,
        shares <= supply,
    ensures
        0 <= proportional_amount(shares, reserve, supply) <= reserve,
{
    let s = shares as int;
    let r = reserve as int;
    let l = supply as int;
    let q = (s * r) / l;
    vstd::arithmetic::div_mod::lemma_fundamental_div_mod(s * r, l);
    vstd::arithmetic::div_mod::lemma_mod_division_less_than_divisor(s * r, l);
    assert(0 <= q <= r) by (nonlinear_arith)
        requires
            s * r == l * q + (s * r) % l,
            0 <= (s * r) % l < l,
            0 <= s <= l,
            0 <= r;
}

/// Burning strictly fewer shares than the supply leaves a positive reserve
/// strictly positive: `shares < supply` and `reserve > 0` put the floored
/// proportional amount strictly below the reserve.
pub proof fn lemma_proportional_lt_reserve(shares: u64, reserve: u64, supply: u64)
    requires
        0 < supply,
        shares < supply,
        0 < reserve,
    ensures
        0 <= proportional_amount(shares, reserve, supply) < reserve,
{
    let s = shares as int;
    let r = reserve as int;
    let l = supply as int;
    let q = (s * r) / l;
    vstd::arithmetic::div_mod::lemma_fundamental_div_mod(s * r, l);
    vstd::arithmetic::div_mod::lemma_mod_division_less_than_divisor(s * r, l);
    assert(0 <= q < r) by (nonlinear_arith)
        requires
            s * r == l * q + (s * r) % l,
            0 <= (s * r) % l < l,
            0 <= s < l,
            0 < r;
}

/// Burning the whole supply drains the reserve exactly:
/// `floor(supply * reserve / supply) == reserve`.
pub proof fn lemma_proportional_full_supply(reserve: u64, supply: u64)
    requires
        0 < supply,
    ensures
        proportional_amount(supply, reserve, supply) == reserve,
{
    vstd::arithmetic::div_mod::lemma_div_multiples_vanish(reserve as int, supply as int);
}

} // verus!
