//! Laws of the curve engine: ratio preservation across deposit and withdraw,
//! and the flooring bias that makes a deposit/withdraw round trip
//! non-increasing.

use vstd::prelude::*;

use crate::curve;
use crate::curve::AssetAmounts;
use crate::error::AmmError;
use crate::pool::{deposit_outcome, withdraw_outcome, Pool};

verus! {

/// Core rounding bound behind ratio preservation: the two floored
/// proportional legs of one operation cross-multiply to within one reserve
/// unit of each other. Writing `dx`, `dy` for the legs,
/// `-y < y * dx - x * dy < x`.
proof fn lemma_cross_rounding_bound(x: int, y: int, l: int, a: int)
    requires
        0 < x,
        0 < y,
        0 < l,
        0 <= a,
    ensures
        -y < y * ((a * x) / l) - x * ((a * y) / l),
        y * ((a * x) / l) - x * ((a * y) / l) < x,
{
    let dx = (a * x) / l;
    let dy = (a * y) / l;
    vstd::arithmetic::div_mod::lemma_fundamental_div_mod(a * x, l);
    vstd::arithmetic::div_mod::lemma_mod_division_less_than_divisor(a * x, l);
    vstd::arithmetic::div_mod::lemma_fundamental_div_mod(a * y, l);
    vstd::arithmetic::div_mod::lemma_mod_division_less_than_divisor(a * y, l);
    assert(-y < y * dx - x * dy < x) by (nonlinear_arith)
        requires
            a * x == l * dx + (a * x) % l,
            0 <= (a * x) % l < l,
            a * y == l * dy + (a * y) % l,
            0 <= (a * y) % l < l,
            0 < x,
            0 < y,
            0 < l;
}

/// Ratio preservation on deposit: for a non-bootstrap deposit against
/// positive reserves and supply, the post-deposit reserve ratio equals the
/// pre-deposit ratio up to one unit of rounding in either asset.
/// Cross-multiplied, the products `(x + dx) * y` and `x * (y + dy)` each
/// fall within one pre-deposit reserve unit of the other.
pub proof fn lemma_deposit_ratio_preservation(
    reserve_x: u64,
    reserve_y: u64,
    share_supply: u64,
    requested_shares: u64,
)
    requires
        0 < reserve_x,
        0 < reserve_y,
        0 < share_supply,
    ensures
        ({
            let dx = curve::proportional_amount(requested_shares, reserve_x, share_supply);
            let dy = curve::proportional_amount(requested_shares, reserve_y, share_supply);
            (reserve_x + dx) * reserve_y < reserve_x * (reserve_y + dy) + reserve_x
                && reserve_x * (reserve_y + dy) < (reserve_x + dx) * reserve_y + reserve_y
        }),
{
    let x = reserve_x as int;
    let y = reserve_y as int;
    let l = share_supply as int;
    let a = requested_shares as int;
    let dx = (a * x) / l;
    let dy = (a * y) / l;
    lemma_cross_rounding_bound(x, y, l, a);
    assert((x + dx) * y < x * (y + dy) + x && x * (y + dy) < (x + dx) * y + y)
        by (nonlinear_arith)
        requires
            -y < y * dx - x * dy < x;
}

/// Ratio preservation on withdraw: burning at most the whole supply against
/// positive reserves keeps the reserve ratio within one unit of rounding in
/// either asset. Cross-multiplied, the products `(x - dx) * y` and
/// `x * (y - dy)` each fall within one pre-withdraw reserve unit of the
/// other.
pub proof fn lemma_withdraw_ratio_preservation(
    reserve_x: u64,
    reserve_y: u64,
    share_supply: u64,
    shares_to_burn: u64,
)
    requires
        0 < reserve_x,
        0 < reserve_y,
        0 < share_supply,
        shares_to_burn <= share_supply,
    ensures
        ({
            let dx = curve::proportional_amount(shares_to_burn, reserve_x, share_supply);
            let dy = curve::proportional_amount(shares_to_burn, reserve_y, share_supply);
            (reserve_x - dx) * reserve_y < reserve_x * (reserve_y - dy) + reserve_y
                && reserve_x * (reserve_y - dy) < (reserve_x - dx) * reserve_y + reserve_x
        }),
{
    let x = reserve_x as int;
    let y = reserve_y as int;
    let l = share_supply as int;
    let a = shares_to_burn as int;
    let dx = (a * x) / l;
    let dy = (a * y) / l;
    lemma_cross_rounding_bound(x, y, l, a);
    assert((x - dx) * y < x * (y - dy) + y && x * (y - dy) < (x - dx) * y + x)
        by (nonlinear_arith)
        requires
            -y < y * dx - x * dy < x;
}

/// Ratio preservation across a successful deposit workflow: the amounts a
/// non-bootstrap deposit moves keep the post-deposit reserve ratio within
/// one unit of rounding of the pre-deposit ratio in either asset.
pub proof fn lemma_pool_deposit_preserves_ratio(
    pre: Pool,
    requested_shares: u64,
    max_x: u64,
    max_y: u64,
)
    requires
        0 < pre.reserve_x,
        0 < pre.reserve_y,
        0 < pre.share_supply,
        deposit_outcome(pre, requested_shares, max_x, max_y) is Ok,
    ensures
        ({
            let moved = deposit_outcome(pre, requested_shares, max_x, max_y)->Ok_0;
            let post_x = pre.reserve_x + moved.x;
            let post_y = pre.reserve_y + moved.y;
            post_x * pre.reserve_y < pre.reserve_x * post_y + pre.reserve_x
                && pre.reserve_x * post_y < post_x * pre.reserve_y + pre.reserve_y
        }),
{
    lemma_deposit_ratio_preservation(
        pre.reserve_x,
        pre.reserve_y,
        pre.share_supply,
        requested_shares,
    );
}

/// Ratio preservation across a successful withdraw workflow: the amounts a
/// withdrawal pays out keep the post-withdraw reserve ratio within one unit
/// of rounding of the pre-withdraw ratio in either asset.
pub proof fn lemma_pool_withdraw_preserves_ratio(
    pre: Pool,
    shares_to_burn: u64,
    min_x: u64,
    min_y: u64,
)
    requires
        0 < pre.reserve_x,
        0 < pre.reserve_y,
        0 < pre.share_supply,
        withdraw_outcome(pre, shares_to_burn, min_x, min_y) is Ok,
    ensures
        ({
            let moved = withdraw_outcome(pre, shares_to_burn, min_x, min_y)->Ok_0;
            let post_x = pre.reserve_x - moved.x;
            let post_y = pre.reserve_y - moved.y;
            post_x * pre.reserve_y < pre.reserve_x * post_y + pre.reserve_y
                && pre.reserve_x * post_y < post_x * pre.reserve_y + pre.reserve_x
        }),
{
    lemma_withdraw_ratio_preservation(
        pre.reserve_x,
        pre.reserve_y,
        pre.share_supply,
        shares_to_burn,
    );
}

/// One leg of the round trip: a floored proportional deposit leg, followed
/// by a floored proportional withdrawal of the same share amount from the
/// grown pool, never exceeds the deposit leg.
proof fn lemma_nested_proportional_le(x: int, l: int, a: int)
    requires
        0 <= x,
        0 < l,
        0 <= a,
    ensures
        (a * (x + (a * x) / l)) / (l + a) <= (a * x) / l,
{
    let dx = (a * x) / l;
    let q = (a * (x + dx)) / (l + a);
    vstd::arithmetic::div_mod::lemma_fundamental_div_mod(a * x, l);
    vstd::arithmetic::div_mod::lemma_mod_division_less_than_divisor(a * x, l);
    vstd::arithmetic::div_mod::lemma_fundamental_div_mod(a * (x + dx), l + a);
    vstd::arithmetic::div_mod::lemma_mod_division_less_than_divisor(a * (x + dx), l + a);
    assert(q <= dx) by (nonlinear_arith)
        requires
            a * x == l * dx + (a * x) % l,
            0 <= (a * x) % l < l,
            a * (x + dx) == (l + a) * q + (a * (x + dx)) % (l + a),
            0 <= (a * (x + dx)) % (l + a) < l + a,
            0 <= x,
            0 < l,
            0 <= a;
}

/// Non-increase on round trip, proportional case: depositing
/// `requested_shares` shares against a pool with positive supply and then
/// immediately withdrawing the same share amount returns no more of either
/// asset than the deposit moved in.
pub proof fn lemma_round_trip_non_increase(
    reserve_x: u64,
    reserve_y: u64,
    share_supply: u64,
    requested_shares: u64,
)
    requires
        0 < share_supply,
    ensures
        ({
            let dx = curve::proportional_amount(requested_shares, reserve_x, share_supply);
            let dy = curve::proportional_amount(requested_shares, reserve_y, share_supply);
            let wx = curve::floor_share(
                requested_shares as int,
                reserve_x + dx,
                share_supply + requested_shares,
            );
            let wy = curve::floor_share(
                requested_shares as int,
                reserve_y + dy,
                share_supply + requested_shares,
            );
            wx <= dx && wy <= dy
        }),
{
    lemma_nested_proportional_le(reserve_x as int, share_supply as int, requested_shares as int);
    lemma_nested_proportional_le(reserve_y as int, share_supply as int, requested_shares as int);
}

/// Non-increase on round trip, bootstrap case: the first deposit sets the
/// reserves to exactly the caller's bounds for `requested_shares` shares,
/// and immediately withdrawing all `requested_shares` shares returns exactly
/// those amounts — never more.
pub proof fn lemma_bootstrap_round_trip(max_x: u64, max_y: u64, requested_shares: u64)
    requires
        0 < requested_shares,
    ensures
        curve::deposit_amounts_spec(0, 0, 0, requested_shares, max_x, max_y) == Ok::<
            AssetAmounts,
            AmmError,
        >((AssetAmounts { x: max_x, y: max_y })),
        curve::proportional_amount(requested_shares, max_x, requested_shares) == max_x,
        curve::proportional_amount(requested_shares, max_y, requested_shares) == max_y,
{
    curve::lemma_proportional_full_supply(max_x, requested_shares);
    curve::lemma_proportional_full_supply(max_y, requested_shares);
}

/// Non-increase on round trip, stated over the workflows: when a deposit of
/// `requested_shares` shares succeeds, and an immediate withdrawal of the
/// same share amount from the grown pool succeeds too, the withdrawal pays
/// out no more of either asset than the deposit moved in.
pub proof fn lemma_pool_round_trip_never_gains(
    pre: Pool,
    requested_shares: u64,
    max_x: u64,
    max_y: u64,
    min_x: u64,
    min_y: u64,
)
    requires
        deposit_outcome(pre, requested_shares, max_x, max_y) is Ok,
    ensures
        ({
            let moved_in = deposit_outcome(pre, requested_shares, max_x, max_y)->Ok_0;
            let mid = Pool {
                config: pre.config,
                reserve_x: (pre.reserve_x + moved_in.x) as u64,
                reserve_y: (pre.reserve_y + moved_in.y) as u64,
                share_supply: (pre.share_supply + requested_shares) as u64,
            };
            withdraw_outcome(mid, requested_shares, min_x, min_y) is Ok ==> {
                let moved_out = withdraw_outcome(mid, requested_shares, min_x, min_y)->Ok_0;
                moved_out.x <= moved_in.x && moved_out.y <= moved_in.y
            }
        }),
{
    if pre.share_supply == 0 {
        lemma_bootstrap_round_trip(max_x, max_y, requested_shares);
    } else {
        lemma_round_trip_non_increase(
            pre.reserve_x,
            pre.reserve_y,
            pre.share_supply,
            requested_shares,
        );
    }
}

} // verus!
