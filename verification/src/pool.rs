//! Pool record and the initialization, deposit and withdraw workflows.
//!
//! A `Pool` bundles the persistent configuration with the two reserves and
//! the issued share supply. The workflows validate the lock gate and the
//! caller's tolerances, delegate the pricing to the curve engine, and apply
//! the resulting movement to the record; every check precedes every state
//! change, so a failing call leaves the record untouched. Actually moving
//! assets on a ledger is the host's business: the returned `AssetAmounts`
//! tell it exactly what to move.

use vstd::prelude::*;

use crate::curve;
use crate::curve::AssetAmounts;
use crate::error::AmmError;

verus! {

/// Decimal scaling of the share token, handed to the curve engine.
pub const SHARE_PRECISION: u32 = 6;

/// Identity and policy record of one pool, created once by `Pool::init`.
#[derive(Clone, Copy, Debug, PartialEq, Eq)]
pub struct PoolConfig {
    /// Disambiguates multiple pools over the same asset pair; part of the
    /// pool's deterministic identity.
    pub seed: u64,
    /// Optional administrative owner, read by collaborators outside this
    /// core (for instance to toggle the lock); never mutated here.
    pub authority: Option<u64>,
    /// Identifier of the first pooled asset; immutable after creation.
    pub asset_x_id: u64,
    /// Identifier of the second pooled asset; immutable after creation.
    pub asset_y_id: u64,
    /// Fee parameter, stored but not applied by deposit or withdraw.
    pub fee: u16,
    /// Lock gate: when set, deposit and withdraw are refused.
    pub locked: bool,
    /// Address-derivation artifact of the configuration record, owned by the
    /// external derivation collaborator and opaque to the pool math.
    pub config_bump: u8,
    /// Address-derivation artifact of the share mint, likewise opaque.
    pub share_bump: u8,
}

/// One pool: its configuration, its two reserves and its share supply.
#[derive(Clone, Copy, Debug, PartialEq, Eq)]
pub struct Pool {
    pub config: PoolConfig,
    /// Pool-held balance of the first asset.
    pub reserve_x: u64,
    /// Pool-held balance of the second asset.
    pub reserve_y: u64,
    /// Total issued amount of the share token.
    pub share_supply: u64,
}

/// Exact outcome of a deposit of `requested_shares` shares against `pre`,
/// bounded by the caller's tolerances `max_x` and `max_y`.
pub open spec fn deposit_outcome(
    pre: Pool,
    requested_shares: u64,
    max_x: u64,
    max_y: u64,
) -> Result<AssetAmounts, AmmError> {
    if pre.config.locked {
        Err(AmmError::PoolLocked)
    } else if requested_shares == 0 {
        Err(AmmError::InvalidAmount)
    } else {
        match curve::deposit_amounts_spec(
            pre.reserve_x,
            pre.reserve_y,
            pre.share_supply,
            requested_shares,
            max_x,
            max_y,
        ) {
            Err(e) => Err(e),
            Ok(a) => if a.x > max_x || a.y > max_y {
                Err(AmmError::SlippageExceeded)
            } else if pre.reserve_x + a.x > u64::MAX || pre.reserve_y + a.y > u64::MAX
                || pre.share_supply + requested_shares > u64::MAX {
                Err(AmmError::ArithmeticError)
            } else {
                Ok(a)
            },
        }
    }
}

/// Exact outcome of a withdrawal burning `shares_to_burn` shares against
/// `pre`, bounded from below by the caller's tolerances `min_x` and `min_y`.
pub open spec fn withdraw_outcome(
    pre: Pool,
    shares_to_burn: u64,
    min_x: u64,
    min_y: u64,
) -> Result<AssetAmounts, AmmError> {
    if pre.config.locked {
        Err(AmmError::PoolLocked)
    } else if shares_to_burn == 0 || (min_x == 0 && min_y == 0) {
        Err(AmmError::InvalidAmount)
    } else {
        match curve::withdraw_amounts_spec(
            pre.reserve_x,
            pre.reserve_y,
            pre.share_supply,
            shares_to_burn,
        ) {
            Err(e) => Err(e),
            Ok(a) => if a.x < min_x || a.y < min_y {
                Err(AmmError::SlippageExceeded)
            } else if shares_to_burn > pre.share_supply {
                Err(AmmError::ArithmeticError)
            } else {
                Ok(a)
            },
        }
    }
}

impl Pool {
    /// A pool is wholly empty or wholly non-empty: the share supply is zero
    /// exactly when both reserves are zero.
    pub open spec fn wf(self) -> bool {
        self.share_supply == 0 <==> (self.reserve_x == 0 && self.reserve_y == 0)
    }

    /// An empty pool awaiting its first, ratio-setting deposit.
    pub open spec fn is_bootstrap(self) -> bool {
        self.share_supply == 0 && self.reserve_x == 0 && self.reserve_y == 0
    }

    /// Creates the configuration record of a new pool: unlocked, with zero
    /// reserves and zero share supply.
    pub fn init(
        seed: u64,
        asset_x_id: u64,
        asset_y_id: u64,
        fee: u16,
        authority: Option<u64>,
        config_bump: u8,
        share_bump: u8,
    ) -> (pool: Pool)
        ensures
            pool.config == (PoolConfig {
                seed,
                authority,
                asset_x_id,
                asset_y_id,
                fee,
                locked: false,
                config_bump,
                share_bump,
            }),
            pool.reserve_x == 0,
            pool.reserve_y == 0,
            pool.share_supply == 0,
            pool.is_bootstrap(),
            pool.wf(),
    {
        Pool {
            config: PoolConfig {
                seed,
                authority,
                asset_x_id,
                asset_y_id,
                fee,
                locked: false,
                config_bump,
                share_bump,
            },
            reserve_x: 0,
            reserve_y: 0,
            share_supply: 0,
        }
    }

    /// Deposit workflow: issues `requested_shares` new shares against both
    /// reserves, moving at most `max_x` of the first asset and `max_y` of
    /// the second. On success the returned amounts have been added to the
    /// reserves and must be collected from the depositor; the shares must be
    /// minted to the depositor. On failure the record is unchanged.
    pub fn deposit(&mut self, requested_shares: u64, max_x: u64, max_y: u64) -> (r: Result<
        AssetAmounts,
        AmmError,
    >)
        ensures
            r == deposit_outcome(*old(self), requested_shares, max_x, max_y),
            r is Err ==> *final(self) == *old(self),
            r is Ok ==> final(self).config == old(self).config
                && final(self).reserve_x == old(self).reserve_x + r->Ok_0.x
                && final(self).reserve_y == old(self).reserve_y + r->Ok_0.y
                && final(self).share_supply == old(self).share_supply + requested_shares,
            old(self).config.locked ==> r == Err::<AssetAmounts, AmmError>(AmmError::PoolLocked),
            !old(self).config.locked && requested_shares == 0 ==> r == Err::<
                AssetAmounts,
                AmmError,
            >(AmmError::InvalidAmount),
            !old(self).config.locked && requested_shares != 0 && ({
                let c = curve::deposit_amounts_spec(
                    old(self).reserve_x,
                    old(self).reserve_y,
                    old(self).share_supply,
                    requested_shares,
                    max_x,
                    max_y,
                );
                c is Ok && (c->Ok_0.x > max_x || c->Ok_0.y > max_y)
            }) ==> r == Err::<AssetAmounts, AmmError>(AmmError::SlippageExceeded),
            old(self).wf() && (max_x > 0 || max_y > 0) && r is Ok ==> final(self).wf(),
    {
        if self.config.locked {
            return Err(AmmError::PoolLocked);
        }
        if requested_shares == 0 {
            return Err(AmmError::InvalidAmount);
        }
        let amounts = match curve::deposit_amounts(
            self.reserve_x,
            self.reserve_y,
            self.share_supply,
            requested_shares,
            max_x,
            max_y,
            SHARE_PRECISION,
        ) {
            Ok(a) => a,
            Err(e) => { return Err(e); },
        };
        if amounts.x > max_x || amounts.y > max_y {
            return Err(AmmError::SlippageExceeded);
        }
        if self.reserve_x > u64::MAX - amounts.x || self.reserve_y > u64::MAX - amounts.y
            || self.share_supply > u64::MAX - requested_shares {
            return Err(AmmError::ArithmeticError);
        }
        self.reserve_x = self.reserve_x + amounts.x;
        self.reserve_y = self.reserve_y + amounts.y;
        self.share_supply = self.share_supply + requested_shares;
        Ok(amounts)
    }

    /// Withdraw workflow: burns `shares_to_burn` shares against both
    /// reserves, paying out at least `min_x` of the first asset and `min_y`
    /// of the second. On success the returned amounts have been removed from
    /// the reserves and must be paid to the withdrawer; the shares must be
    /// burned from the withdrawer. On failure the record is unchanged.
    pub fn withdraw(&mut self, shares_to_burn: u64, min_x: u64, min_y: u64) -> (r: Result<
        AssetAmounts,
        AmmError,
    >)
        ensures
            r == withdraw_outcome(*old(self), shares_to_burn, min_x, min_y),
            r is Err ==> *final(self) == *old(self),
            r is Ok ==> final(self).config == old(self).config
                && final(self).reserve_x == old(self).reserve_x - r->Ok_0.x
                && final(self).reserve_y == old(self).reserve_y - r->Ok_0.y
                && final(self).share_supply == old(self).share_supply - shares_to_burn,
            old(self).config.locked ==> r == Err::<AssetAmounts, AmmError>(AmmError::PoolLocked),
            !old(self).config.locked && (shares_to_burn == 0 || (min_x == 0 && min_y == 0))
                ==> r == Err::<AssetAmounts, AmmError>(AmmError::InvalidAmount),
            !old(self).config.locked && shares_to_burn != 0 && !(min_x == 0 && min_y == 0) && ({
                let c = curve::withdraw_amounts_spec(
                    old(self).reserve_x,
                    old(self).reserve_y,
                    old(self).share_supply,
                    shares_to_burn,
                );
                c is Ok && (c->Ok_0.x < min_x || c->Ok_0.y < min_y)
            }) ==> r == Err::<AssetAmounts, AmmError>(AmmError::SlippageExceeded),
            old(self).wf() && r is Ok ==> final(self).wf(),
    {
        if self.config.locked {
            return Err(AmmError::PoolLocked);
        }
        if shares_to_burn == 0 {
            return Err(AmmError::InvalidAmount);
        }
        if min_x == 0 && min_y == 0 {
            return Err(AmmError::InvalidAmount);
        }
        let amounts = match curve::withdraw_amounts(
            self.reserve_x,
            self.reserve_y,
            self.share_supply,
            shares_to_burn,
            SHARE_PRECISION,
        ) {
            Ok(a) => a,
            Err(e) => { return Err(e); },
        };
        if amounts.x < min_x || amounts.y < min_y {
            return Err(AmmError::SlippageExceeded);
        }
        if shares_to_burn > self.share_supply {
            return Err(AmmError::ArithmeticError);
        }
        proof {
            curve::lemma_proportional_le_reserve(shares_to_burn, self.reserve_x, self.share_supply);
            curve::lemma_proportional_le_reserve(shares_to_burn, self.reserve_y, self.share_supply);
            if shares_to_burn == self.share_supply {
                curve::lemma_proportional_full_supply(self.reserve_x, self.share_supply);
                curve::lemma_proportional_full_supply(self.reserve_y, self.share_supply);
            } else {
                if self.reserve_x > 0 {
                    curve::lemma_proportional_lt_reserve(
                        shares_to_burn,
                        self.reserve_x,
                        self.share_supply,
                    );
                }
                if self.reserve_y > 0 {
                    curve::lemma_proportional_lt_reserve(
                        shares_to_burn,
                        self.reserve_y,
                        self.share_supply,
                    );
                }
            }
        }
        self.reserve_x = self.reserve_x - amounts.x;
        self.reserve_y = self.reserve_y - amounts.y;
        self.share_supply = self.share_supply - shares_to_burn;
        Ok(amounts)
    }
}

} // verus!
