use vstd::prelude::*;

verus! {

/// Failure kinds surfaced by the curve engine and the pool workflows.
///
/// Every failure is terminal for the current invocation: no workflow retries
/// internally, and no pool state is changed before a failure is signaled.
#[derive(Clone, Copy, Debug, PartialEq, Eq, Structural)]
pub enum AmmError {
    /// The pool's lock gate is set; deposits and withdrawals are refused.
    PoolLocked,
    /// A zero share amount was requested, or a withdraw supplied a double-zero
    /// minimum bound.
    InvalidAmount,
    /// A curve-computed amount fell outside the caller's tolerance.
    SlippageExceeded,
    /// A computation left the 64-bit range, or a supply of zero stood outside
    /// the bootstrap case.
    ArithmeticError,
    /// A withdrawal was requested against a pool with zero share supply.
    InsufficientSupplyError,
}

} // verus!
