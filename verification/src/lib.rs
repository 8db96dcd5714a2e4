//! Two-asset liquidity pools priced by a constant-product bonding curve.
//!
//! The library is the pool core: the curve engine that computes how much of
//! each asset must move for a requested change in share supply, and the
//! deposit / withdraw / initialization workflows built on it. Workflows
//! operate on an in-memory pool record and return the asset amounts the
//! surrounding ledger must move; moving tokens between ledgers, deriving
//! addresses and verifying caller identity are the host's business.

pub mod curve;
pub mod error;
pub mod laws;
pub mod pool;
