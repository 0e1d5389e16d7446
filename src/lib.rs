//! Computational core of a two-asset constant-product liquidity pool.
//!
//! Every operation checks its guards, computes its numeric result and hands
//! back the ordered list of effects (transfers, mints, burns) that the ledger
//! must apply. The core never applies an effect itself.
pub mod constants;
pub mod error;
pub mod math;
pub mod config;
pub mod effects;
pub mod deposit;
pub mod withdraw;
pub mod swap;
pub mod initialize;
pub mod invariants;
