//! The effects an operation asks the ledger to apply, in order.
use vstd::prelude::*;
use crate::error::AmmError;

verus! {

/// One of the two pooled assets.
#[derive(Debug, Clone, Copy, PartialEq, Eq, Structural)]
pub enum Side {
    X,
    Y,
}

/// A single request to the ledger.
#[derive(Debug, Clone, Copy, PartialEq, Eq, Structural)]
pub enum Effect {
    /// Move `amount` of the asset on `side` from the caller to the pool's vault.
    TransferIn { side: Side, amount: u64 },
    /// Move `amount` of the asset on `side` from the pool's vault to the caller,
    /// under the pool's own authorization.
    TransferOut { side: Side, amount: u64 },
    /// Issue `amount` liquidity claims to the caller.
    MintLp { amount: u64 },
    /// Destroy `amount` liquidity claims held by the caller.
    BurnLp { amount: u64 },
}

/// The mathematical value of an operation's result.
pub open spec fn view_outcome(r: Result<Vec<Effect>, AmmError>) -> Result<Seq<Effect>, AmmError> {
    match r {
        Ok(v) => Ok(v@),
        Err(e) => Err(e),
    }
}

} // verus!
