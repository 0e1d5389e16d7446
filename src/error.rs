use vstd::prelude::*;

verus! {

/// Every way in which a pool operation can be refused.
#[derive(Debug, Clone, Copy, PartialEq, Eq, Structural)]
pub enum AmmError {
    DefaultError,
    PoolLocked,
    NoLiquidityPool,
    BumpError,
    SlippageExceeded,
    InvalidToken,
    OfferExpired,
    Overflow,
    Underflow,
    InvalidAmount,
    LiquidityLessThanMinimum,
    InsufficientBalance,
    ZeroBalance,
    InvalidFee,
    InvalidPrecision,
    Unauthorized,
    NoAuthority,
}

impl AmmError {
    /// Human-readable description of the error.
    pub fn message(&self) -> (r: &'static str) {
        match self {
            AmmError::DefaultError => "DefaultError",
            AmmError::PoolLocked => "This pool is locked.",
            AmmError::NoLiquidityPool => "No liquidity pool.",
            AmmError::BumpError => "Bump error.",
            AmmError::SlippageExceeded => "Slippage tolerance exceed.",
            AmmError::InvalidToken => "Invalid token provided.",
            AmmError::OfferExpired => "Offer has expired.",
            AmmError::Overflow => "Mathematical overflow detected.",
            AmmError::Underflow => "Mathematical underflow detected.",
            AmmError::InvalidAmount => "Invalid amount provided.",
            AmmError::LiquidityLessThanMinimum => "Actual liquidity is less than minimum required.",
            AmmError::InsufficientBalance => "Insufficient balance for operation.",
            AmmError::ZeroBalance => "Zero balance not allowed.",
            AmmError::InvalidFee => "Fee exceeds maximum allowed.",
            AmmError::InvalidPrecision => "Invalid precision value.",
            AmmError::Unauthorized => "Unauthorized access attempt",
            AmmError::NoAuthority => "No authority set for this pool",
        }
    }
}

} // verus!
