use vstd::prelude::*;

verus! {

/// Fee denominator: 10000 basis points make 100%.
pub const FEE_BASIS_POINTS: i16 = 10000;

/// Claims withheld from the first depositor so that the pool never returns to
/// an empty claim supply.
pub const MINIMUM_LIQUIDITY: u64 = 1000;

/// Highest trading fee a pool may be created with (5%).
pub const MAX_FEE_BASIS_POINTS: u16 = 500;

/// Highest number of decimal places accepted for either pooled asset.
pub const MAX_DECIMALS: u8 = 9;

} // verus!
