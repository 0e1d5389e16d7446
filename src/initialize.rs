//! Creation of a pool record.
use vstd::prelude::*;
use crate::config::{Config, Principal};
use crate::constants::{MAX_DECIMALS, MAX_FEE_BASIS_POINTS};
use crate::error::AmmError;

verus! {

/// What pool creation reads: the creator, both assets with their precision,
/// and the address-derivation bumps the ledger picked.
#[derive(Debug, Clone, Copy)]
pub struct Initialize {
    /// The creator, who becomes the pool's authority.
    pub authority: Principal,
    pub mint_x: Principal,
    /// Decimal places of asset x.
    pub mint_x_decimals: u8,
    pub mint_y: Principal,
    /// Decimal places of asset y.
    pub mint_y_decimals: u8,
    pub config_bump: u8,
    pub lp_bump: u8,
}

/// Parameter checks of pool creation, in order.
pub open spec fn initialize_checks(i: Initialize, fee: u16) -> Result<(), AmmError> {
    if fee > MAX_FEE_BASIS_POINTS {
        Err(AmmError::InvalidFee)
    } else if i.mint_x == i.mint_y {
        Err(AmmError::InvalidToken)
    } else if i.mint_x_decimals > MAX_DECIMALS || i.mint_y_decimals > MAX_DECIMALS {
        Err(AmmError::InvalidPrecision)
    } else {
        Ok(())
    }
}

/// Outcome of pool creation: an unlocked record owned by the creator.
pub open spec fn initialize_outcome(i: Initialize, seed: u64, fee: u16) -> Result<Config, AmmError> {
    match initialize_checks(i, fee) {
        Err(e) => Err(e),
        Ok(_) => Ok(
            Config {
                seed,
                authority: Some(i.authority),
                mint_x: i.mint_x,
                mint_y: i.mint_y,
                fee,
                locked: false,
                config_bump: i.config_bump,
                lp_bump: i.lp_bump,
            },
        ),
    }
}

impl Initialize {
    /// Checks the fee, that the assets differ, and their precision.
    pub fn validate(&self, fee: u16) -> (r: Result<(), AmmError>)
        ensures
            r == initialize_checks(*self, fee),
    {
        if fee > MAX_FEE_BASIS_POINTS {
            return Err(AmmError::InvalidFee);
        }
        if self.mint_x.same_as(&self.mint_y) {
            return Err(AmmError::InvalidToken);
        }
        if self.mint_x_decimals > MAX_DECIMALS {
            return Err(AmmError::InvalidPrecision);
        }
        if self.mint_y_decimals > MAX_DECIMALS {
            return Err(AmmError::InvalidPrecision);
        }
        Ok(())
    }
}

/// Creates the record of a new pool.
pub fn initialize_handler(accounts: &Initialize, seed: u64, fee: u16) -> (r: Result<Config, AmmError>)
    ensures
        r == initialize_outcome(*accounts, seed, fee),
        r matches Ok(c) ==> c.wf(),
{
    accounts.validate(fee)?;
    Ok(
        Config {
            seed,
            authority: Some(accounts.authority),
            mint_x: accounts.mint_x,
            mint_y: accounts.mint_y,
            fee,
            locked: false,
            config_bump: accounts.config_bump,
            lp_bump: accounts.lp_bump,
        },
    )
}

} // verus!
