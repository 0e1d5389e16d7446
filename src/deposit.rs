//! Deposits: paired assets in, liquidity claims out.
use vstd::prelude::*;
use crate::config::{pool_access, Config, Principal};
use crate::constants::MINIMUM_LIQUIDITY;
use crate::effects::{view_outcome, Effect, Side};
use crate::error::AmmError;
use crate::math::{floor_sqrt, isqrt, mul_div_floor, wide_mul};

verus! {

/// What a deposit reads: the pool record, the asset identifiers the caller
/// supplied, the caller's balances, the vault reserves and the claim supply.
#[derive(Debug, Clone, Copy)]
pub struct Deposit {
    pub config: Config,
    pub mint_x: Principal,
    pub mint_y: Principal,
    /// Caller's balance of asset x.
    pub user_x: u64,
    /// Caller's balance of asset y.
    pub user_y: u64,
    /// Pool reserve of asset x.
    pub vault_x: u64,
    /// Pool reserve of asset y.
    pub vault_y: u64,
    /// Outstanding liquidity claims.
    pub lp_supply: u64,
}

/// Parameter and balance checks of a deposit.
pub open spec fn deposit_checks(d: Deposit, amount_x: u64, amount_y: u64, min_lp: u64) -> Result<(), AmmError> {
    if amount_x == 0 || amount_y == 0 {
        Err(AmmError::InvalidAmount)
    } else if min_lp == 0 {
        Err(AmmError::LiquidityLessThanMinimum)
    } else if d.user_x < amount_x || d.user_y < amount_y {
        Err(AmmError::InsufficientBalance)
    } else {
        Ok(())
    }
}

/// Claims issued by the deposit that opens an empty pool:
/// `floor(sqrt(amount_x * amount_y)) - MINIMUM_LIQUIDITY`, refused when that
/// is not positive.
pub open spec fn first_deposit_lp_of(amount_x: u64, amount_y: u64) -> Result<u64, AmmError> {
    let root = floor_sqrt((amount_x * amount_y) as nat);
    if root <= MINIMUM_LIQUIDITY {
        Err(AmmError::LiquidityLessThanMinimum)
    } else {
        Ok((root - MINIMUM_LIQUIDITY) as u64)
    }
}

/// Claims issued by a deposit into a funded pool: the smaller of the two
/// proportional shares `floor(amount * lp_supply / reserve)`.
pub open spec fn subsequent_deposit_lp_of(
    amount_x: u64,
    amount_y: u64,
    reserve_x: u64,
    reserve_y: u64,
    lp_supply: u64,
) -> Result<u64, AmmError> {
    if reserve_x == 0 || reserve_y == 0 || lp_supply == 0 {
        Err(AmmError::ZeroBalance)
    } else {
        let from_x = amount_x * lp_supply / reserve_x as int;
        let from_y = amount_y * lp_supply / reserve_y as int;
        let lp = if from_x < from_y { from_x } else { from_y };
        if lp > u64::MAX {
            Err(AmmError::Overflow)
        } else if lp == 0 {
            Err(AmmError::LiquidityLessThanMinimum)
        } else {
            Ok(lp as u64)
        }
    }
}

/// A deposit opens the pool when both reserves are empty.
pub open spec fn opens_pool(d: Deposit) -> bool {
    d.vault_x == 0 && d.vault_y == 0
}

/// Claims issued by a deposit, first or subsequent.
pub open spec fn deposit_lp_of(d: Deposit, amount_x: u64, amount_y: u64) -> Result<u64, AmmError> {
    if opens_pool(d) {
        first_deposit_lp_of(amount_x, amount_y)
    } else {
        subsequent_deposit_lp_of(amount_x, amount_y, d.vault_x, d.vault_y, d.lp_supply)
    }
}

/// Outcome of a deposit: the guards in order, then the claims computation,
/// then the slippage bound; on success both transfers in and the mint.
pub open spec fn deposit_outcome(d: Deposit, amount_x: u64, amount_y: u64, min_lp: u64) -> Result<Seq<Effect>, AmmError> {
    match pool_access(d.config, d.mint_x, d.mint_y) {
        Err(e) => Err(e),
        Ok(_) => match deposit_checks(d, amount_x, amount_y, min_lp) {
            Err(e) => Err(e),
            Ok(_) => match deposit_lp_of(d, amount_x, amount_y) {
                Err(e) => Err(e),
                Ok(lp) => if lp < min_lp {
                    Err(AmmError::SlippageExceeded)
                } else {
                    Ok(
                        seq![
                            Effect::TransferIn { side: Side::X, amount: amount_x },
                            Effect::TransferIn { side: Side::Y, amount: amount_y },
                            Effect::MintLp { amount: lp },
                        ],
                    )
                },
            },
        },
    }
}

impl Deposit {
    /// Checks the deposit parameters against the caller's balances.
    pub fn validate(&self, amount_x: u64, amount_y: u64, min_lp: u64) -> (r: Result<(), AmmError>)
        ensures
            r == deposit_checks(*self, amount_x, amount_y, min_lp),
    {
        if amount_x == 0 || amount_y == 0 {
            return Err(AmmError::InvalidAmount);
        }
        if min_lp == 0 {
            return Err(AmmError::LiquidityLessThanMinimum);
        }
        if self.user_x < amount_x || self.user_y < amount_y {
            return Err(AmmError::InsufficientBalance);
        }
        Ok(())
    }

    /// Whether the pool is still empty.
    pub fn is_first_deposit(&self) -> (r: bool)
        ensures
            r == opens_pool(*self),
    {
        self.vault_x == 0 && self.vault_y == 0
    }

    /// Claims for the deposit that opens the pool.
    pub fn calculate_first_deposit_lp(&self, amount_x: u64, amount_y: u64) -> (r: Result<u64, AmmError>)
        ensures
            r == first_deposit_lp_of(amount_x, amount_y),
    {
        let product = wide_mul(amount_x, amount_y);
        let lp_amount = isqrt(product);
        if lp_amount <= MINIMUM_LIQUIDITY {
            return Err(AmmError::LiquidityLessThanMinimum);
        }
        Ok(lp_amount - MINIMUM_LIQUIDITY)
    }

    /// Claims for a deposit into a funded pool.
    pub fn calculate_subsequent_deposit_lp(&self, amount_x: u64, amount_y: u64) -> (r: Result<u64, AmmError>)
        ensures
            r == subsequent_deposit_lp_of(amount_x, amount_y, self.vault_x, self.vault_y, self.lp_supply),
    {
        let reserve_x = self.vault_x;
        let reserve_y = self.vault_y;
        let total_supply = self.lp_supply;
        if reserve_x == 0 || reserve_y == 0 || total_supply == 0 {
            return Err(AmmError::ZeroBalance);
        }
        let lp_from_x = match mul_div_floor(amount_x, total_supply, reserve_x) {
            Some(v) => v,
            None => return Err(AmmError::ZeroBalance),
        };
        let lp_from_y = match mul_div_floor(amount_y, total_supply, reserve_y) {
            Some(v) => v,
            None => return Err(AmmError::ZeroBalance),
        };
        let lp_amount = if lp_from_x < lp_from_y { lp_from_x } else { lp_from_y };
        if lp_amount > u64::MAX as u128 {
            return Err(AmmError::Overflow);
        }
        if lp_amount == 0 {
            return Err(AmmError::LiquidityLessThanMinimum);
        }
        Ok(lp_amount as u64)
    }
}

/// Runs a deposit: guards, claims computation and slippage check, and returns
/// the effects the ledger must apply, in order.
pub fn deposit_handler(accounts: &Deposit, amount_x: u64, amount_y: u64, min_lp: u64) -> (r: Result<Vec<Effect>, AmmError>)
    ensures
        view_outcome(r) == deposit_outcome(*accounts, amount_x, amount_y, min_lp),
{
    accounts.config.check_pool_access(&accounts.mint_x, &accounts.mint_y)?;
    accounts.validate(amount_x, amount_y, min_lp)?;
    let lp_amount = if accounts.is_first_deposit() {
        accounts.calculate_first_deposit_lp(amount_x, amount_y)?
    } else {
        accounts.calculate_subsequent_deposit_lp(amount_x, amount_y)?
    };
    if lp_amount < min_lp {
        return Err(AmmError::SlippageExceeded);
    }
    let mut effects: Vec<Effect> = Vec::new();
    effects.push(Effect::TransferIn { side: Side::X, amount: amount_x });
    effects.push(Effect::TransferIn { side: Side::Y, amount: amount_y });
    effects.push(Effect::MintLp { amount: lp_amount });
    proof {
        assert(effects@ =~= seq![
            Effect::TransferIn { side: Side::X, amount: amount_x },
            Effect::TransferIn { side: Side::Y, amount: amount_y },
            Effect::MintLp { amount: lp_amount },
        ]);
    }
    Ok(effects)
}

} // verus!
