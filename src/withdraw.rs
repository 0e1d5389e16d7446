//! Withdrawals: liquidity claims in, a proportional share of both reserves out.
use vstd::prelude::*;
use crate::config::{pool_access, Config, Principal};
use crate::effects::{view_outcome, Effect, Side};
use crate::error::AmmError;
use crate::math::mul_div_floor;

verus! {

/// What a withdrawal reads: the pool record, the asset identifiers the caller
/// supplied, the caller's claim balance, the vault reserves and the claim
/// supply.
#[derive(Debug, Clone, Copy)]
pub struct Withdraw {
    pub config: Config,
    pub mint_x: Principal,
    pub mint_y: Principal,
    /// Caller's balance of liquidity claims.
    pub user_lp: u64,
    /// Pool reserve of asset x.
    pub vault_x: u64,
    /// Pool reserve of asset y.
    pub vault_y: u64,
    /// Outstanding liquidity claims.
    pub lp_supply: u64,
}

/// Parameter, balance and liquidity checks of a withdrawal.
pub open spec fn withdraw_checks(w: Withdraw, lp_amount: u64) -> Result<(), AmmError> {
    if lp_amount == 0 {
        Err(AmmError::InvalidAmount)
    } else if w.user_lp < lp_amount {
        Err(AmmError::InsufficientBalance)
    } else if w.vault_x == 0 || w.vault_y == 0 || w.lp_supply == 0 {
        Err(AmmError::ZeroBalance)
    } else {
        Ok(())
    }
}

/// The share of one reserve that `lp_amount` claims redeem:
/// `floor(lp_amount * reserve / lp_supply)`.
pub open spec fn share_of(lp_amount: u64, reserve: u64, lp_supply: u64) -> int {
    lp_amount * reserve / lp_supply as int
}

/// Both redeemed amounts, refused when the supply is empty, when a share does
/// not fit in 64 bits, or when either share is zero.
pub open spec fn withdraw_amounts_of(lp_amount: u64, reserve_x: u64, reserve_y: u64, lp_supply: u64) -> Result<(u64, u64), AmmError> {
    if lp_supply == 0 {
        Err(AmmError::ZeroBalance)
    } else if share_of(lp_amount, reserve_x, lp_supply) > u64::MAX
        || share_of(lp_amount, reserve_y, lp_supply) > u64::MAX {
        Err(AmmError::Overflow)
    } else if share_of(lp_amount, reserve_x, lp_supply) == 0
        || share_of(lp_amount, reserve_y, lp_supply) == 0 {
        Err(AmmError::LiquidityLessThanMinimum)
    } else {
        Ok((share_of(lp_amount, reserve_x, lp_supply) as u64, share_of(lp_amount, reserve_y, lp_supply) as u64))
    }
}

/// Outcome of a withdrawal: the guards in order, the redemption amounts, then
/// both slippage bounds; on success the burn, then both transfers out.
pub open spec fn withdraw_outcome(w: Withdraw, lp_amount: u64, min_x: u64, min_y: u64) -> Result<Seq<Effect>, AmmError> {
    match pool_access(w.config, w.mint_x, w.mint_y) {
        Err(e) => Err(e),
        Ok(_) => match withdraw_checks(w, lp_amount) {
            Err(e) => Err(e),
            Ok(_) => match withdraw_amounts_of(lp_amount, w.vault_x, w.vault_y, w.lp_supply) {
                Err(e) => Err(e),
                Ok((amount_x, amount_y)) => if amount_x < min_x || amount_y < min_y {
                    Err(AmmError::SlippageExceeded)
                } else {
                    Ok(
                        seq![
                            Effect::BurnLp { amount: lp_amount },
                            Effect::TransferOut { side: Side::X, amount: amount_x },
                            Effect::TransferOut { side: Side::Y, amount: amount_y },
                        ],
                    )
                },
            },
        },
    }
}

impl Withdraw {
    /// Checks the withdrawal parameters against the caller's claims and the
    /// pool's liquidity.
    pub fn validate(&self, lp_amount: u64, min_x: u64, min_y: u64) -> (r: Result<(), AmmError>)
        ensures
            r == withdraw_checks(*self, lp_amount),
    {
        if lp_amount == 0 {
            return Err(AmmError::InvalidAmount);
        }
        if self.user_lp < lp_amount {
            return Err(AmmError::InsufficientBalance);
        }
        if self.vault_x == 0 || self.vault_y == 0 {
            return Err(AmmError::ZeroBalance);
        }
        if self.lp_supply == 0 {
            return Err(AmmError::ZeroBalance);
        }
        Ok(())
    }

    /// The amounts of both assets that `lp_amount` claims redeem.
    pub fn calculate_withdraw_amounts(&self, lp_amount: u64) -> (r: Result<(u64, u64), AmmError>)
        ensures
            r == withdraw_amounts_of(lp_amount, self.vault_x, self.vault_y, self.lp_supply),
    {
        let total_supply = self.lp_supply;
        let wide_x = match mul_div_floor(lp_amount, self.vault_x, total_supply) {
            Some(v) => v,
            None => return Err(AmmError::ZeroBalance),
        };
        let wide_y = match mul_div_floor(lp_amount, self.vault_y, total_supply) {
            Some(v) => v,
            None => return Err(AmmError::ZeroBalance),
        };
        if wide_x > u64::MAX as u128 || wide_y > u64::MAX as u128 {
            return Err(AmmError::Overflow);
        }
        let amount_x = wide_x as u64;
        let amount_y = wide_y as u64;
        if amount_x == 0 || amount_y == 0 {
            return Err(AmmError::LiquidityLessThanMinimum);
        }
        Ok((amount_x, amount_y))
    }
}

/// Runs a withdrawal: guards, redemption amounts and slippage checks, and
/// returns the effects the ledger must apply, burn first.
pub fn withdraw_handler(accounts: &Withdraw, lp_amount: u64, min_x: u64, min_y: u64) -> (r: Result<Vec<Effect>, AmmError>)
    ensures
        view_outcome(r) == withdraw_outcome(*accounts, lp_amount, min_x, min_y),
{
    accounts.config.check_pool_access(&accounts.mint_x, &accounts.mint_y)?;
    accounts.validate(lp_amount, min_x, min_y)?;
    let (amount_x, amount_y) = accounts.calculate_withdraw_amounts(lp_amount)?;
    if amount_x < min_x || amount_y < min_y {
        return Err(AmmError::SlippageExceeded);
    }
    let mut effects: Vec<Effect> = Vec::new();
    effects.push(Effect::BurnLp { amount: lp_amount });
    effects.push(Effect::TransferOut { side: Side::X, amount: amount_x });
    effects.push(Effect::TransferOut { side: Side::Y, amount: amount_y });
    proof {
        assert(effects@ =~= seq![
            Effect::BurnLp { amount: lp_amount },
            Effect::TransferOut { side: Side::X, amount: amount_x },
            Effect::TransferOut { side: Side::Y, amount: amount_y },
        ]);
    }
    Ok(effects)
}

/// Redeeming no more than the outstanding claims never pays out more than the
/// reserves hold, and redeeming all of them pays out exactly the reserves.
pub proof fn lemma_withdraw_within_reserves(lp_amount: u64, reserve_x: u64, reserve_y: u64, lp_supply: u64)
    requires
        lp_amount <= lp_supply,
    ensures
        withdraw_amounts_of(lp_amount, reserve_x, reserve_y, lp_supply) matches Ok((amount_x, amount_y))
            ==> amount_x <= reserve_x && amount_y <= reserve_y,
        lp_amount == lp_supply ==> (withdraw_amounts_of(lp_amount, reserve_x, reserve_y, lp_supply) matches Ok((amount_x, amount_y))
            ==> amount_x == reserve_x && amount_y == reserve_y),
{
    if lp_supply > 0 {
        lemma_share_bounded(lp_amount, reserve_x, lp_supply);
        lemma_share_bounded(lp_amount, reserve_y, lp_supply);
    }
}

proof fn lemma_share_bounded(lp_amount: u64, reserve: u64, lp_supply: u64)
    requires
        0 < lp_supply,
        lp_amount <= lp_supply,
    ensures
        0 <= share_of(lp_amount, reserve, lp_supply) <= reserve,
        lp_amount == lp_supply ==> share_of(lp_amount, reserve, lp_supply) == reserve,
{
    let s = lp_supply as int;
    let p = lp_amount as int * reserve as int;
    assert(0 <= p <= reserve as int * s) by (nonlinear_arith)
        requires
            0 <= lp_amount <= s,
            0 <= reserve,
            p == lp_amount as int * reserve as int,
    ;
    assert(0 <= p / s <= reserve) by (nonlinear_arith)
        requires
            0 <= p <= reserve as int * s,
            0 < s,
    ;
    if lp_amount == lp_supply {
        assert(p == reserve as int * s) by (nonlinear_arith)
            requires
                p == lp_amount as int * reserve as int,
                lp_amount as int == s,
        ;
        assert(p / s == reserve as int) by (nonlinear_arith)
            requires
                p == reserve as int * s,
                0 < s,
        ;
    }
}

} // verus!
