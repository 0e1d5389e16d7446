//! Laws that hold across the pool's operations.
use vstd::prelude::*;
use crate::config::pool_access;
use crate::constants::MINIMUM_LIQUIDITY;
use crate::deposit::{deposit_outcome, opens_pool, Deposit};
use crate::effects::{Effect, Side};
use crate::error::AmmError;
use crate::math::{floor_sqrt, lemma_floor_sqrt, lemma_u64_product_fits};
use crate::swap::{swap_outcome, Swap};
use crate::withdraw::{share_of, withdraw_outcome, Withdraw};

verus! {

/// On an open pool with the right assets, a zero amount is refused with
/// `InvalidAmount`, which requests no effect: a deposit with either amount
/// zero, a withdrawal of zero claims, a swap of zero input or with a zero
/// minimum output.
pub proof fn lemma_zero_amount_rejected(
    d: Deposit,
    amount_x: u64,
    amount_y: u64,
    min_lp: u64,
    w: Withdraw,
    lp_amount: u64,
    min_x: u64,
    min_y: u64,
    s: Swap,
    is_x_to_y: bool,
    amount_in: u64,
    min_out: u64,
)
    ensures
        (pool_access(d.config, d.mint_x, d.mint_y) is Ok && (amount_x == 0 || amount_y == 0))
            ==> deposit_outcome(d, amount_x, amount_y, min_lp) == Err::<Seq<Effect>, AmmError>(AmmError::InvalidAmount),
        (pool_access(w.config, w.mint_x, w.mint_y) is Ok && lp_amount == 0)
            ==> withdraw_outcome(w, lp_amount, min_x, min_y) == Err::<Seq<Effect>, AmmError>(AmmError::InvalidAmount),
        (pool_access(s.config, s.mint_x, s.mint_y) is Ok && (amount_in == 0 || min_out == 0))
            ==> swap_outcome(s, is_x_to_y, amount_in, min_out) == Err::<Seq<Effect>, AmmError>(AmmError::InvalidAmount),
{
}

/// A locked pool refuses every deposit, withdrawal and swap with
/// `PoolLocked`, whatever the other parameters.
pub proof fn lemma_locked_pool_rejects(
    d: Deposit,
    amount_x: u64,
    amount_y: u64,
    min_lp: u64,
    w: Withdraw,
    lp_amount: u64,
    min_x: u64,
    min_y: u64,
    s: Swap,
    is_x_to_y: bool,
    amount_in: u64,
    min_out: u64,
)
    ensures
        d.config.locked ==> deposit_outcome(d, amount_x, amount_y, min_lp) == Err::<Seq<Effect>, AmmError>(AmmError::PoolLocked),
        w.config.locked ==> withdraw_outcome(w, lp_amount, min_x, min_y) == Err::<Seq<Effect>, AmmError>(AmmError::PoolLocked),
        s.config.locked ==> swap_outcome(s, is_x_to_y, amount_in, min_out) == Err::<Seq<Effect>, AmmError>(AmmError::PoolLocked),
{
}

/// A successful deposit into an empty pool mints exactly
/// `floor(sqrt(amount_x * amount_y)) - MINIMUM_LIQUIDITY` claims, and one
/// into a funded pool exactly the smaller proportional share.
pub proof fn lemma_deposit_mints_formula(d: Deposit, amount_x: u64, amount_y: u64, min_lp: u64)
    ensures
        deposit_outcome(d, amount_x, amount_y, min_lp) matches Ok(effects) ==> {
            &&& effects.len() == 3
            &&& effects[0] == Effect::TransferIn { side: Side::X, amount: amount_x }
            &&& effects[1] == Effect::TransferIn { side: Side::Y, amount: amount_y }
            &&& effects[2] matches Effect::MintLp { amount } && {
                let from_x = amount_x * d.lp_supply / d.vault_x as int;
                let from_y = amount_y * d.lp_supply / d.vault_y as int;
                &&& amount >= min_lp
                &&& opens_pool(d) ==> amount == floor_sqrt((amount_x * amount_y) as nat) - MINIMUM_LIQUIDITY
                &&& !opens_pool(d) ==> amount == if from_x < from_y { from_x } else { from_y }
            }
        },
{
    let n = (amount_x * amount_y) as nat;
    lemma_floor_sqrt(n);
    lemma_u64_product_fits(amount_x, amount_y);
    let r = floor_sqrt(n) as int;
    assert(r <= u64::MAX) by (nonlinear_arith)
        requires
            0 <= r,
            r * r <= n,
            n <= (u64::MAX as int) * (u64::MAX as int),
    ;
}

/// A successful withdrawal burns the redeemed claims first and then pays out
/// exactly `floor(lp_amount * reserve / lp_supply)` of each asset.
pub proof fn lemma_withdraw_pays_formula(w: Withdraw, lp_amount: u64, min_x: u64, min_y: u64)
    ensures
        withdraw_outcome(w, lp_amount, min_x, min_y) matches Ok(effects) ==> {
            &&& effects.len() == 3
            &&& effects[0] == Effect::BurnLp { amount: lp_amount }
            &&& effects[1] matches Effect::TransferOut { side: Side::X, amount }
                && amount == share_of(lp_amount, w.vault_x, w.lp_supply) && amount >= min_x
            &&& effects[2] matches Effect::TransferOut { side: Side::Y, amount }
                && amount == share_of(lp_amount, w.vault_y, w.lp_supply) && amount >= min_y
        },
{
}

} // verus!
