//! Swaps along the constant-product curve, with the fee taken on the input
//! side and kept in the pool.
use vstd::prelude::*;
use crate::config::{pool_access, Config, Principal};
use crate::constants::FEE_BASIS_POINTS;
use crate::effects::{view_outcome, Effect, Side};
use crate::error::AmmError;

verus! {

/// What a swap reads: the pool record, the asset identifiers the caller
/// supplied and the vault reserves.
#[derive(Debug, Clone, Copy)]
pub struct Swap {
    pub config: Config,
    pub mint_x: Principal,
    pub mint_y: Principal,
    /// Pool reserve of asset x.
    pub vault_x: u64,
    /// Pool reserve of asset y.
    pub vault_y: u64,
}

/// Parameter and liquidity checks of a swap.
pub open spec fn swap_checks(s: Swap, amount_in: u64, min_out: u64) -> Result<(), AmmError> {
    if amount_in == 0 || min_out == 0 {
        Err(AmmError::InvalidAmount)
    } else if s.vault_x == 0 || s.vault_y == 0 {
        Err(AmmError::ZeroBalance)
    } else {
        Ok(())
    }
}

/// Input and output reserves for the given direction.
pub open spec fn reserves_of(s: Swap, is_x_to_y: bool) -> (u64, u64) {
    if is_x_to_y {
        (s.vault_x, s.vault_y)
    } else {
        (s.vault_y, s.vault_x)
    }
}

/// Input amount after the fee, scaled by the basis-point denominator.
pub open spec fn amount_in_with_fee(amount_in: u64, fee: u16) -> int {
    amount_in * (FEE_BASIS_POINTS as int - fee)
}

/// Output of the curve:
/// `floor(in_eff * reserve_out / (reserve_in * 10000 + in_eff))` with
/// `in_eff = amount_in * (10000 - fee)`. Refused when the fee exceeds the
/// denominator, when the numerator does not fit in 128 bits, when the
/// denominator is zero, or when the output is zero.
pub open spec fn amount_out_of(amount_in: u64, reserve_in: u64, reserve_out: u64, fee: u16) -> Result<u64, AmmError> {
    let in_eff = amount_in_with_fee(amount_in, fee);
    let numerator = in_eff * reserve_out;
    let denominator = reserve_in * (FEE_BASIS_POINTS as int) + in_eff;
    if fee > FEE_BASIS_POINTS {
        Err(AmmError::Underflow)
    } else if numerator > u128::MAX {
        Err(AmmError::Overflow)
    } else if denominator == 0 {
        Err(AmmError::ZeroBalance)
    } else if numerator / denominator == 0 {
        Err(AmmError::SlippageExceeded)
    } else {
        Ok((numerator / denominator) as u64)
    }
}

/// Outcome of a swap: the guards in order, the curve output, then the
/// slippage bound; on success the input is collected before the output is
/// paid.
pub open spec fn swap_outcome(s: Swap, is_x_to_y: bool, amount_in: u64, min_out: u64) -> Result<Seq<Effect>, AmmError> {
    match pool_access(s.config, s.mint_x, s.mint_y) {
        Err(e) => Err(e),
        Ok(_) => match swap_checks(s, amount_in, min_out) {
            Err(e) => Err(e),
            Ok(_) => {
                let (reserve_in, reserve_out) = reserves_of(s, is_x_to_y);
                match amount_out_of(amount_in, reserve_in, reserve_out, s.config.fee) {
                    Err(e) => Err(e),
                    Ok(amount_out) => if amount_out < min_out {
                        Err(AmmError::SlippageExceeded)
                    } else {
                        let (side_in, side_out) = if is_x_to_y {
                            (Side::X, Side::Y)
                        } else {
                            (Side::Y, Side::X)
                        };
                        Ok(
                            seq![
                                Effect::TransferIn { side: side_in, amount: amount_in },
                                Effect::TransferOut { side: side_out, amount: amount_out },
                            ],
                        )
                    },
                }
            },
        },
    }
}

/// The curve never pays out more than the output reserve.
proof fn lemma_quotient_within_reserve(in_eff: int, reserve_in: int, reserve_out: int)
    requires
        0 <= in_eff,
        0 <= reserve_in,
        0 <= reserve_out,
        reserve_in * 10000 + in_eff > 0,
    ensures
        0 <= (in_eff * reserve_out) / (reserve_in * 10000 + in_eff) <= reserve_out,
{
    let den = reserve_in * 10000 + in_eff;
    assert(0 <= in_eff * reserve_out <= reserve_out * den) by (nonlinear_arith)
        requires
            0 <= in_eff <= den,
            0 <= reserve_out,
    ;
    assert(0 <= (in_eff * reserve_out) / den <= reserve_out) by (nonlinear_arith)
        requires
            0 <= in_eff * reserve_out <= reserve_out * den,
            0 < den,
    ;
}

impl Swap {
    /// Checks the swap parameters and that the pool holds liquidity.
    pub fn validate(&self, amount_in: u64, min_out: u64) -> (r: Result<(), AmmError>)
        ensures
            r == swap_checks(*self, amount_in, min_out),
    {
        if amount_in == 0 || min_out == 0 {
            return Err(AmmError::InvalidAmount);
        }
        if self.vault_x == 0 || self.vault_y == 0 {
            return Err(AmmError::ZeroBalance);
        }
        Ok(())
    }

    /// Input and output reserves for the given direction.
    pub fn get_reserves(&self, is_x_to_y: bool) -> (r: (u64, u64))
        ensures
            r == reserves_of(*self, is_x_to_y),
    {
        if is_x_to_y {
            (self.vault_x, self.vault_y)
        } else {
            (self.vault_y, self.vault_x)
        }
    }

    /// Output of the constant-product curve for `amount_in`, with this
    /// pool's fee.
    pub fn calculate_amount_out(&self, amount_in: u64, reserve_in: u64, reserve_out: u64) -> (r: Result<u64, AmmError>)
        ensures
            r == amount_out_of(amount_in, reserve_in, reserve_out, self.config.fee),
    {
        let fee_bps = self.config.fee as u128;
        let denom_bps = FEE_BASIS_POINTS as u128;
        if fee_bps > denom_bps {
            return Err(AmmError::Underflow);
        }
        let amount_in_u128 = amount_in as u128;
        let reserve_in_u128 = reserve_in as u128;
        let reserve_out_u128 = reserve_out as u128;
        assert(amount_in_u128 * (denom_bps - fee_bps) <= 0xffff_ffff_ffff_ffff * 10000) by (nonlinear_arith)
            requires
                amount_in_u128 <= 0xffff_ffff_ffff_ffff,
                denom_bps - fee_bps <= 10000,
        ;
        let in_eff = amount_in_u128 * (denom_bps - fee_bps);
        let numerator = match in_eff.checked_mul(reserve_out_u128) {
            Some(v) => v,
            None => return Err(AmmError::Overflow),
        };
        let denominator = reserve_in_u128 * denom_bps + in_eff;
        if denominator == 0 {
            return Err(AmmError::ZeroBalance);
        }
        let amount_out = numerator / denominator;
        proof {
            lemma_quotient_within_reserve(in_eff as int, reserve_in as int, reserve_out as int);
        }
        if amount_out == 0 {
            return Err(AmmError::SlippageExceeded);
        }
        Ok(amount_out as u64)
    }
}

/// Runs a swap: guards, curve output and slippage check, and returns the
/// effects the ledger must apply, input first.
pub fn swap_handler(accounts: &Swap, is_x_to_y: bool, amount_in: u64, min_out: u64) -> (r: Result<Vec<Effect>, AmmError>)
    ensures
        view_outcome(r) == swap_outcome(*accounts, is_x_to_y, amount_in, min_out),
{
    accounts.config.check_pool_access(&accounts.mint_x, &accounts.mint_y)?;
    accounts.validate(amount_in, min_out)?;
    let (reserve_in, reserve_out) = accounts.get_reserves(is_x_to_y);
    let amount_out = accounts.calculate_amount_out(amount_in, reserve_in, reserve_out)?;
    if amount_out < min_out {
        return Err(AmmError::SlippageExceeded);
    }
    let (side_in, side_out) = if is_x_to_y {
        (Side::X, Side::Y)
    } else {
        (Side::Y, Side::X)
    };
    let mut effects: Vec<Effect> = Vec::new();
    effects.push(Effect::TransferIn { side: side_in, amount: amount_in });
    effects.push(Effect::TransferOut { side: side_out, amount: amount_out });
    proof {
        assert(effects@ =~= seq![
            Effect::TransferIn { side: side_in, amount: amount_in },
            Effect::TransferOut { side: side_out, amount: amount_out },
        ]);
    }
    Ok(effects)
}

/// A swap never lowers the constant product: with the input added to the
/// input reserve and the output taken from the output reserve,
/// `reserve_in_new * reserve_out_new >= reserve_in_old * reserve_out_old`,
/// and the output never exceeds the output reserve.
pub proof fn lemma_swap_keeps_product(amount_in: u64, reserve_in: u64, reserve_out: u64, fee: u16)
    ensures
        amount_out_of(amount_in, reserve_in, reserve_out, fee) matches Ok(amount_out) ==> {
            &&& amount_out <= reserve_out
            &&& (reserve_in + amount_in) * (reserve_out - amount_out) >= reserve_in * reserve_out
        },
{
    if let Ok(out) = amount_out_of(amount_in, reserve_in, reserve_out, fee) {
        let a = amount_in as int;
        let rin = reserve_in as int;
        let rout = reserve_out as int;
        let e = amount_in_with_fee(amount_in, fee);
        let den = rin * 10000 + e;
        let o = out as int;
        assert(0 <= e <= 10000 * a) by (nonlinear_arith)
            requires
                e == a * (10000 - fee as int),
                0 <= fee <= 10000,
                0 <= a,
        ;
        lemma_quotient_within_reserve(e, rin, rout);
        assert(o * den <= e * rout) by (nonlinear_arith)
            requires
                o == (e * rout) / den,
                den > 0,
                e * rout >= 0,
        ;
        assert(o * (rin + a) <= a * rout) by (nonlinear_arith)
            requires
                o * den <= e * rout,
                den == rin * 10000 + e,
                0 <= e <= 10000 * a,
                0 <= o,
                0 <= rin,
                0 <= rout,
                0 < o,
                den > 0,
        {
            assert(o * e * 10000 * rin <= o * (10000 * a) * 10000 * rin) by (nonlinear_arith)
                requires
                    0 <= e <= 10000 * a,
                    0 <= o,
                    0 <= rin,
            ;
            assert(10000 * a * (o * den) <= 10000 * a * (e * rout)) by (nonlinear_arith)
                requires
                    o * den <= e * rout,
                    0 <= a,
            ;
            assert(10000 * e * (o * (rin + a)) <= 10000 * e * (a * rout)) by (nonlinear_arith)
                requires
                    o * e * 10000 * rin <= o * (10000 * a) * 10000 * rin,
                    10000 * a * (o * den) <= 10000 * a * (e * rout),
                    den == rin * 10000 + e,
            ;
            assert(e > 0) by (nonlinear_arith)
                requires
                    o * den <= e * rout,
                    0 < o,
                    den > 0,
                    0 <= e,
                    0 <= rout,
            ;
        }
        assert((rin + a) * (rout - o) >= rin * rout) by (nonlinear_arith)
            requires
                o * (rin + a) <= a * rout,
        ;
    }
}

} // verus!
