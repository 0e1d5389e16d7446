use amm::config::{Config, Principal};
use amm::deposit::{deposit_handler, Deposit};
use amm::effects::{Effect, Side};
use amm::error::AmmError;
use amm::initialize::{initialize_handler, Initialize};
use amm::math::{isqrt, mul_div_floor, wide_mul};
use amm::swap::{swap_handler, Swap};
use amm::withdraw::{withdraw_handler, Withdraw};

fn key(n: u8) -> Principal {
    Principal { bytes: [n; 32] }
}

fn pool(fee: u16) -> Config {
    Config {
        seed: 7,
        authority: Some(key(9)),
        mint_x: key(1),
        mint_y: key(2),
        fee,
        locked: false,
        config_bump: 254,
        lp_bump: 253,
    }
}

fn deposit_accounts(vault_x: u64, vault_y: u64, lp_supply: u64) -> Deposit {
    Deposit {
        config: pool(30),
        mint_x: key(1),
        mint_y: key(2),
        user_x: u64::MAX,
        user_y: u64::MAX,
        vault_x,
        vault_y,
        lp_supply,
    }
}

fn withdraw_accounts(user_lp: u64, vault_x: u64, vault_y: u64, lp_supply: u64) -> Withdraw {
    Withdraw { config: pool(30), mint_x: key(1), mint_y: key(2), user_lp, vault_x, vault_y, lp_supply }
}

fn swap_accounts(fee: u16, vault_x: u64, vault_y: u64) -> Swap {
    Swap { config: pool(fee), mint_x: key(1), mint_y: key(2), vault_x, vault_y }
}

fn init_accounts(mint_x: Principal, mint_y: Principal, dx: u8, dy: u8) -> Initialize {
    Initialize {
        authority: key(9),
        mint_x,
        mint_x_decimals: dx,
        mint_y,
        mint_y_decimals: dy,
        config_bump: 1,
        lp_bump: 2,
    }
}

#[test]
fn integer_square_root() {
    assert_eq!(isqrt(0), 0);
    assert_eq!(isqrt(1), 1);
    assert_eq!(isqrt(15), 3);
    assert_eq!(isqrt(16), 4);
    assert_eq!(isqrt(4_000_000_000_000), 2_000_000);
    assert_eq!(isqrt(u128::MAX), u64::MAX);
    let m = u64::MAX as u128;
    assert_eq!(isqrt(m * m), u64::MAX);
    assert_eq!(isqrt(m * m - 1), u64::MAX - 1);
}

#[test]
fn wide_arithmetic() {
    assert_eq!(wide_mul(u64::MAX, u64::MAX), (u64::MAX as u128) * (u64::MAX as u128));
    assert_eq!(mul_div_floor(10, 7, 3), Some(23));
    assert_eq!(mul_div_floor(10, 7, 0), None);
    assert_eq!(mul_div_floor(u64::MAX, u64::MAX, 1), Some((u64::MAX as u128) * (u64::MAX as u128)));
}

#[test]
fn first_deposit_mints_root_minus_floor() {
    let d = deposit_accounts(0, 0, 0);
    assert!(d.is_first_deposit());
    assert_eq!(d.calculate_first_deposit_lp(2_000_000, 2_000_000), Ok(1_999_000));
    let effects = deposit_handler(&d, 2_000_000, 2_000_000, 1).unwrap();
    assert_eq!(
        effects,
        vec![
            Effect::TransferIn { side: Side::X, amount: 2_000_000 },
            Effect::TransferIn { side: Side::Y, amount: 2_000_000 },
            Effect::MintLp { amount: 1_999_000 },
        ]
    );
}

#[test]
fn first_deposit_rounds_root_down() {
    let d = deposit_accounts(0, 0, 0);
    // sqrt(3_000_000 * 1_000_000) = 1_732_050.8...
    assert_eq!(d.calculate_first_deposit_lp(3_000_000, 1_000_000), Ok(1_731_050));
    assert_eq!(d.calculate_first_deposit_lp(u64::MAX, u64::MAX), Ok(u64::MAX - 1000));
}

#[test]
fn first_deposit_at_or_below_minimum_fails() {
    let d = deposit_accounts(0, 0, 0);
    assert_eq!(d.calculate_first_deposit_lp(1000, 1000), Err(AmmError::LiquidityLessThanMinimum));
    assert_eq!(d.calculate_first_deposit_lp(999, 1001), Err(AmmError::LiquidityLessThanMinimum));
    assert_eq!(d.calculate_first_deposit_lp(1001, 1001), Ok(1));
    assert_eq!(deposit_handler(&d, 1000, 1000, 1), Err(AmmError::LiquidityLessThanMinimum));
}

#[test]
fn subsequent_deposit_takes_smaller_share() {
    let d = deposit_accounts(1_000_000, 1_000_000, 1_000_000);
    assert!(!d.is_first_deposit());
    assert_eq!(d.calculate_subsequent_deposit_lp(100_000, 100_000), Ok(100_000));
    let d = deposit_accounts(1_000_000, 2_000_000, 500_000);
    // from x: 100_000 * 500_000 / 1_000_000 = 50_000; from y: 100_000 * 500_000 / 2_000_000 = 25_000
    assert_eq!(d.calculate_subsequent_deposit_lp(100_000, 100_000), Ok(25_000));
    let effects = deposit_handler(&d, 100_000, 100_000, 25_000).unwrap();
    assert_eq!(effects[2], Effect::MintLp { amount: 25_000 });
}

#[test]
fn subsequent_deposit_errors() {
    let d = deposit_accounts(1_000_000, 0, 1_000);
    assert!(!d.is_first_deposit());
    assert_eq!(d.calculate_subsequent_deposit_lp(10, 10), Err(AmmError::ZeroBalance));
    let d = deposit_accounts(1_000_000, 1_000_000, 0);
    assert_eq!(d.calculate_subsequent_deposit_lp(10, 10), Err(AmmError::ZeroBalance));
    let d = deposit_accounts(1_000_000, 1_000_000, 1_000);
    assert_eq!(d.calculate_subsequent_deposit_lp(999, 5_000), Err(AmmError::LiquidityLessThanMinimum));
    let d = deposit_accounts(1, 1, u64::MAX);
    assert_eq!(d.calculate_subsequent_deposit_lp(2, 2), Err(AmmError::Overflow));
}

#[test]
fn deposit_guards() {
    let d = deposit_accounts(0, 0, 0);
    assert_eq!(d.validate(0, 10, 1), Err(AmmError::InvalidAmount));
    assert_eq!(d.validate(10, 0, 1), Err(AmmError::InvalidAmount));
    assert_eq!(d.validate(10, 10, 0), Err(AmmError::LiquidityLessThanMinimum));
    let mut poor = d;
    poor.user_y = 5;
    assert_eq!(poor.validate(10, 10, 1), Err(AmmError::InsufficientBalance));
    assert_eq!(deposit_handler(&poor, 10, 10, 1), Err(AmmError::InsufficientBalance));
    assert_eq!(d.validate(10, 10, 1), Ok(()));
}

#[test]
fn deposit_slippage() {
    let d = deposit_accounts(0, 0, 0);
    assert_eq!(deposit_handler(&d, 2_000_000, 2_000_000, 1_999_001), Err(AmmError::SlippageExceeded));
    assert!(deposit_handler(&d, 2_000_000, 2_000_000, 1_999_000).is_ok());
}

#[test]
fn deposit_wrong_mint() {
    let mut d = deposit_accounts(0, 0, 0);
    d.mint_y = key(3);
    assert_eq!(deposit_handler(&d, 2_000_000, 2_000_000, 1), Err(AmmError::InvalidToken));
}

#[test]
fn withdraw_pays_proportional_share() {
    let w = withdraw_accounts(100_000, 1_000_000, 3_000_000, 1_000_000);
    assert_eq!(w.calculate_withdraw_amounts(100_000), Ok((100_000, 300_000)));
    let w = withdraw_accounts(333, 1_000, 2_000, 999);
    // 333 * 1000 / 999 = 333.33..., 333 * 2000 / 999 = 666.66...
    assert_eq!(w.calculate_withdraw_amounts(333), Ok((333, 666)));
    let effects = withdraw_handler(&w, 333, 333, 666).unwrap();
    assert_eq!(
        effects,
        vec![
            Effect::BurnLp { amount: 333 },
            Effect::TransferOut { side: Side::X, amount: 333 },
            Effect::TransferOut { side: Side::Y, amount: 666 },
        ]
    );
}

#[test]
fn withdraw_all_claims_returns_reserves() {
    let w = withdraw_accounts(1_000_000, 1_234_567, 7_654_321, 1_000_000);
    assert_eq!(w.calculate_withdraw_amounts(1_000_000), Ok((1_234_567, 7_654_321)));
}

#[test]
fn withdraw_errors() {
    let w = withdraw_accounts(100, 1_000, 1_000, 1_000);
    assert_eq!(w.validate(0, 0, 0), Err(AmmError::InvalidAmount));
    assert_eq!(w.validate(101, 0, 0), Err(AmmError::InsufficientBalance));
    assert_eq!(withdraw_accounts(100, 0, 1_000, 1_000).validate(10, 0, 0), Err(AmmError::ZeroBalance));
    assert_eq!(withdraw_accounts(100, 1_000, 1_000, 0).validate(10, 0, 0), Err(AmmError::ZeroBalance));
    let w = withdraw_accounts(100, 1_000, 10, 1_000);
    assert_eq!(w.calculate_withdraw_amounts(50), Err(AmmError::LiquidityLessThanMinimum));
    let w = withdraw_accounts(u64::MAX, u64::MAX, u64::MAX, 1);
    assert_eq!(w.calculate_withdraw_amounts(2), Err(AmmError::Overflow));
    let w = withdraw_accounts(100, 1_000, 1_000, 0);
    assert_eq!(w.calculate_withdraw_amounts(2), Err(AmmError::ZeroBalance));
    let w = withdraw_accounts(100, 1_000, 1_000, 1_000);
    assert_eq!(withdraw_handler(&w, 100, 101, 1), Err(AmmError::SlippageExceeded));
    assert_eq!(withdraw_handler(&w, 100, 1, 101), Err(AmmError::SlippageExceeded));
}

#[test]
fn swap_output_follows_curve() {
    let s = swap_accounts(30, 1_000_000, 1_000_000);
    let expected = (10_000u128 * 9970 * 1_000_000 / (1_000_000u128 * 10000 + 10_000 * 9970)) as u64;
    assert_eq!(expected, 9871);
    assert_eq!(s.calculate_amount_out(10_000, 1_000_000, 1_000_000), Ok(9871));
    let effects = swap_handler(&s, true, 10_000, 1).unwrap();
    assert_eq!(
        effects,
        vec![
            Effect::TransferIn { side: Side::X, amount: 10_000 },
            Effect::TransferOut { side: Side::Y, amount: 9871 },
        ]
    );
}

#[test]
fn swap_direction_selects_reserves() {
    let s = swap_accounts(0, 1_000, 4_000);
    assert_eq!(s.get_reserves(true), (1_000, 4_000));
    assert_eq!(s.get_reserves(false), (4_000, 1_000));
    // y to x: 1000 * 10000 * 1000 / (4000 * 10000 + 1000 * 10000) = 200
    let effects = swap_handler(&s, false, 1_000, 1).unwrap();
    assert_eq!(
        effects,
        vec![
            Effect::TransferIn { side: Side::Y, amount: 1_000 },
            Effect::TransferOut { side: Side::X, amount: 200 },
        ]
    );
}

#[test]
fn swap_keeps_constant_product() {
    let cases: [(u64, u64, u64, u16); 4] = [
        (10_000, 1_000_000, 1_000_000, 30),
        (999_999, 5, 1_000_000_000, 500),
        (1, 1, 1_000_000, 0),
        (123_456_789, 987_654_321, 55_555, 250),
    ];
    for (amount_in, rin, rout, fee) in cases {
        let s = swap_accounts(fee, rin, rout);
        let out = s.calculate_amount_out(amount_in, rin, rout).unwrap();
        assert!(out <= rout);
        let before = (rin as u128) * (rout as u128);
        let after = (rin as u128 + amount_in as u128) * ((rout - out) as u128);
        assert!(after >= before);
    }
}

#[test]
fn swap_errors() {
    let s = swap_accounts(30, 1_000_000, 1_000_000);
    assert_eq!(s.validate(0, 1), Err(AmmError::InvalidAmount));
    assert_eq!(s.validate(1, 0), Err(AmmError::InvalidAmount));
    assert_eq!(swap_accounts(30, 0, 10).validate(1, 1), Err(AmmError::ZeroBalance));
    assert_eq!(s.calculate_amount_out(1, 1_000_000, 1_000_000), Err(AmmError::SlippageExceeded));
    assert_eq!(swap_handler(&s, true, 10_000, 9872), Err(AmmError::SlippageExceeded));
    assert!(swap_handler(&s, true, 10_000, 9871).is_ok());
    let s = swap_accounts(0, u64::MAX, u64::MAX);
    assert_eq!(s.calculate_amount_out(u64::MAX, u64::MAX, u64::MAX), Err(AmmError::Overflow));
    let s = swap_accounts(10_001, 10, 10);
    assert_eq!(s.calculate_amount_out(1, 10, 10), Err(AmmError::Underflow));
    let s = swap_accounts(10_000, 0, 10);
    assert_eq!(s.calculate_amount_out(1, 0, 10), Err(AmmError::ZeroBalance));
}

#[test]
fn zero_amounts_are_invalid_everywhere() {
    let d = deposit_accounts(1_000, 1_000, 1_000);
    assert_eq!(deposit_handler(&d, 0, 100, 1), Err(AmmError::InvalidAmount));
    assert_eq!(deposit_handler(&d, 100, 0, 1), Err(AmmError::InvalidAmount));
    let w = withdraw_accounts(100, 1_000, 1_000, 1_000);
    assert_eq!(withdraw_handler(&w, 0, 1, 1), Err(AmmError::InvalidAmount));
    let s = swap_accounts(30, 1_000, 1_000);
    assert_eq!(swap_handler(&s, true, 0, 1), Err(AmmError::InvalidAmount));
    assert_eq!(swap_handler(&s, false, 10, 0), Err(AmmError::InvalidAmount));
}

#[test]
fn locked_pool_rejects_everything() {
    let mut d = deposit_accounts(0, 0, 0);
    d.config.locked = true;
    assert!(d.config.is_locked());
    assert_eq!(deposit_handler(&d, 2_000_000, 2_000_000, 1), Err(AmmError::PoolLocked));
    assert_eq!(deposit_handler(&d, 0, 0, 0), Err(AmmError::PoolLocked));
    let mut w = withdraw_accounts(100, 1_000, 1_000, 1_000);
    w.config.locked = true;
    assert_eq!(withdraw_handler(&w, 100, 1, 1), Err(AmmError::PoolLocked));
    let mut s = swap_accounts(30, 1_000_000, 1_000_000);
    s.config.locked = true;
    assert_eq!(swap_handler(&s, true, 10_000, 1), Err(AmmError::PoolLocked));
    s.mint_x = key(7);
    assert_eq!(swap_handler(&s, true, 10_000, 1), Err(AmmError::PoolLocked));
}

#[test]
fn authority_guard() {
    let c = pool(30);
    assert_eq!(c.can_modify(&key(9)), Ok(()));
    assert_eq!(c.can_modify(&key(8)), Err(AmmError::Unauthorized));
    let mut other = key(9);
    other.bytes[31] = 0;
    assert_eq!(c.can_modify(&other), Err(AmmError::Unauthorized));
    let mut none = c;
    none.authority = None;
    assert_eq!(none.can_modify(&key(9)), Err(AmmError::NoAuthority));
}

#[test]
fn fee_validation() {
    assert_eq!(pool(500).validate_fee(), Ok(()));
    assert_eq!(pool(501).validate_fee(), Err(AmmError::InvalidFee));
}

#[test]
fn initialize_creates_unlocked_pool() {
    let i = init_accounts(key(1), key(2), 6, 9);
    let c = initialize_handler(&i, 42, 30).unwrap();
    assert_eq!(c.seed, 42);
    assert!(c.authority.unwrap().same_as(&key(9)));
    assert!(c.mint_x.same_as(&key(1)));
    assert!(c.mint_y.same_as(&key(2)));
    assert_eq!(c.fee, 30);
    assert!(!c.locked);
    assert_eq!(c.config_bump, 1);
    assert_eq!(c.lp_bump, 2);
}

#[test]
fn initialize_errors() {
    assert_eq!(init_accounts(key(1), key(2), 6, 6).validate(501), Err(AmmError::InvalidFee));
    assert_eq!(initialize_handler(&init_accounts(key(1), key(1), 6, 6), 1, 30).unwrap_err(), AmmError::InvalidToken);
    assert_eq!(initialize_handler(&init_accounts(key(1), key(2), 10, 6), 1, 30).unwrap_err(), AmmError::InvalidPrecision);
    assert_eq!(initialize_handler(&init_accounts(key(1), key(2), 6, 10), 1, 30).unwrap_err(), AmmError::InvalidPrecision);
    assert_eq!(init_accounts(key(1), key(2), 9, 9).validate(500), Ok(()));
}

#[test]
fn error_messages() {
    assert_eq!(AmmError::PoolLocked.message(), "This pool is locked.");
    assert_eq!(AmmError::NoAuthority.message(), "No authority set for this pool");
}
