use amm::error::AmmError;
use amm::instructions::deposit::Deposit;
use amm::instructions::initialize::Initialize;
use amm::instructions::withdraw::Withdraw;
use amm::state::assert_asset_pair_matches;
use amm::state::assert_unlocked;
use amm::state::Config;

fn open_config() -> Config {
    Config {
        seed: 1,
        authority: None,
        mint_x: 7,
        mint_y: 8,
        fee: 30,
        locked: false,
        config_bump: 1,
        lp_bump: 1,
    }
}

#[test]
fn initialize_builds_an_empty_unlocked_pool() {
    let mut ctx = Initialize {
        mint_x: 7,
        mint_y: 8,
        config: open_config(),
        vault_x: 99,
        vault_y: 99,
        lp_supply: 99,
    };
    let r = amm::initialize(&mut ctx, 42, 25, Some(11), 254, 253);
    assert!(r.is_ok());
    assert_eq!(ctx.config.seed, 42);
    assert_eq!(ctx.config.fee, 25);
    assert_eq!(ctx.config.authority, Some(11));
    assert_eq!(ctx.config.mint_x, 7);
    assert_eq!(ctx.config.mint_y, 8);
    assert!(!ctx.config.locked);
    assert_eq!(ctx.config.config_bump, 254);
    assert_eq!(ctx.config.lp_bump, 253);
    assert_eq!(ctx.vault_x, 0);
    assert_eq!(ctx.vault_y, 0);
    assert_eq!(ctx.lp_supply, 0);
}

#[test]
fn bootstrap_deposit_uses_caller_amounts_verbatim() {
    let mut d = Deposit {
        config: open_config(),
        vault_x: 0,
        vault_y: 0,
        lp_supply: 0,
        user_ata_x: 500,
        user_ata_y: 600,
        user_ata_lp: 0,
    };
    let r = d.deposit(100, 500, 600);
    assert_eq!(r, Ok(()));
    assert_eq!(d.vault_x, 500);
    assert_eq!(d.vault_y, 600);
    assert_eq!(d.lp_supply, 100);
    assert_eq!(d.user_ata_x, 0);
    assert_eq!(d.user_ata_y, 0);
    assert_eq!(d.user_ata_lp, 100);
}

#[test]
fn bootstrap_deposit_of_nothing_is_rejected() {
    // Minting shares against two empty vaults would leave the pool neither
    // fully empty nor fully funded.
    let mut d = Deposit {
        config: open_config(),
        vault_x: 0,
        vault_y: 0,
        lp_supply: 0,
        user_ata_x: 500,
        user_ata_y: 600,
        user_ata_lp: 0,
    };
    let before = d;
    assert_eq!(d.deposit(100, 0, 0), Err(AmmError::InvalidAmount));
    assert_eq!(d, before);
}

#[test]
fn steady_state_deposit_moves_computed_amounts() {
    let mut d = Deposit {
        config: open_config(),
        vault_x: 100,
        vault_y: 200,
        lp_supply: 100,
        user_ata_x: 1000,
        user_ata_y: 1000,
        user_ata_lp: 0,
    };
    let r = d.deposit(10, 10, 20);
    assert_eq!(r, Ok(()));
    assert_eq!(d.vault_x, 110);
    assert_eq!(d.vault_y, 220);
    assert_eq!(d.lp_supply, 110);
    assert_eq!(d.user_ata_x, 990);
    assert_eq!(d.user_ata_y, 980);
    assert_eq!(d.user_ata_lp, 10);
}

#[test]
fn deposit_slippage_leaves_balances_unchanged() {
    // Computed amounts are (60, 40); both caller bounds are 50.
    let mut d = Deposit {
        config: open_config(),
        vault_x: 60,
        vault_y: 40,
        lp_supply: 100,
        user_ata_x: 1000,
        user_ata_y: 1000,
        user_ata_lp: 0,
    };
    let before = d;
    let r = d.deposit(100, 50, 50);
    assert_eq!(r, Err(AmmError::SlippageExceeded));
    assert_eq!(d, before);
}

#[test]
fn zero_amount_deposit_and_withdraw_are_rejected() {
    let mut d = Deposit {
        config: open_config(),
        vault_x: 10,
        vault_y: 10,
        lp_supply: 10,
        user_ata_x: 10,
        user_ata_y: 10,
        user_ata_lp: 0,
    };
    let before_d = d;
    assert_eq!(d.deposit(0, 5, 5), Err(AmmError::InvalidAmount));
    assert_eq!(d, before_d);

    let mut w = Withdraw {
        config: open_config(),
        vault_x: 10,
        vault_y: 10,
        lp_supply: 10,
        user_ata_x: 0,
        user_ata_y: 0,
        user_ata_lp: 5,
    };
    let before_w = w;
    assert_eq!(w.withdraw(0, 0, 0), Err(AmmError::InvalidAmount));
    assert_eq!(w, before_w);
}

#[test]
fn locked_pool_rejects_both_operations() {
    let locked = Config { locked: true, ..open_config() };
    let mut d = Deposit {
        config: locked,
        vault_x: 10,
        vault_y: 10,
        lp_supply: 10,
        user_ata_x: 10,
        user_ata_y: 10,
        user_ata_lp: 0,
    };
    let before_d = d;
    assert_eq!(d.deposit(1, 1, 1), Err(AmmError::PoolLocked));
    assert_eq!(d, before_d);

    let mut w = Withdraw {
        config: locked,
        vault_x: 10,
        vault_y: 10,
        lp_supply: 10,
        user_ata_x: 0,
        user_ata_y: 0,
        user_ata_lp: 5,
    };
    let before_w = w;
    assert_eq!(w.withdraw(1, 0, 0), Err(AmmError::PoolLocked));
    assert_eq!(w, before_w);
}

#[test]
fn withdraw_without_lp_tokens_is_rejected() {
    let mut w = Withdraw {
        config: open_config(),
        vault_x: 10,
        vault_y: 10,
        lp_supply: 10,
        user_ata_x: 0,
        user_ata_y: 0,
        user_ata_lp: 0,
    };
    let before = w;
    assert_eq!(w.withdraw(1, 0, 0), Err(AmmError::NoLiquidityInPool));
    assert_eq!(w, before);
}

#[test]
fn steady_state_withdraw_pays_floored_share() {
    let mut w = Withdraw {
        config: open_config(),
        vault_x: 110,
        vault_y: 220,
        lp_supply: 110,
        user_ata_x: 0,
        user_ata_y: 0,
        user_ata_lp: 10,
    };
    let r = w.withdraw(10, 0, 0);
    assert_eq!(r, Ok(()));
    assert_eq!(w.vault_x, 100);
    assert_eq!(w.vault_y, 200);
    assert_eq!(w.lp_supply, 100);
    assert_eq!(w.user_ata_x, 10);
    assert_eq!(w.user_ata_y, 20);
    assert_eq!(w.user_ata_lp, 0);
}

#[test]
fn withdraw_slippage_leaves_balances_unchanged() {
    // Burning 10 of 110 shares pays (10, 20); the caller demands at least 11 X.
    let mut w = Withdraw {
        config: open_config(),
        vault_x: 110,
        vault_y: 220,
        lp_supply: 110,
        user_ata_x: 0,
        user_ata_y: 0,
        user_ata_lp: 10,
    };
    let before = w;
    assert_eq!(w.withdraw(10, 11, 20), Err(AmmError::SlippageExceeded));
    assert_eq!(w, before);
}

#[test]
fn deposit_without_funds_fails_with_transfer_error() {
    let mut d = Deposit {
        config: open_config(),
        vault_x: 100,
        vault_y: 100,
        lp_supply: 100,
        user_ata_x: 5,
        user_ata_y: 100,
        user_ata_lp: 0,
    };
    let before = d;
    assert_eq!(d.deposit(10, 10, 10), Err(AmmError::TransferError));
    assert_eq!(d, before);
}

#[test]
fn withdraw_burning_more_than_held_fails_with_transfer_error() {
    let mut w = Withdraw {
        config: open_config(),
        vault_x: 100,
        vault_y: 100,
        lp_supply: 100,
        user_ata_x: 0,
        user_ata_y: 0,
        user_ata_lp: 5,
    };
    let before = w;
    assert_eq!(w.withdraw(10, 0, 0), Err(AmmError::TransferError));
    assert_eq!(w, before);
}

#[test]
fn curve_overflow_surfaces_as_arithmetic_error() {
    // ceil(u64::MAX * 2 / 1) does not fit in a 64-bit balance.
    let mut d = Deposit {
        config: open_config(),
        vault_x: u64::MAX,
        vault_y: 1,
        lp_supply: 1,
        user_ata_x: 10,
        user_ata_y: 10,
        user_ata_lp: 0,
    };
    let before = d;
    assert_eq!(d.deposit(2, u64::MAX, u64::MAX), Err(AmmError::CurveArithmeticError));
    assert_eq!(d, before);
}

#[test]
fn empty_pool_withdraw_never_completes() {
    // The defensive empty-pool path: the burn cannot succeed, so the
    // operation aborts unchanged even for a caller holding LP tokens.
    let mut w = Withdraw {
        config: open_config(),
        vault_x: 0,
        vault_y: 0,
        lp_supply: 0,
        user_ata_x: 0,
        user_ata_y: 0,
        user_ata_lp: 5,
    };
    let before = w;
    assert_eq!(w.withdraw(5, 0, 0), Err(AmmError::TransferError));
    assert_eq!(w, before);
}

#[test]
fn reserve_product_does_not_fall_across_operations() {
    let mut d = Deposit {
        config: open_config(),
        vault_x: 1000,
        vault_y: 333,
        lp_supply: 101,
        user_ata_x: 10_000,
        user_ata_y: 10_000,
        user_ata_lp: 0,
    };
    let before = (d.vault_x as u128) * (d.vault_y as u128);
    assert_eq!(d.deposit(7, 100, 100), Ok(()));
    let after = (d.vault_x as u128) * (d.vault_y as u128);
    assert!(after >= before);

    // The withdrawal may shrink the product, but never the product per
    // squared share.
    let mut w = Withdraw {
        config: d.config,
        vault_x: d.vault_x,
        vault_y: d.vault_y,
        lp_supply: d.lp_supply,
        user_ata_x: 0,
        user_ata_y: 0,
        user_ata_lp: 7,
    };
    let (x0, y0, l0) = (w.vault_x as u128, w.vault_y as u128, w.lp_supply as u128);
    assert_eq!(w.withdraw(7, 0, 0), Ok(()));
    let (x1, y1, l1) = (w.vault_x as u128, w.vault_y as u128, w.lp_supply as u128);
    assert!(x1 * y1 * l0 * l0 >= x0 * y0 * l1 * l1);
}

#[test]
fn deposit_rounds_each_amount_up() {
    // ceil(10 * 1 / 3) = 4 and ceil(20 * 1 / 3) = 7.
    let mut d = Deposit {
        config: open_config(),
        vault_x: 10,
        vault_y: 20,
        lp_supply: 3,
        user_ata_x: 100,
        user_ata_y: 100,
        user_ata_lp: 0,
    };
    assert_eq!(d.deposit(1, 4, 7), Ok(()));
    assert_eq!(d.vault_x, 14);
    assert_eq!(d.vault_y, 27);
    assert_eq!(d.lp_supply, 4);
}

#[test]
fn full_withdrawal_drains_the_pool() {
    let mut w = Withdraw {
        config: open_config(),
        vault_x: 123,
        vault_y: 456,
        lp_supply: 10,
        user_ata_x: 0,
        user_ata_y: 0,
        user_ata_lp: 10,
    };
    assert_eq!(w.withdraw(10, 123, 456), Ok(()));
    assert_eq!(w.vault_x, 0);
    assert_eq!(w.vault_y, 0);
    assert_eq!(w.lp_supply, 0);
    assert_eq!(w.user_ata_x, 123);
    assert_eq!(w.user_ata_y, 456);
    assert_eq!(w.user_ata_lp, 0);
}

#[test]
fn funded_vaults_with_zero_supply_fail_the_curve() {
    // A pool that is funded yet has no shares cannot price a deposit.
    let mut d = Deposit {
        config: open_config(),
        vault_x: 10,
        vault_y: 10,
        lp_supply: 0,
        user_ata_x: 100,
        user_ata_y: 100,
        user_ata_lp: 0,
    };
    let before = d;
    assert_eq!(d.deposit(1, 100, 100), Err(AmmError::CurveArithmeticError));
    assert_eq!(d, before);
}

#[test]
fn gate_checks() {
    let c = open_config();
    assert_eq!(assert_unlocked(&c), Ok(()));
    let locked = Config { locked: true, ..c };
    assert_eq!(assert_unlocked(&locked), Err(AmmError::PoolLocked));
    assert_eq!(assert_asset_pair_matches(&c, 7, 8), Ok(()));
    assert_eq!(assert_asset_pair_matches(&c, 7, 9), Err(AmmError::AssetMismatch));
}
