use anchor_lang::prelude::Pubkey;
use pixel::{
    transfer_sol_from_vault_to_user, transfer_sol_within_vault, BondingCurve, Config, CreateConfig, CreateConfigParams,
    CreateToken, CreateTokenParams, LamportsError, PixelError, UpdateConfig, UpdateConfigParams,
    Withdraw, WithdrawStakeHolder,
};

fn key(b: u8) -> Pubkey {
    Pubkey::new_from_array([b; 32])
}

fn blank_config() -> Config {
    Config {
        initialized: false,
        authority: Pubkey::default(),
        fee_recipient: Pubkey::default(),
        initial_virtual_token_reserves: 0,
        initial_virtual_sol_reserves: 0,
        initial_real_token_reserves: 0,
        token_total_supply: 0,
        fee_base_points: 0,
        fee_stakeholders: 0,
        epoch_duration: 0,
        bump: 0,
        stake_token: Pubkey::default(),
    }
}

fn create_params(fee_base_points: u64) -> CreateConfigParams {
    CreateConfigParams {
        authority: key(1),
        fee_recipient: key(2),
        initial_virtual_token_reserves: 1_073_000_000_000_000,
        initial_virtual_sol_reserves: 30_000_000_000,
        initial_real_token_reserves: 793_100_000_000_000,
        token_total_supply: 1_000_000_000_000_000,
        fee_base_points,
    }
}

#[test]
fn create_config_sets_every_given_field() {
    let mut ctx = CreateConfig { config: blank_config(), config_bump: 253 };
    assert_eq!(CreateConfig::apply(&mut ctx, &create_params(100)), Ok(()));
    let c = ctx.config;
    assert!(c.initialized);
    assert_eq!(c.authority, key(1));
    assert_eq!(c.fee_recipient, key(2));
    assert_eq!(c.initial_virtual_token_reserves, 1_073_000_000_000_000);
    assert_eq!(c.initial_virtual_sol_reserves, 30_000_000_000);
    assert_eq!(c.initial_real_token_reserves, 793_100_000_000_000);
    assert_eq!(c.token_total_supply, 1_000_000_000_000_000);
    assert_eq!(c.fee_base_points, 100);
    assert_eq!(c.bump, 253);
    assert_eq!(c.fee_stakeholders, 0);
    assert_eq!(c.epoch_duration, 0);
    // a second creation is refused
    assert_eq!(CreateConfig::apply(&mut ctx, &create_params(200)), Err(PixelError::AlreadyInitialized));
    assert_eq!(ctx.config, c);
}

#[test]
fn create_config_rejects_fee_of_half_or_more() {
    let mut ctx = CreateConfig { config: blank_config(), config_bump: 1 };
    assert_eq!(CreateConfig::apply(&mut ctx, &create_params(5000)), Err(PixelError::InvalidParam));
    assert_eq!(ctx.config, blank_config());
    assert_eq!(CreateConfig::apply(&mut ctx, &create_params(4999)), Ok(()));
    assert_eq!(ctx.config.fee_base_points, 4999);
}

fn no_change() -> UpdateConfigParams {
    UpdateConfigParams {
        authority: None,
        fee_recipient: None,
        initial_virtual_token_reserves: None,
        initial_virtual_sol_reserves: None,
        initial_real_token_reserves: None,
        token_total_supply: None,
        fee_base_points: None,
    }
}

#[test]
fn update_config_replaces_given_fields_only() {
    let mut ctx = CreateConfig { config: blank_config(), config_bump: 9 };
    CreateConfig::apply(&mut ctx, &create_params(100)).unwrap();
    let before = ctx.config;
    let mut up = UpdateConfig { config: before };
    assert_eq!(UpdateConfig::apply(&mut up, &no_change()), Ok(()));
    assert_eq!(up.config, before);
    let params = UpdateConfigParams {
        fee_recipient: Some(key(4)),
        token_total_supply: Some(5),
        fee_base_points: Some(250),
        ..no_change()
    };
    assert_eq!(UpdateConfig::apply(&mut up, &params), Ok(()));
    assert_eq!(up.config.fee_recipient, key(4));
    assert_eq!(up.config.token_total_supply, 5);
    assert_eq!(up.config.fee_base_points, 250);
    assert_eq!(up.config.authority, before.authority);
    assert_eq!(up.config.initial_virtual_sol_reserves, before.initial_virtual_sol_reserves);
    assert_eq!(up.config.bump, 9);
}

#[test]
fn update_config_refused_fee_stops_midway() {
    let mut up = UpdateConfig { config: blank_config() };
    let params = UpdateConfigParams {
        authority: Some(key(6)),
        token_total_supply: Some(9),
        fee_base_points: Some(5000),
        ..no_change()
    };
    assert_eq!(UpdateConfig::apply(&mut up, &params), Err(PixelError::InvalidParam));
    // settings before the fee rate were written, the rest were not
    assert_eq!(up.config, Config { authority: key(6), ..blank_config() });
}

#[test]
fn vault_transfer_moves_lamports() {
    let (mut from, mut to) = (100u64, 5u64);
    assert_eq!(transfer_sol_from_vault_to_user(&mut from, &mut to, 40), Ok(()));
    assert_eq!((from, to), (60, 45));
    // the receiver is credited before the sender's balance is found short
    assert_eq!(transfer_sol_from_vault_to_user(&mut from, &mut to, 61), Err(LamportsError::InsufficientFunds));
    assert_eq!((from, to), (60, 106));
    let mut to = 45u64;
    let mut full = u64::MAX;
    assert_eq!(transfer_sol_from_vault_to_user(&mut from, &mut full, 1), Err(LamportsError::InsufficientFunds));
    assert_eq!((from, full), (60, u64::MAX));
}

#[test]
fn transfer_within_one_account_keeps_its_balance() {
    let mut balance = 500u64;
    assert_eq!(transfer_sol_within_vault(&mut balance, 499), Ok(()));
    assert_eq!(balance, 500);
    assert_eq!(transfer_sol_within_vault(&mut balance, u64::MAX), Err(LamportsError::InsufficientFunds));
    assert_eq!(balance, 500);
}

#[test]
fn withdraw_stake_holder_drains_pool_lamports() {
    let mut ctx = WithdrawStakeHolder { stake_holder_lamports: 1_234, authority_lamports: 10 };
    assert_eq!(WithdrawStakeHolder::apply(&mut ctx), Ok(()));
    assert_eq!(ctx.stake_holder_lamports, 0);
    assert_eq!(ctx.authority_lamports, 1_244);
    let mut ctx = WithdrawStakeHolder { stake_holder_lamports: 2, authority_lamports: u64::MAX - 1 };
    assert_eq!(WithdrawStakeHolder::apply(&mut ctx), Err(LamportsError::InsufficientFunds));
    assert_eq!(ctx.stake_holder_lamports, 2);
}

#[test]
fn withdraw_drains_curve_and_reports_amounts() {
    let mut ctx = Withdraw {
        bonding_curve_lamports: 5_000,
        authority_lamports: 1,
        vault_token_amount: 777,
        token_mint: key(9),
        authority: key(1),
    };
    let ev = Withdraw::apply(&mut ctx).unwrap();
    assert_eq!(ev.sol_output, 5_000);
    assert_eq!(ev.token_output, 777);
    assert_eq!(ev.mint, key(9));
    assert_eq!(ev.withdrawer, key(1));
    assert_eq!(ctx.bonding_curve_lamports, 0);
    assert_eq!(ctx.authority_lamports, 5_001);
}

#[test]
fn create_token_sets_fresh_curve_from_config() {
    let mut cctx = CreateConfig { config: blank_config(), config_bump: 1 };
    CreateConfig::apply(&mut cctx, &create_params(100)).unwrap();
    let mut ctx = CreateToken {
        config: cctx.config,
        bonding_curve: BondingCurve::default(),
        bonding_curve_bump: 77,
        payer: key(3),
        token_mint: key(9),
    };
    let params = CreateTokenParams {
        name: "Pixel Cat".as_bytes().to_vec(),
        symbol: "PCAT".as_bytes().to_vec(),
        uri: "https://example.org/cat.json".as_bytes().to_vec(),
    };
    let ev = CreateToken::apply(&mut ctx, &params).unwrap();
    assert_eq!(ev.token_name, "Pixel Cat");
    assert_eq!(ev.token_symbol, "PCAT");
    assert_eq!(ev.token_uri, "https://example.org/cat.json");
    assert_eq!(ev.creator, key(3));
    assert_eq!(ev.mint, key(9));
    assert_eq!(
        ctx.bonding_curve,
        BondingCurve {
            virtual_token_reserves: 1_073_000_000_000_000,
            virtual_sol_reserves: 30_000_000_000,
            real_token_reserves: 793_100_000_000_000,
            real_sol_reserves: 0,
            token_total_supply: 1_000_000_000_000_000,
            complete: false,
            bump: 77,
        }
    );
}

#[test]
fn create_token_needs_initialized_config() {
    let mut ctx = CreateToken {
        config: blank_config(),
        bonding_curve: BondingCurve::default(),
        bonding_curve_bump: 77,
        payer: key(3),
        token_mint: key(9),
    };
    let params = CreateTokenParams { name: vec![0xff], symbol: vec![], uri: vec![] };
    assert_eq!(CreateToken::apply(&mut ctx, &params).unwrap_err(), PixelError::NotInitialized);
    assert_eq!(ctx.bonding_curve, BondingCurve::default());
}
