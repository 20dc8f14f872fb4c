use anchor_lang::prelude::Pubkey;
use pixel::{
    BondingCurve, Buy, BuyParams, Config, PixelError, Sell, SellParams, StakeHolder,
};

const VTR: u64 = 1_073_000_000_000_000;
const VSR: u64 = 30_000_000_000;
const RTR: u64 = 793_100_000_000_000;

fn key(b: u8) -> Pubkey {
    Pubkey::new_from_array([b; 32])
}

fn config(fee_base_points: u16, fee_stakeholders: u16) -> Config {
    Config {
        initialized: true,
        authority: key(1),
        fee_recipient: key(2),
        initial_virtual_token_reserves: VTR,
        initial_virtual_sol_reserves: VSR,
        initial_real_token_reserves: RTR,
        token_total_supply: 1_000_000_000_000_000,
        fee_base_points,
        fee_stakeholders,
        epoch_duration: 100,
        bump: 255,
        stake_token: key(3),
    }
}

fn curve() -> BondingCurve {
    BondingCurve {
        virtual_token_reserves: VTR,
        virtual_sol_reserves: VSR,
        real_token_reserves: RTR,
        real_sol_reserves: 0,
        token_total_supply: 1_000_000_000_000_000,
        complete: false,
        bump: 254,
    }
}

fn holder() -> StakeHolder {
    let mut h = StakeHolder::default();
    h.initialized = true;
    h.first_epoch_start_time = 1000;
    h.rewards.insert(0, 0);
    h.total_stakes.insert(0, 0);
    h
}

fn buy_ctx(curve: BondingCurve, config: Config) -> Buy {
    Buy { bonding_curve: curve, config, stake_holder: holder(), token_mint: key(9), user: key(7) }
}

fn sell_ctx(curve: BondingCurve, config: Config) -> Sell {
    Sell { bonding_curve: curve, config, stake_holder: holder(), token_mint: key(9), user: key(8) }
}

#[test]
fn buy_charges_constant_product_price_and_fees() {
    let mut ctx = buy_ctx(curve(), config(100, 2000));
    let params = BuyParams { amount: 1_000_000_000_000, max_sol_cost: 30_000_000 };
    assert!(Buy::fits(&ctx, &params, 1150));
    let out = Buy::apply(&mut ctx, &params, 1150).unwrap();
    assert_eq!(out.sol_amount, 27_985_075);
    assert_eq!(out.token_amount, 1_000_000_000_000);
    assert_eq!(out.fee_staker_amount, 55_970);
    assert_eq!(out.fee_recipient_amount, 223_880);
    assert_eq!(out.event.sol_input, 27_985_075);
    assert_eq!(out.event.token_output, 1_000_000_000_000);
    assert_eq!(out.event.buyer, key(7));
    assert_eq!(out.event.mint, key(9));
    assert!(!out.event.is_completed);
    assert_eq!(ctx.bonding_curve.virtual_sol_reserves, VSR + 27_985_075);
    assert_eq!(ctx.bonding_curve.virtual_token_reserves, VTR - 1_000_000_000_000);
    assert_eq!(ctx.bonding_curve.real_sol_reserves, 27_985_075);
    assert_eq!(ctx.bonding_curve.real_token_reserves, RTR - 1_000_000_000_000);
    // epoch 1 of the pool receives the stakers' fee
    assert_eq!(ctx.stake_holder.rewards.get(&1), Some(&55_970));
}

#[test]
fn buy_without_staker_share_leaves_rewards_alone() {
    let mut ctx = buy_ctx(curve(), config(100, 0));
    let params = BuyParams { amount: 1_000_000_000_000, max_sol_cost: 30_000_000 };
    let out = Buy::apply(&mut ctx, &params, 0).unwrap();
    assert_eq!(out.fee_staker_amount, 0);
    assert_eq!(out.fee_recipient_amount, 279_850);
    assert_eq!(ctx.stake_holder.rewards.len(), 1);
}

#[test]
fn buy_caps_at_real_reserve_and_completes() {
    let mut c = curve();
    c.real_token_reserves = 1_000;
    let mut ctx = buy_ctx(c, config(0, 0));
    let params = BuyParams { amount: 5_000, max_sol_cost: u64::MAX };
    let out = Buy::apply(&mut ctx, &params, 0).unwrap();
    assert_eq!(out.token_amount, 1_000);
    assert_eq!(out.sol_amount, 1_000 * VSR / (VTR - 1_000) + 1);
    assert!(out.event.is_completed);
    assert!(ctx.bonding_curve.complete);
    assert_eq!(ctx.bonding_curve.real_token_reserves, 0);
}

#[test]
fn buy_refusals_change_nothing() {
    let mut c = curve();
    c.complete = true;
    let mut ctx = buy_ctx(c, config(100, 0));
    let params = BuyParams { amount: 10, max_sol_cost: u64::MAX };
    assert_eq!(Buy::apply(&mut ctx, &params, 0), Err(PixelError::SoldAllToken));
    assert_eq!(ctx.bonding_curve, c);

    let mut ctx = buy_ctx(curve(), config(100, 0));
    let zero = BuyParams { amount: 0, max_sol_cost: u64::MAX };
    assert_eq!(Buy::apply(&mut ctx, &zero, 0), Err(PixelError::InvalidParam));

    let mut c = curve();
    c.virtual_token_reserves = 500;
    let mut ctx = buy_ctx(c, config(100, 0));
    let params = BuyParams { amount: 500, max_sol_cost: u64::MAX };
    assert_eq!(Buy::apply(&mut ctx, &params, 0), Err(PixelError::NotEnoughAmount));

    let mut ctx = buy_ctx(curve(), config(100, 0));
    let tight = BuyParams { amount: 1_000_000_000_000, max_sol_cost: 27_985_074 };
    assert_eq!(Buy::apply(&mut ctx, &tight, 0), Err(PixelError::SlippageExceed));
    assert_eq!(ctx.bonding_curve, curve());
}

#[test]
fn buy_after_last_epoch_is_refused() {
    let mut ctx = buy_ctx(curve(), config(100, 2000));
    let params = BuyParams { amount: 1_000_000_000_000, max_sol_cost: u64::MAX };
    // 300 epochs of 100 seconds after the pool opened at 1000
    assert_eq!(Buy::apply(&mut ctx, &params, 31_000), Err(PixelError::EpochExceed));
    assert_eq!(ctx.bonding_curve, curve());
    assert_eq!(ctx.stake_holder.rewards.len(), 1);
    // one second earlier is still epoch 299
    assert!(Buy::apply(&mut ctx, &params, 30_999).is_ok());
    assert_eq!(ctx.stake_holder.rewards.get(&299), Some(&55_970));
}

#[test]
fn buy_fits_detects_fee_overflow() {
    let mut c = curve();
    c.virtual_sol_reserves = u64::MAX / 2;
    c.virtual_token_reserves = 4;
    c.real_token_reserves = 2;
    let ctx = buy_ctx(c, config(4999, 0));
    let params = BuyParams { amount: 2, max_sol_cost: u64::MAX };
    assert!(!Buy::fits(&ctx, &params, 0));
}

#[test]
fn sell_pays_price_less_fees() {
    let mut c = curve();
    c.virtual_sol_reserves = VSR + 27_985_075;
    c.virtual_token_reserves = VTR - 1_000_000_000_000;
    c.real_sol_reserves = 27_985_075;
    c.real_token_reserves = RTR - 1_000_000_000_000;
    let mut ctx = sell_ctx(c, config(100, 2000));
    let params = SellParams { amount: 500_000_000_000, min_sol_output: 13_859_070 };
    assert!(Sell::fits(&ctx, &params, 1150));
    let out = Sell::apply(&mut ctx, &params, 1150).unwrap();
    assert_eq!(out.event.sol_output, 13_999_060);
    assert_eq!(out.event.token_input, 500_000_000_000);
    assert_eq!(out.event.seller, key(8));
    assert_eq!(out.user_sol_amount, 13_859_070);
    assert_eq!(out.fee_staker_amount, 27_998);
    assert_eq!(out.fee_recipient_amount, 139_990 - 27_998);
    assert_eq!(out.token_amount, 500_000_000_000);
    assert_eq!(ctx.bonding_curve.real_sol_reserves, 27_985_075 - 13_999_060);
    assert_eq!(ctx.bonding_curve.virtual_token_reserves, VTR - 500_000_000_000);
    assert_eq!(ctx.stake_holder.rewards.get(&1), Some(&27_998));
}

#[test]
fn sell_refusals_change_nothing() {
    let mut ctx = sell_ctx(curve(), config(100, 0));
    let params = SellParams { amount: 1_000_000, min_sol_output: 0 };
    // the curve holds no real lamports yet
    assert_eq!(Sell::apply(&mut ctx, &params, 0), Err(PixelError::NotEnoughToken));
    assert_eq!(ctx.bonding_curve, curve());

    let mut c = curve();
    c.real_sol_reserves = 1_000_000_000;
    let mut ctx = sell_ctx(c, config(100, 0));
    let zero = SellParams { amount: 0, min_sol_output: 0 };
    assert_eq!(Sell::apply(&mut ctx, &zero, 0), Err(PixelError::InvalidParam));
    let greedy = SellParams { amount: 1_000_000_000_000, min_sol_output: 30_000_000 };
    assert_eq!(Sell::apply(&mut ctx, &greedy, 0), Err(PixelError::SlippageExceed));
    assert_eq!(ctx.bonding_curve, c);

    let mut c2 = c;
    c2.complete = true;
    let mut ctx = sell_ctx(c2, config(100, 0));
    assert_eq!(Sell::apply(&mut ctx, &greedy, 0), Err(PixelError::SoldAllToken));
}

#[test]
fn round_trip_returns_less_than_paid() {
    let mut bctx = buy_ctx(curve(), config(0, 0));
    let bought = Buy::apply(
        &mut bctx,
        &BuyParams { amount: 1_000_000_000_000, max_sol_cost: u64::MAX },
        0,
    )
    .unwrap();
    let mut sctx = sell_ctx(bctx.bonding_curve, config(0, 0));
    let sold = Sell::apply(
        &mut sctx,
        &SellParams { amount: bought.token_amount, min_sol_output: 0 },
        0,
    )
    .unwrap();
    assert_eq!(sold.event.sol_output, 27_985_074);
    assert!(sold.event.sol_output < bought.sol_amount);
    assert_eq!(sctx.bonding_curve.real_sol_reserves, 1);
}

#[test]
fn trades_raise_reserve_product_and_keep_gaps() {
    let start = curve();
    let k0 = start.virtual_sol_reserves as u128 * start.virtual_token_reserves as u128;
    let mut bctx = buy_ctx(start, config(100, 0));
    Buy::apply(&mut bctx, &BuyParams { amount: 123_456_789, max_sol_cost: u64::MAX }, 0).unwrap();
    let after = bctx.bonding_curve;
    let k1 = after.virtual_sol_reserves as u128 * after.virtual_token_reserves as u128;
    assert!(k1 > k0);
    assert_eq!(
        after.virtual_token_reserves - after.real_token_reserves,
        start.virtual_token_reserves - start.real_token_reserves
    );
    assert_eq!(
        after.virtual_sol_reserves - after.real_sol_reserves,
        start.virtual_sol_reserves - start.real_sol_reserves
    );
    let mut sctx = sell_ctx(after, config(100, 0));
    Sell::apply(&mut sctx, &SellParams { amount: 23_456_789, min_sol_output: 0 }, 0).unwrap();
    let later = sctx.bonding_curve;
    let k2 = later.virtual_sol_reserves as u128 * later.virtual_token_reserves as u128;
    assert!(k2 >= k1);
    assert_eq!(
        later.virtual_sol_reserves - later.real_sol_reserves,
        start.virtual_sol_reserves - start.real_sol_reserves
    );
}
