use anchor_lang::prelude::Pubkey;
use pixel::{
    BondingCurve, Buy, BuyParams, Claim, Config, CreateStakeHolder, PixelError, Stake,
    StakeHolder, StakeParams, UserStakeInfo,
};

fn key(b: u8) -> Pubkey {
    Pubkey::new_from_array([b; 32])
}

fn config() -> Config {
    Config {
        initialized: true,
        authority: key(1),
        fee_recipient: key(2),
        initial_virtual_token_reserves: 1_073_000_000_000_000,
        initial_virtual_sol_reserves: 30_000_000_000,
        initial_real_token_reserves: 793_100_000_000_000,
        token_total_supply: 1_000_000_000_000_000,
        fee_base_points: 100,
        fee_stakeholders: 2000,
        epoch_duration: 100,
        bump: 255,
        stake_token: key(3),
    }
}

fn open_pool(at: i64) -> StakeHolder {
    let mut ctx = CreateStakeHolder { stake_holder: StakeHolder::default(), stake_holder_bump: 250 };
    CreateStakeHolder::apply(&mut ctx, at).unwrap();
    ctx.stake_holder
}

fn stake(
    holder: StakeHolder,
    info: UserStakeInfo,
    user: u8,
    amount: u64,
    at: i64,
) -> (StakeHolder, UserStakeInfo, Result<pixel::StakeEvent, PixelError>) {
    let mut ctx = Stake {
        config: config(),
        stake_holder: holder,
        user_stake_info: info,
        user_stake_info_bump: 240,
        user: key(user),
    };
    let params = StakeParams { amount };
    assert!(Stake::fits(&ctx, &params, at));
    let r = Stake::apply(&mut ctx, &params, at);
    (ctx.stake_holder, ctx.user_stake_info, r)
}

#[test]
fn create_stake_holder_opens_epoch_zero() {
    let h = open_pool(1000);
    assert!(h.initialized);
    assert_eq!(h.bump, 250);
    assert_eq!(h.first_epoch_start_time, 1000);
    assert_eq!(h.rewards.get(&0), Some(&0));
    assert_eq!(h.total_stakes.get(&0), Some(&0));
    let mut again = CreateStakeHolder { stake_holder: h.clone(), stake_holder_bump: 1 };
    assert_eq!(CreateStakeHolder::apply(&mut again, 5000), Err(PixelError::AlreadyInitialized));
    assert_eq!(again.stake_holder, h);
}

#[test]
fn create_stake_holder_truncates_clock_to_32_bits() {
    let h = open_pool((1i64 << 32) + 7);
    assert_eq!(h.first_epoch_start_time, 7);
}

#[test]
fn first_stake_opens_position_counted_from_next_epoch() {
    let h = open_pool(1000);
    let (h, info, r) = stake(h, UserStakeInfo::default(), 5, 1000, 1050);
    let ev = r.unwrap();
    assert_eq!(ev.staker, key(5));
    assert_eq!(ev.amount, 1000);
    assert_eq!(h.curent_total_stake, 1000);
    assert_eq!(h.total_stakes.get(&1), Some(&1000));
    assert_eq!(
        info,
        UserStakeInfo { initialized: true, stake_amount: 1000, pending_reward: 0, last_epoch: 0, bump: 240 }
    );
}

#[test]
fn stakers_earn_fee_rewards_of_past_epochs_and_claim_them() {
    let h = open_pool(1000);
    let (h, alice, _) = stake(h, UserStakeInfo::default(), 5, 1000, 1050);
    // a purchase in epoch 1 pays 55_970 lamports to the stakers
    let mut buy = Buy {
        bonding_curve: BondingCurve {
            virtual_token_reserves: 1_073_000_000_000_000,
            virtual_sol_reserves: 30_000_000_000,
            real_token_reserves: 793_100_000_000_000,
            real_sol_reserves: 0,
            token_total_supply: 1_000_000_000_000_000,
            complete: false,
            bump: 1,
        },
        config: config(),
        stake_holder: h,
        token_mint: key(9),
        user: key(7),
    };
    Buy::apply(&mut buy, &BuyParams { amount: 1_000_000_000_000, max_sol_cost: u64::MAX }, 1150)
        .unwrap();
    let h = buy.stake_holder;
    assert_eq!(h.rewards.get(&1), Some(&55_970));
    // bob stakes during epoch 1: counted from epoch 2
    let (h, bob, _) = stake(h, UserStakeInfo::default(), 6, 3000, 1160);
    assert_eq!(h.total_stakes.get(&2), Some(&3000));
    assert_eq!(bob.last_epoch, 1);

    // in epoch 3 alice can claim the whole of epoch 1's reward
    let mut claim = Claim { config: config(), stake_holder: h.clone(), user_stake_info: alice };
    assert!(Claim::fits(&claim, 1350));
    assert_eq!(Claim::apply(&mut claim, 1350), Ok(55_970));
    assert_eq!(claim.user_stake_info.pending_reward, 0);
    assert_eq!(claim.user_stake_info.last_epoch, 0);
    assert_eq!(claim.stake_holder, h);

    // staking again in epoch 4 settles epochs 1 to 3 into the pending reward
    let (h2, alice2, _) = stake(h.clone(), alice, 5, 500, 1450);
    assert_eq!(alice2.pending_reward, 55_970);
    assert_eq!(alice2.stake_amount, 1500);
    assert_eq!(alice2.last_epoch, 4);
    assert_eq!(h2.curent_total_stake, 4500);
    assert_eq!(h2.total_stakes.get(&5), Some(&500));

    // bob's stake counts in epoch 2 only, which collected no reward
    let mut claim = Claim { config: config(), stake_holder: h2, user_stake_info: bob };
    assert_eq!(Claim::apply(&mut claim, 1450), Ok(0));
}

#[test]
fn reward_uses_last_seen_total_when_epoch_has_none() {
    let mut h = open_pool(0);
    h.total_stakes.insert(1, 400);
    h.rewards.insert(1, 1000);
    h.rewards.insert(2, 600);
    let info = UserStakeInfo { initialized: true, stake_amount: 100, pending_reward: 7, last_epoch: 0, bump: 0 };
    let mut claim = Claim { config: config(), stake_holder: h, user_stake_info: info };
    // epoch 1: 100 * 1000 / 400; epoch 2 falls back to the total 400
    assert_eq!(Claim::apply(&mut claim, 350), Ok(7 + 250 + 150));
}

#[test]
fn staking_after_last_epoch_is_refused() {
    let h = open_pool(1000);
    let mut ctx = Stake {
        config: config(),
        stake_holder: h.clone(),
        user_stake_info: UserStakeInfo::default(),
        user_stake_info_bump: 0,
        user: key(5),
    };
    assert_eq!(Stake::apply(&mut ctx, &StakeParams { amount: 10 }, 31_000), Err(PixelError::EpochExceed));
    // the running total was raised before the epoch was found closed
    assert_eq!(ctx.stake_holder.curent_total_stake, h.curent_total_stake + 10);
    assert_eq!(ctx.stake_holder.total_stakes, h.total_stakes);
    assert_eq!(ctx.stake_holder.rewards, h.rewards);
    assert_eq!(ctx.user_stake_info, UserStakeInfo::default());
    let mut claim = Claim { config: config(), stake_holder: h, user_stake_info: UserStakeInfo::default() };
    assert_eq!(Claim::apply(&mut claim, 40_000), Err(PixelError::EpochExceed));
}

#[test]
fn fits_reports_clock_before_pool_and_overflow() {
    let h = open_pool(1000);
    let ctx = Stake {
        config: config(),
        stake_holder: h.clone(),
        user_stake_info: UserStakeInfo::default(),
        user_stake_info_bump: 0,
        user: key(5),
    };
    assert!(!Stake::fits(&ctx, &StakeParams { amount: 1 }, 999));
    let mut full = h.clone();
    full.curent_total_stake = u64::MAX;
    let ctx = Stake { stake_holder: full, ..ctx };
    assert!(!Stake::fits(&ctx, &StakeParams { amount: 1 }, 1500));
    let mut rich = h;
    rich.rewards.insert(1, u64::MAX);
    rich.total_stakes.insert(1, 1);
    let info = UserStakeInfo { initialized: true, stake_amount: 2, pending_reward: 0, last_epoch: 0, bump: 0 };
    let claim = Claim { config: config(), stake_holder: rich, user_stake_info: info };
    assert!(!Claim::fits(&claim, 1300));
}
