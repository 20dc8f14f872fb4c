use anchor_lang::prelude::Pubkey;
use pixel::{Claim, Config, PixelError, StakeHolder, UserStakeInfo};

fn config(epoch_duration: u32) -> Config {
    Config {
        initialized: true,
        authority: Pubkey::default(),
        fee_recipient: Pubkey::default(),
        initial_virtual_token_reserves: 0,
        initial_virtual_sol_reserves: 0,
        initial_real_token_reserves: 0,
        token_total_supply: 0,
        fee_base_points: 0,
        fee_stakeholders: 0,
        epoch_duration,
        bump: 0,
        stake_token: Pubkey::default(),
    }
}

fn position(stake_amount: u64) -> UserStakeInfo {
    UserStakeInfo { initialized: true, stake_amount, pending_reward: 0, last_epoch: 0, bump: 0 }
}

#[test]
fn stakers_together_never_receive_more_than_the_epoch_reward() {
    let mut h = StakeHolder::default();
    h.initialized = true;
    h.rewards.insert(1, 100);
    h.total_stakes.insert(1, 3);
    let mut a = Claim { config: config(10), stake_holder: h.clone(), user_stake_info: position(1) };
    let mut b = Claim { config: config(10), stake_holder: h, user_stake_info: position(2) };
    let ra = Claim::apply(&mut a, 25).unwrap();
    let rb = Claim::apply(&mut b, 25).unwrap();
    assert_eq!((ra, rb), (33, 66));
    assert!(ra + rb <= 100);
}

#[test]
fn epoch_number_follows_the_clock() {
    let mut h = StakeHolder::default();
    h.first_epoch_start_time = 500;
    h.rewards.insert(3, 70);
    h.total_stakes.insert(3, 7);
    // the reward of epoch 3 becomes claimable once epoch 4 has begun
    let mut early = Claim { config: config(60), stake_holder: h.clone(), user_stake_info: position(7) };
    assert_eq!(Claim::apply(&mut early, 500 + 4 * 60 - 1), Ok(0));
    let mut later = Claim { config: config(60), stake_holder: h, user_stake_info: position(7) };
    assert_eq!(Claim::apply(&mut later, 500 + 4 * 60), Ok(70));
}

#[test]
fn error_messages() {
    assert_eq!(PixelError::NotInitialized.message(), "Account Not Initialized");
    assert_eq!(PixelError::AlreadyInitialized.message(), "Account Already Initialized");
    assert_eq!(PixelError::InvalidParam.message(), "Invalid Parameters");
    assert_eq!(PixelError::SlippageExceed.message(), "Slippage Exceed");
    assert_eq!(PixelError::SoldAllToken.message(), "Sold All Tokens");
    assert_eq!(PixelError::NotEnoughToken.message(), "Not Enough Tokens");
    assert_eq!(PixelError::NotEnoughAmount.message(), "Not Enough Amount");
    assert_eq!(PixelError::EpochExceed.message(), "Epoch Exceed");
}
