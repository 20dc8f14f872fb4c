use anchor_lang::prelude::Pubkey;
use vstd::prelude::*;

verus! {

/// Global program settings.
#[derive(Debug, Clone, Copy, PartialEq, Eq)]
pub struct Config {
    pub initialized: bool,
    /// authority allowed to modify the config
    pub authority: Pubkey,
    pub fee_recipient: Pubkey,
    pub initial_virtual_token_reserves: u64,
    pub initial_virtual_sol_reserves: u64,
    pub initial_real_token_reserves: u64,
    pub token_total_supply: u64,
    /// trading fee, in hundredths of a percent (100 is 1%)
    pub fee_base_points: u16,
    /// share of the trading fee that goes to stakers, in hundredths of a percent
    pub fee_stakeholders: u16,
    /// length of a staking epoch, in seconds
    pub epoch_duration: u32,
    pub bump: u8,
    pub stake_token: Pubkey,
}

} // verus!
