use crate::errors::PixelError;
use crate::state::Config;
use anchor_lang::prelude::Pubkey;
use vstd::prelude::*;

verus! {

/// The accounts the `create_config` instruction works on.
pub struct CreateConfig {
    /// the config account, as loaded
    pub config: Config,
    /// bump seed of the config account's address
    pub config_bump: u8,
}

/// Settings given when the config is first created.
#[derive(Debug, Clone, Copy, PartialEq, Eq)]
pub struct CreateConfigParams {
    pub authority: Pubkey,
    pub fee_recipient: Pubkey,
    pub initial_virtual_token_reserves: u64,
    pub initial_virtual_sol_reserves: u64,
    pub initial_real_token_reserves: u64,
    pub token_total_supply: u64,
    /// 100 is 1%
    pub fee_base_points: u64,
}

/// Highest trading fee rate (exclusive), in hundredths of a percent.
pub open spec fn fee_rate_limit() -> u64 {
    5000
}

/// The config after `create_config` set it from `params`.
pub open spec fn configured(config: Config, params: CreateConfigParams, bump: u8) -> Config {
    Config {
        initialized: true,
        authority: params.authority,
        fee_recipient: params.fee_recipient,
        initial_virtual_token_reserves: params.initial_virtual_token_reserves,
        initial_virtual_sol_reserves: params.initial_virtual_sol_reserves,
        initial_real_token_reserves: params.initial_real_token_reserves,
        token_total_supply: params.token_total_supply,
        fee_base_points: params.fee_base_points as u16,
        bump: bump,
        ..config
    }
}

impl CreateConfig {
    /// Initializes the global config. Refused when the config is already
    /// initialized, or when the fee rate is 50% or more.
    pub fn apply(ctx: &mut CreateConfig, params: &CreateConfigParams) -> (r: Result<(), PixelError>)
        ensures
            old(ctx).config.initialized ==> r == Err::<(), PixelError>(
                PixelError::AlreadyInitialized,
            ),
            !old(ctx).config.initialized && params.fee_base_points >= fee_rate_limit() ==> r
                == Err::<(), PixelError>(PixelError::InvalidParam),
            !old(ctx).config.initialized && params.fee_base_points < fee_rate_limit() ==> {
                &&& r is Ok
                &&& final(ctx).config == configured(old(ctx).config, *params, old(ctx).config_bump)
                &&& final(ctx).config_bump == old(ctx).config_bump
            },
            r is Err ==> *final(ctx) == *old(ctx),
    {
        if ctx.config.initialized {
            return Err(PixelError::AlreadyInitialized);
        }
        if !(params.fee_base_points < 5000) {
            return Err(PixelError::InvalidParam);
        }
        let config = &mut ctx.config;
        config.authority = params.authority;
        config.fee_recipient = params.fee_recipient;
        config.initial_virtual_token_reserves = params.initial_virtual_token_reserves;
        config.initial_virtual_sol_reserves = params.initial_virtual_sol_reserves;
        config.initial_real_token_reserves = params.initial_real_token_reserves;
        config.token_total_supply = params.token_total_supply;
        config.fee_base_points = params.fee_base_points as u16;
        config.bump = ctx.config_bump;
        config.initialized = true;
        Ok(())
    }
}

} // verus!
