use crate::errors::PixelError;
use crate::instructions::admin::create_config::fee_rate_limit;
use crate::state::Config;
use anchor_lang::prelude::Pubkey;
use vstd::prelude::*;

verus! {

/// The accounts the `update_config` instruction works on.
pub struct UpdateConfig {
    pub config: Config,
}

/// Settings to change; `None` leaves a setting as it is.
#[derive(Debug, Clone, Copy, PartialEq, Eq)]
pub struct UpdateConfigParams {
    pub authority: Option<Pubkey>,
    pub fee_recipient: Option<Pubkey>,
    pub initial_virtual_token_reserves: Option<u64>,
    pub initial_virtual_sol_reserves: Option<u64>,
    pub initial_real_token_reserves: Option<u64>,
    pub token_total_supply: Option<u64>,
    /// 100 is 1%
    pub fee_base_points: Option<u64>,
}

/// `new` when it is given, else `current`.
pub open spec fn updated<T>(current: T, new: Option<T>) -> T {
    match new {
        Some(v) => v,
        None => current,
    }
}

/// The config after the settings that come before the fee rate (authority,
/// fee recipient, initial reserves) replaced its own.
pub open spec fn config_updated_before_fee(config: Config, params: UpdateConfigParams) -> Config {
    Config {
        authority: updated(config.authority, params.authority),
        fee_recipient: updated(config.fee_recipient, params.fee_recipient),
        initial_virtual_token_reserves: updated(
            config.initial_virtual_token_reserves,
            params.initial_virtual_token_reserves,
        ),
        initial_virtual_sol_reserves: updated(
            config.initial_virtual_sol_reserves,
            params.initial_virtual_sol_reserves,
        ),
        initial_real_token_reserves: updated(
            config.initial_real_token_reserves,
            params.initial_real_token_reserves,
        ),
        ..config
    }
}

/// The config after every given setting of `params` replaced its own.
pub open spec fn config_updated(config: Config, params: UpdateConfigParams) -> Config {
    Config {
        authority: updated(config.authority, params.authority),
        fee_recipient: updated(config.fee_recipient, params.fee_recipient),
        initial_virtual_token_reserves: updated(
            config.initial_virtual_token_reserves,
            params.initial_virtual_token_reserves,
        ),
        initial_virtual_sol_reserves: updated(
            config.initial_virtual_sol_reserves,
            params.initial_virtual_sol_reserves,
        ),
        initial_real_token_reserves: updated(
            config.initial_real_token_reserves,
            params.initial_real_token_reserves,
        ),
        token_total_supply: updated(config.token_total_supply, params.token_total_supply),
        fee_base_points: match params.fee_base_points {
            Some(v) => v as u16,
            None => config.fee_base_points,
        },
        ..config
    }
}

/// The update is refused: a new fee rate of 50% or more.
pub open spec fn update_refused(params: UpdateConfigParams) -> bool {
    params.fee_base_points matches Some(v) && v >= fee_rate_limit()
}

impl UpdateConfig {
    /// Replaces, in order, the settings that `params` gives. A new fee rate of
    /// 50% or more is refused when its turn comes: the authority, fee recipient
    /// and initial reserves have been replaced by then, the fee rate and token
    /// supply have not (the runtime discards them all on a failed instruction).
    pub fn apply(ctx: &mut UpdateConfig, params: &UpdateConfigParams) -> (r: Result<(), PixelError>)
        ensures
            update_refused(*params) ==> r == Err::<(), PixelError>(PixelError::InvalidParam)
                && final(ctx).config == config_updated_before_fee(old(ctx).config, *params),
            !update_refused(*params) ==> r is Ok && final(ctx).config == config_updated(
                old(ctx).config,
                *params,
            ),
    {
        let config = &mut ctx.config;
        if let Some(v) = params.authority {
            config.authority = v;
        }
        if let Some(v) = params.fee_recipient {
            config.fee_recipient = v;
        }
        if let Some(v) = params.initial_virtual_token_reserves {
            config.initial_virtual_token_reserves = v;
        }
        if let Some(v) = params.initial_virtual_sol_reserves {
            config.initial_virtual_sol_reserves = v;
        }
        if let Some(v) = params.initial_real_token_reserves {
            config.initial_real_token_reserves = v;
        }
        if let Some(v) = params.fee_base_points {
            if !(v < 5000) {
                return Err(PixelError::InvalidParam);
            }
            config.fee_base_points = v as u16;
        }
        if let Some(v) = params.token_total_supply {
            config.token_total_supply = v;
        }
        Ok(())
    }
}

} // verus!
