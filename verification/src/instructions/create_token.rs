use crate::errors::PixelError;
use crate::events::CreateTokenEvent;
use crate::state::{BondingCurve, Config};
use anchor_lang::prelude::Pubkey;
use vstd::prelude::*;
use vstd::utf8::{decode_utf8, valid_utf8};

verus! {

/// The accounts the `create_token` instruction works on.
pub struct CreateToken {
    pub config: Config,
    /// the new token's bonding curve account, as loaded
    pub bonding_curve: BondingCurve,
    /// bump seed of the bonding curve's address
    pub bonding_curve_bump: u8,
    pub payer: Pubkey,
    pub token_mint: Pubkey,
}

/// Metadata of a new token, as UTF-8 bytes.
#[derive(Debug, Clone, PartialEq, Eq)]
pub struct CreateTokenParams {
    pub name: Vec<u8>,
    pub symbol: Vec<u8>,
    pub uri: Vec<u8>,
}

/// `String::from_utf8`: the text the bytes encode, or `None` when they are not
/// valid UTF-8. Claimed here: it succeeds exactly on valid UTF-8 and then
/// holds the decoded characters.
#[verifier::external_body]
fn string_from_utf8(bytes: &[u8]) -> (r: Option<String>)
    ensures
        r is Some <==> valid_utf8(bytes@),
        r matches Some(s) ==> s@ == decode_utf8(bytes@),
{
    String::from_utf8(bytes.to_vec()).ok()
}

/// A fresh bonding curve, set from the config's initial reserves.
pub open spec fn fresh_curve(config: Config, bump: u8) -> BondingCurve {
    BondingCurve {
        bump: bump,
        complete: false,
        token_total_supply: config.token_total_supply,
        virtual_sol_reserves: config.initial_virtual_sol_reserves,
        virtual_token_reserves: config.initial_virtual_token_reserves,
        real_sol_reserves: 0,
        real_token_reserves: config.initial_real_token_reserves,
    }
}

impl CreateToken {
    /// Sets up the bonding curve of a new token from the config and returns
    /// the creation event, whose texts are the decoded metadata. Refused with
    /// `NotInitialized`, changing nothing, before the config is initialized.
    /// The caller mints `config.token_total_supply` tokens to the curve.
    pub fn apply(ctx: &mut CreateToken, params: &CreateTokenParams) -> (r: Result<
        CreateTokenEvent,
        PixelError,
    >)
        requires
            old(ctx).config.initialized ==> {
                &&& valid_utf8(params.name@)
                &&& valid_utf8(params.symbol@)
                &&& valid_utf8(params.uri@)
            },
        ensures
            !old(ctx).config.initialized ==> r == Err::<CreateTokenEvent, PixelError>(
                PixelError::NotInitialized,
            ) && *final(ctx) == *old(ctx),
            old(ctx).config.initialized ==> {
                &&& r matches Ok(ev) && {
                    &&& ev.creator == old(ctx).payer
                    &&& ev.mint == old(ctx).token_mint
                    &&& ev.token_name@ == decode_utf8(params.name@)
                    &&& ev.token_symbol@ == decode_utf8(params.symbol@)
                    &&& ev.token_uri@ == decode_utf8(params.uri@)
                }
                &&& final(ctx).bonding_curve == fresh_curve(
                    old(ctx).config,
                    old(ctx).bonding_curve_bump,
                )
                &&& final(ctx).config == old(ctx).config
                &&& final(ctx).bonding_curve_bump == old(ctx).bonding_curve_bump
                &&& final(ctx).payer == old(ctx).payer
                &&& final(ctx).token_mint == old(ctx).token_mint
            },
    {
        if !ctx.config.initialized {
            return Err(PixelError::NotInitialized);
        }
        let token_name = string_from_utf8(params.name.as_slice()).unwrap();
        let token_symbol = string_from_utf8(params.symbol.as_slice()).unwrap();
        let token_uri = string_from_utf8(params.uri.as_slice()).unwrap();
        let bonding_curve = &mut ctx.bonding_curve;
        bonding_curve.bump = ctx.bonding_curve_bump;
        bonding_curve.complete = false;
        bonding_curve.token_total_supply = ctx.config.token_total_supply;
        bonding_curve.virtual_sol_reserves = ctx.config.initial_virtual_sol_reserves;
        bonding_curve.virtual_token_reserves = ctx.config.initial_virtual_token_reserves;
        bonding_curve.real_sol_reserves = 0;
        bonding_curve.real_token_reserves = ctx.config.initial_real_token_reserves;
        Ok(
            CreateTokenEvent {
                creator: ctx.payer,
                token_name,
                token_symbol,
                token_uri,
                mint: ctx.token_mint,
            },
        )
    }
}

} // verus!
