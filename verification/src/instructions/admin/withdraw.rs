use crate::errors::LamportsError;
use crate::events::WithdrawEvent;
use crate::utils::token::transfer_sol_from_vault_to_user;
use anchor_lang::prelude::Pubkey;
use vstd::prelude::*;

verus! {

/// The accounts the `withdraw` instruction works on.
pub struct Withdraw {
    /// lamports held by the bonding curve's account
    pub bonding_curve_lamports: u64,
    /// lamports held by the authority's account
    pub authority_lamports: u64,
    /// tokens held by the bonding curve's token account
    pub vault_token_amount: u64,
    pub token_mint: Pubkey,
    pub authority: Pubkey,
}

impl Withdraw {
    /// Drains a bonding curve: every token of its vault and every lamport of
    /// its account go to the authority. The returned event gives both amounts;
    /// the lamports are moved here, the tokens by the caller.
    pub fn apply(ctx: &mut Withdraw) -> (r: Result<WithdrawEvent, LamportsError>)
        ensures
            r is Ok <==> old(ctx).authority_lamports + old(ctx).bonding_curve_lamports <= u64::MAX,
            r matches Ok(ev) ==> {
                &&& ev == WithdrawEvent {
                    mint: old(ctx).token_mint,
                    withdrawer: old(ctx).authority,
                    sol_output: old(ctx).bonding_curve_lamports,
                    token_output: old(ctx).vault_token_amount,
                }
                &&& final(ctx).bonding_curve_lamports == 0
                &&& final(ctx).authority_lamports == old(ctx).authority_lamports + old(
                    ctx,
                ).bonding_curve_lamports
                &&& final(ctx).vault_token_amount == old(ctx).vault_token_amount
                &&& final(ctx).token_mint == old(ctx).token_mint
                &&& final(ctx).authority == old(ctx).authority
            },
            r is Err ==> *final(ctx) == *old(ctx),
    {
        let sol_amount = ctx.bonding_curve_lamports;
        let token_amount = ctx.vault_token_amount;
        match transfer_sol_from_vault_to_user(
            &mut ctx.bonding_curve_lamports,
            &mut ctx.authority_lamports,
            sol_amount,
        ) {
            Ok(()) => {},
            Err(e) => return Err(e),
        }
        Ok(
            WithdrawEvent {
                mint: ctx.token_mint,
                withdrawer: ctx.authority,
                sol_output: sol_amount,
                token_output: token_amount,
            },
        )
    }
}

} // verus!
