use crate::errors::LamportsError;
use crate::utils::token::transfer_sol_from_vault_to_user;
use vstd::prelude::*;

verus! {

/// The balances the `withdraw_stake_holder` instruction works on.
pub struct WithdrawStakeHolder {
    /// lamports held by the staking pool's account
    pub stake_holder_lamports: u64,
    /// lamports held by the authority's account
    pub authority_lamports: u64,
}

impl WithdrawStakeHolder {
    /// Moves every lamport of the staking pool's account to the authority.
    pub fn apply(ctx: &mut WithdrawStakeHolder) -> (r: Result<(), LamportsError>)
        ensures
            r is Ok <==> old(ctx).authority_lamports + old(ctx).stake_holder_lamports <= u64::MAX,
            r is Ok ==> final(ctx).stake_holder_lamports == 0 && final(ctx).authority_lamports
                == old(ctx).authority_lamports + old(ctx).stake_holder_lamports,
            r is Err ==> *final(ctx) == *old(ctx),
    {
        let sol_amount = ctx.stake_holder_lamports;
        transfer_sol_from_vault_to_user(
            &mut ctx.stake_holder_lamports,
            &mut ctx.authority_lamports,
            sol_amount,
        )
    }
}

} // verus!
