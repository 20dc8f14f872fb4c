use crate::errors::PixelError;
use crate::state::StakeHolder;
use vstd::prelude::*;

verus! {

/// The accounts the `create_stake_holder` instruction works on.
pub struct CreateStakeHolder {
    pub stake_holder: StakeHolder,
    /// bump seed of the staking pool's address
    pub stake_holder_bump: u8,
}

impl CreateStakeHolder {
    /// Opens the staking pool: its first epoch starts at the given clock
    /// reading (seconds, truncated to 32 bits), and epoch 0 starts with no
    /// reward and no stake. Refused when the pool is already initialized.
    pub fn apply(ctx: &mut CreateStakeHolder, unix_timestamp: i64) -> (r: Result<(), PixelError>)
        ensures
            old(ctx).stake_holder.initialized ==> r == Err::<(), PixelError>(
                PixelError::AlreadyInitialized,
            ) && *final(ctx) == *old(ctx),
            !old(ctx).stake_holder.initialized ==> {
                &&& r is Ok
                &&& final(ctx).stake_holder.initialized
                &&& final(ctx).stake_holder.bump == old(ctx).stake_holder_bump
                &&& final(ctx).stake_holder.first_epoch_start_time == unix_timestamp as u32
                &&& final(ctx).stake_holder.rewards@ == old(ctx).stake_holder.rewards@.insert(0, 0)
                &&& final(ctx).stake_holder.total_stakes@ == old(
                    ctx,
                ).stake_holder.total_stakes@.insert(0, 0)
                &&& final(ctx).stake_holder.curent_total_stake == old(
                    ctx,
                ).stake_holder.curent_total_stake
                &&& final(ctx).stake_holder_bump == old(ctx).stake_holder_bump
            },
    {
        if ctx.stake_holder.initialized {
            return Err(PixelError::AlreadyInitialized);
        }
        ctx.stake_holder.initialized = true;
        ctx.stake_holder.bump = ctx.stake_holder_bump;
        ctx.stake_holder.first_epoch_start_time = unix_timestamp as u32;
        ctx.stake_holder.rewards.insert(0, 0);
        ctx.stake_holder.total_stakes.insert(0, 0);
        Ok(())
    }
}

} // verus!
