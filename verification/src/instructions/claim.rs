use crate::errors::PixelError;
use crate::instructions::stake::{pool_clock_fits, pool_epoch, position_rewards};
use crate::state::{Config, StakeHolder, UserStakeInfo, MAX_EPOCH};
use crate::utils::staking::{checked_settle_rewards, current_epoch, settle_rewards, settlement_fits};
use vstd::prelude::*;

verus! {

/// The accounts the `claim` instruction works on.
pub struct Claim {
    pub config: Config,
    pub stake_holder: StakeHolder,
    pub user_stake_info: UserStakeInfo,
}

/// Claiming runs to an answer without an arithmetic fault.
pub open spec fn claim_fits(ctx: Claim, unix_timestamp: i64) -> bool {
    let epoch = pool_epoch(ctx.stake_holder, ctx.config, unix_timestamp);
    let info = ctx.user_stake_info;
    &&& pool_clock_fits(ctx.stake_holder, ctx.config, unix_timestamp)
    &&& epoch < MAX_EPOCH ==> {
        &&& settlement_fits(
            ctx.stake_holder.rewards@,
            ctx.stake_holder.total_stakes@,
            info.stake_amount,
            info.last_epoch,
            epoch,
        )
        &&& info.pending_reward + position_rewards(ctx.stake_holder, info, epoch) <= u64::MAX
    }
}

impl Claim {
    /// Whether claiming runs to an answer without an arithmetic fault
    /// (`claim_fits`); where it does not, the instruction aborts.
    pub fn fits(ctx: &Claim, unix_timestamp: i64) -> (b: bool)
        ensures
            b == claim_fits(*ctx, unix_timestamp),
    {
        let start = ctx.stake_holder.first_epoch_start_time;
        if !(start <= unix_timestamp as u32 && ctx.config.epoch_duration > 0) {
            return false;
        }
        let epoch = current_epoch(unix_timestamp, start, ctx.config.epoch_duration);
        if epoch >= MAX_EPOCH {
            return true;
        }
        let info = &ctx.user_stake_info;
        match checked_settle_rewards(
            &ctx.stake_holder.rewards,
            &ctx.stake_holder.total_stakes,
            info.stake_amount,
            info.last_epoch,
            epoch,
        ) {
            None => false,
            Some(p) => info.pending_reward <= u64::MAX - p,
        }
    }

    /// Claims a staker's rewards at clock reading `unix_timestamp`: returns the
    /// lamports the caller pays out of the pool (the pending reward plus what
    /// the position earned since its last settlement) and clears the pending
    /// reward. Refused with `EpochExceed`, changing nothing, once the last
    /// epoch is past.
    pub fn apply(ctx: &mut Claim, unix_timestamp: i64) -> (r: Result<u64, PixelError>)
        requires
            claim_fits(*old(ctx), unix_timestamp),
        ensures
            ({
                let epoch = pool_epoch(old(ctx).stake_holder, old(ctx).config, unix_timestamp);
                let info = old(ctx).user_stake_info;
                &&& epoch >= MAX_EPOCH ==> r == Err::<u64, PixelError>(PixelError::EpochExceed)
                    && *final(ctx) == *old(ctx)
                &&& epoch < MAX_EPOCH ==> {
                    &&& r == Ok::<u64, PixelError>(
                        (info.pending_reward + position_rewards(
                            old(ctx).stake_holder,
                            info,
                            epoch,
                        )) as u64,
                    )
                    &&& final(ctx).user_stake_info == UserStakeInfo { pending_reward: 0, ..info }
                    &&& final(ctx).stake_holder == old(ctx).stake_holder
                    &&& final(ctx).config == old(ctx).config
                }
            }),
    {
        let mut claim_sol_amount = ctx.user_stake_info.pending_reward;
        let epoch = current_epoch(
            unix_timestamp,
            ctx.stake_holder.first_epoch_start_time,
            ctx.config.epoch_duration,
        );
        if !(epoch < MAX_EPOCH) {
            return Err(PixelError::EpochExceed);
        }
        let pending_rewards = settle_rewards(
            &ctx.stake_holder.rewards,
            &ctx.stake_holder.total_stakes,
            ctx.user_stake_info.stake_amount,
            ctx.user_stake_info.last_epoch,
            epoch,
        );
        claim_sol_amount = claim_sol_amount + pending_rewards;
        ctx.user_stake_info.pending_reward = 0;
        Ok(claim_sol_amount)
    }
}

} // verus!
