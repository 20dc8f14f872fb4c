use crate::errors::PixelError;
use crate::events::StakeEvent;
use crate::state::{Config, StakeHolder, UserStakeInfo, MAX_EPOCH};
use crate::utils::staking::{
    check_credit,
    checked_settle_rewards,
    credit_epoch,
    credit_fits,
    credited,
    current_epoch,
    epoch_of,
    settle_rewards,
    settled_rewards,
    settlement_fits,
};
use anchor_lang::prelude::Pubkey;
use vstd::prelude::*;

verus! {

/// The accounts the `stake` instruction works on.
pub struct Stake {
    pub config: Config,
    pub stake_holder: StakeHolder,
    pub user_stake_info: UserStakeInfo,
    /// bump seed of the staker's position address
    pub user_stake_info_bump: u8,
    pub user: Pubkey,
}

/// How many stake tokens to stake.
#[derive(Debug, Clone, Copy, PartialEq, Eq)]
pub struct StakeParams {
    pub amount: u64,
}

/// The staking epoch at clock reading `unix_timestamp`.
pub open spec fn pool_epoch(holder: StakeHolder, config: Config, unix_timestamp: i64) -> u16 {
    epoch_of(unix_timestamp as u32, holder.first_epoch_start_time, config.epoch_duration)
}

/// The clock reading can be turned into an epoch: it is not before the first
/// epoch, and epochs have a length.
pub open spec fn pool_clock_fits(holder: StakeHolder, config: Config, unix_timestamp: i64) -> bool {
    &&& holder.first_epoch_start_time <= unix_timestamp as u32
    &&& config.epoch_duration > 0
}

/// Rewards the position `info` has earned and not yet been credited, as of `epoch`.
pub open spec fn position_rewards(holder: StakeHolder, info: UserStakeInfo, epoch: u16) -> int {
    settled_rewards(
        holder.rewards@,
        holder.total_stakes@,
        info.stake_amount,
        info.last_epoch,
        epoch,
    )
}

/// The position after staking `amount` more in `epoch`: a new position starts
/// with that stake; an existing one is first credited the rewards it earned.
pub open spec fn position_after_stake(
    info: UserStakeInfo,
    holder: StakeHolder,
    amount: u64,
    epoch: u16,
    bump: u8,
) -> UserStakeInfo {
    if !info.initialized {
        UserStakeInfo {
            initialized: true,
            pending_reward: 0,
            bump: bump,
            stake_amount: amount,
            last_epoch: epoch,
        }
    } else {
        UserStakeInfo {
            pending_reward: (info.pending_reward + position_rewards(holder, info, epoch)) as u64,
            stake_amount: (info.stake_amount + amount) as u64,
            last_epoch: epoch,
            ..info
        }
    }
}

/// Staking runs to an answer without an arithmetic fault.
pub open spec fn stake_fits(ctx: Stake, params: StakeParams, unix_timestamp: i64) -> bool {
    let epoch = pool_epoch(ctx.stake_holder, ctx.config, unix_timestamp);
    let info = ctx.user_stake_info;
    &&& ctx.stake_holder.curent_total_stake + params.amount <= u64::MAX
    &&& pool_clock_fits(ctx.stake_holder, ctx.config, unix_timestamp)
    &&& epoch < MAX_EPOCH ==> {
        &&& credit_fits(ctx.stake_holder.total_stakes@, (epoch + 1) as u16, params.amount)
        &&& info.initialized ==> {
            &&& settlement_fits(
                ctx.stake_holder.rewards@,
                ctx.stake_holder.total_stakes@,
                info.stake_amount,
                info.last_epoch,
                epoch,
            )
            &&& info.pending_reward + position_rewards(ctx.stake_holder, info, epoch) <= u64::MAX
            &&& info.stake_amount + params.amount <= u64::MAX
        }
    }
}

impl Stake {
    /// Whether staking runs to an answer without an arithmetic fault
    /// (`stake_fits`); where it does not, the instruction aborts.
    pub fn fits(ctx: &Stake, params: &StakeParams, unix_timestamp: i64) -> (b: bool)
        ensures
            b == stake_fits(*ctx, *params, unix_timestamp),
    {
        if ctx.stake_holder.curent_total_stake > u64::MAX - params.amount {
            return false;
        }
        let start = ctx.stake_holder.first_epoch_start_time;
        if !(start <= unix_timestamp as u32 && ctx.config.epoch_duration > 0) {
            return false;
        }
        let epoch = current_epoch(unix_timestamp, start, ctx.config.epoch_duration);
        if epoch >= MAX_EPOCH {
            return true;
        }
        if !check_credit(&ctx.stake_holder.total_stakes, epoch + 1, params.amount) {
            return false;
        }
        let info = &ctx.user_stake_info;
        if info.initialized {
            match checked_settle_rewards(
                &ctx.stake_holder.rewards,
                &ctx.stake_holder.total_stakes,
                info.stake_amount,
                info.last_epoch,
                epoch,
            ) {
                None => false,
                Some(p) => info.pending_reward <= u64::MAX - p && info.stake_amount <= u64::MAX
                    - params.amount,
            }
        } else {
            true
        }
    }

    /// Records a stake of `params.amount` (already moved into the pool by the
    /// caller) at clock reading `unix_timestamp`.
    ///
    /// The stake is first added to the pool's running total. Refused with
    /// `EpochExceed` after that, changing nothing else, once the last epoch is
    /// past (the runtime discards the addition on a failed instruction).
    /// Otherwise the stake counts from the next epoch on, and the
    /// staker's position is settled up to the current epoch and grown.
    pub fn apply(ctx: &mut Stake, params: &StakeParams, unix_timestamp: i64) -> (r: Result<
        StakeEvent,
        PixelError,
    >)
        requires
            stake_fits(*old(ctx), *params, unix_timestamp),
        ensures
            ({
                let epoch = pool_epoch(old(ctx).stake_holder, old(ctx).config, unix_timestamp);
                &&& epoch >= MAX_EPOCH ==> {
                    &&& r == Err::<StakeEvent, PixelError>(PixelError::EpochExceed)
                    &&& final(ctx).stake_holder == StakeHolder {
                        curent_total_stake: (old(ctx).stake_holder.curent_total_stake
                            + params.amount) as u64,
                        ..old(ctx).stake_holder
                    }
                    &&& final(ctx).user_stake_info == old(ctx).user_stake_info
                    &&& final(ctx).config == old(ctx).config
                    &&& final(ctx).user_stake_info_bump == old(ctx).user_stake_info_bump
                    &&& final(ctx).user == old(ctx).user
                }
                &&& epoch < MAX_EPOCH ==> {
                    &&& r == Ok::<StakeEvent, PixelError>(
                        StakeEvent { staker: old(ctx).user, amount: params.amount },
                    )
                    &&& final(ctx).stake_holder.curent_total_stake == old(
                        ctx,
                    ).stake_holder.curent_total_stake + params.amount
                    &&& final(ctx).stake_holder.total_stakes@ == credited(
                        old(ctx).stake_holder.total_stakes@,
                        (epoch + 1) as u16,
                        params.amount,
                    )
                    &&& final(ctx).stake_holder.rewards == old(ctx).stake_holder.rewards
                    &&& final(ctx).stake_holder.initialized == old(ctx).stake_holder.initialized
                    &&& final(ctx).stake_holder.first_epoch_start_time == old(
                        ctx,
                    ).stake_holder.first_epoch_start_time
                    &&& final(ctx).stake_holder.bump == old(ctx).stake_holder.bump
                    &&& final(ctx).user_stake_info == position_after_stake(
                        old(ctx).user_stake_info,
                        old(ctx).stake_holder,
                        params.amount,
                        epoch,
                        old(ctx).user_stake_info_bump,
                    )
                    &&& final(ctx).config == old(ctx).config
                    &&& final(ctx).user_stake_info_bump == old(ctx).user_stake_info_bump
                    &&& final(ctx).user == old(ctx).user
                }
            }),
    {
        let stake_amount = params.amount;
        ctx.stake_holder.curent_total_stake = ctx.stake_holder.curent_total_stake + stake_amount;
        let epoch = current_epoch(
            unix_timestamp,
            ctx.stake_holder.first_epoch_start_time,
            ctx.config.epoch_duration,
        );
        if !(epoch < MAX_EPOCH) {
            return Err(PixelError::EpochExceed);
        }
        if !ctx.user_stake_info.initialized {
            ctx.user_stake_info.initialized = true;
            ctx.user_stake_info.pending_reward = 0;
            ctx.user_stake_info.bump = ctx.user_stake_info_bump;
            ctx.user_stake_info.stake_amount = stake_amount;
            ctx.user_stake_info.last_epoch = epoch;
        } else {
            let pending_rewards = settle_rewards(
                &ctx.stake_holder.rewards,
                &ctx.stake_holder.total_stakes,
                ctx.user_stake_info.stake_amount,
                ctx.user_stake_info.last_epoch,
                epoch,
            );
            ctx.user_stake_info.pending_reward = ctx.user_stake_info.pending_reward
                + pending_rewards;
            ctx.user_stake_info.stake_amount = ctx.user_stake_info.stake_amount + stake_amount;
            ctx.user_stake_info.last_epoch = epoch;
        }
        credit_epoch(&mut ctx.stake_holder.total_stakes, epoch + 1, stake_amount);
        Ok(StakeEvent { staker: ctx.user, amount: stake_amount })
    }
}

} // verus!
