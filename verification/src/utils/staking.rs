use std::collections::BTreeMap;
use vstd::prelude::*;

verus! {

broadcast use vstd::std_specs::btree::group_btree_axioms;

/// Epoch that contains time `now`, for epochs of `duration` seconds starting at
/// `start`; the quotient is truncated to 16 bits.
pub open spec fn epoch_of(now: u32, start: u32, duration: u32) -> u16 {
    ((now - start) / (duration as int)) as u16
}

/// The epoch of the given clock reading (seconds, truncated to 32 bits).
pub fn current_epoch(unix_timestamp: i64, first_epoch_start_time: u32, epoch_duration: u32) -> (e:
    u16)
    requires
        first_epoch_start_time <= unix_timestamp as u32,
        epoch_duration > 0,
    ensures
        e == epoch_of(unix_timestamp as u32, first_epoch_start_time, epoch_duration),
{
    let current_time = unix_timestamp as u32;
    ((current_time - first_epoch_start_time) / epoch_duration) as u16
}

/// The per-epoch map after adding `amount` to the entry of `epoch`
/// (a missing entry counts as zero).
pub open spec fn credited(m: Map<u16, u64>, epoch: u16, amount: u64) -> Map<u16, u64> {
    if m.contains_key(epoch) {
        m.insert(epoch, (m[epoch] + amount) as u64)
    } else {
        m.insert(epoch, amount)
    }
}

/// Adding `amount` to the entry of `epoch` does not overflow.
pub open spec fn credit_fits(m: Map<u16, u64>, epoch: u16, amount: u64) -> bool {
    m.contains_key(epoch) ==> m[epoch] + amount <= u64::MAX
}

/// Adds `amount` to the entry of `epoch`, creating it when missing.
pub fn credit_epoch(map: &mut BTreeMap<u16, u64>, epoch: u16, amount: u64)
    requires
        credit_fits(old(map)@, epoch, amount),
    ensures
        final(map)@ == credited(old(map)@, epoch, amount),
{
    match map.get(&epoch) {
        Some(x) => {
            let sum = *x + amount;
            map.insert(epoch, sum);
        },
        None => {
            map.insert(epoch, amount);
        },
    }
}

/// A staker's share of one epoch's reward: `stake * reward / total`, or
/// nothing when the total stake is zero.
pub open spec fn reward_share(stake: u64, reward: u64, total: u64) -> int {
    if total > 0 {
        stake * reward / (total as int)
    } else {
        0
    }
}

/// The stake total used for epoch `e`: its own entry when it has one,
/// otherwise the last total seen.
pub open spec fn epoch_total(stakes: Map<u16, u64>, e: u16, prev_total: u64) -> u64 {
    if stakes.contains_key(e) {
        stakes[e]
    } else {
        prev_total
    }
}

/// Rewards earned by `stake` over epochs `from .. to`. Only epochs with a
/// reward entry count; for those, the stake total is the epoch's own entry,
/// or, missing that, the total of the last rewarded epoch that had one
/// (`prev_total` before the first).
pub open spec fn accrued_rewards(
    rewards: Map<u16, u64>,
    stakes: Map<u16, u64>,
    stake: u64,
    from: int,
    to: int,
    prev_total: u64,
) -> int
    decreases to - from,
{
    if from >= to {
        0
    } else if rewards.contains_key(from as u16) {
        let total = epoch_total(stakes, from as u16, prev_total);
        reward_share(stake, rewards[from as u16], total) + accrued_rewards(
            rewards,
            stakes,
            stake,
            from + 1,
            to,
            total,
        )
    } else {
        accrued_rewards(rewards, stakes, stake, from + 1, to, prev_total)
    }
}

/// Every product `stake * reward` taken over epochs `from .. to` fits in `u64`.
pub open spec fn shares_fit(
    rewards: Map<u16, u64>,
    stakes: Map<u16, u64>,
    stake: u64,
    from: int,
    to: int,
    prev_total: u64,
) -> bool
    decreases to - from,
{
    if from >= to {
        true
    } else if rewards.contains_key(from as u16) {
        let total = epoch_total(stakes, from as u16, prev_total);
        &&& (total > 0 ==> stake * rewards[from as u16] <= u64::MAX)
        &&& shares_fit(rewards, stakes, stake, from + 1, to, total)
    } else {
        shares_fit(rewards, stakes, stake, from + 1, to, prev_total)
    }
}

/// Rewards a position of `stake` last settled in `last_epoch` has earned by
/// `current_epoch`: those of the whole epochs strictly between the two.
pub open spec fn settled_rewards(
    rewards: Map<u16, u64>,
    stakes: Map<u16, u64>,
    stake: u64,
    last_epoch: u16,
    current_epoch: u16,
) -> int {
    if stake > 0 && last_epoch + 1 < current_epoch {
        accrued_rewards(rewards, stakes, stake, last_epoch + 1, current_epoch as int, 0)
    } else {
        0
    }
}

/// The settlement of a position can be computed in `u64` without overflow.
pub open spec fn settlement_fits(
    rewards: Map<u16, u64>,
    stakes: Map<u16, u64>,
    stake: u64,
    last_epoch: u16,
    current_epoch: u16,
) -> bool {
    stake > 0 ==> {
        &&& last_epoch < u16::MAX
        &&& last_epoch + 1 < current_epoch ==> {
            &&& shares_fit(rewards, stakes, stake, last_epoch + 1, current_epoch as int, 0)
            &&& accrued_rewards(rewards, stakes, stake, last_epoch + 1, current_epoch as int, 0)
                <= u64::MAX
        }
    }
}

/// Accrued rewards are never negative.
pub proof fn lemma_accrued_rewards_nonneg(
    rewards: Map<u16, u64>,
    stakes: Map<u16, u64>,
    stake: u64,
    from: int,
    to: int,
    prev_total: u64,
)
    ensures
        accrued_rewards(rewards, stakes, stake, from, to, prev_total) >= 0,
    decreases to - from,
{
    if from < to {
        if rewards.contains_key(from as u16) {
            let total = epoch_total(stakes, from as u16, prev_total);
            lemma_accrued_rewards_nonneg(rewards, stakes, stake, from + 1, to, total);
            if total > 0 {
                let p = stake * rewards[from as u16];
                assert(p / (total as int) >= 0) by (nonlinear_arith)
                    requires
                        p >= 0,
                        total > 0,
                ;
            }
        } else {
            lemma_accrued_rewards_nonneg(rewards, stakes, stake, from + 1, to, prev_total);
        }
    }
}

/// The rewards a staker earned since the epoch after `last_epoch` up to, not
/// including, `current_epoch`.
pub fn settle_rewards(
    rewards: &BTreeMap<u16, u64>,
    total_stakes: &BTreeMap<u16, u64>,
    user_stake_amount: u64,
    last_epoch: u16,
    current_epoch: u16,
) -> (r: u64)
    requires
        settlement_fits(rewards@, total_stakes@, user_stake_amount, last_epoch, current_epoch),
    ensures
        r == settled_rewards(rewards@, total_stakes@, user_stake_amount, last_epoch, current_epoch),
{
    checked_settle_rewards(
        rewards,
        total_stakes,
        user_stake_amount,
        last_epoch,
        current_epoch,
    ).unwrap()
}

} // verus!

verus! {

/// The per-epoch rewards after a trade paid `staker_fee` lamports to the
/// staking pool at clock reading `unix_timestamp`: the fee is credited to the
/// current epoch when it is not zero.
pub open spec fn rewards_after_fee(
    rewards: Map<u16, u64>,
    first_epoch_start_time: u32,
    epoch_duration: u32,
    unix_timestamp: i64,
    staker_fee: u64,
) -> Map<u16, u64> {
    if staker_fee > 0 {
        credited(
            rewards,
            epoch_of(unix_timestamp as u32, first_epoch_start_time, epoch_duration),
            staker_fee,
        )
    } else {
        rewards
    }
}

/// Crediting a trade's staker fee is refused: the current epoch is past the
/// last one.
pub open spec fn fee_epoch_closed(
    first_epoch_start_time: u32,
    epoch_duration: u32,
    unix_timestamp: i64,
    staker_fee: u64,
) -> bool {
    staker_fee > 0 && epoch_of(unix_timestamp as u32, first_epoch_start_time, epoch_duration)
        >= crate::state::MAX_EPOCH
}

/// Crediting a trade's staker fee runs without a fault: when there is a fee,
/// the clock is not before the first epoch, epochs have a length, and an open
/// epoch's reward entry has room for the fee.
pub open spec fn fee_credit_fits(
    rewards: Map<u16, u64>,
    first_epoch_start_time: u32,
    epoch_duration: u32,
    unix_timestamp: i64,
    staker_fee: u64,
) -> bool {
    staker_fee > 0 ==> {
        &&& first_epoch_start_time <= unix_timestamp as u32
        &&& epoch_duration > 0
        &&& epoch_of(unix_timestamp as u32, first_epoch_start_time, epoch_duration)
            < crate::state::MAX_EPOCH ==> credit_fits(
            rewards,
            epoch_of(unix_timestamp as u32, first_epoch_start_time, epoch_duration),
            staker_fee,
        )
    }
}

} // verus!

verus! {

/// Whether `amount` can be added to the entry of `epoch` without overflow.
pub fn check_credit(map: &BTreeMap<u16, u64>, epoch: u16, amount: u64) -> (b: bool)
    ensures
        b == credit_fits(map@, epoch, amount),
{
    match map.get(&epoch) {
        Some(x) => amount <= u64::MAX - *x,
        None => true,
    }
}

/// The settlement of a position, or `None` when computing it in `u64` would
/// overflow.
pub fn checked_settle_rewards(
    rewards: &BTreeMap<u16, u64>,
    total_stakes: &BTreeMap<u16, u64>,
    user_stake_amount: u64,
    last_epoch: u16,
    current_epoch: u16,
) -> (r: Option<u64>)
    ensures
        r is Some <==> settlement_fits(
            rewards@,
            total_stakes@,
            user_stake_amount,
            last_epoch,
            current_epoch,
        ),
        r matches Some(v) ==> v == settled_rewards(
            rewards@,
            total_stakes@,
            user_stake_amount,
            last_epoch,
            current_epoch,
        ),
{
    if user_stake_amount == 0 {
        return Some(0);
    }
    if last_epoch == u16::MAX {
        return None;
    }
    if !(last_epoch + 1 < current_epoch) {
        return Some(0);
    }
    let ghost start = last_epoch + 1;
    let ghost total = accrued_rewards(
        rewards@,
        total_stakes@,
        user_stake_amount,
        start,
        current_epoch as int,
        0,
    );
    let ghost fits = shares_fit(
        rewards@,
        total_stakes@,
        user_stake_amount,
        start,
        current_epoch as int,
        0,
    );
    let mut pending_rewards: u64 = 0;
    let mut i: u16 = last_epoch + 1;
    let mut prev_total_stake_amount: u64 = 0;
    while i < current_epoch
        invariant
            start <= i <= current_epoch,
            start == last_epoch + 1,
            last_epoch < u16::MAX,
            last_epoch + 1 < current_epoch,
            user_stake_amount > 0,
            total == accrued_rewards(
                rewards@,
                total_stakes@,
                user_stake_amount,
                start,
                current_epoch as int,
                0,
            ),
            fits == shares_fit(
                rewards@,
                total_stakes@,
                user_stake_amount,
                start,
                current_epoch as int,
                0,
            ),
            pending_rewards + accrued_rewards(
                rewards@,
                total_stakes@,
                user_stake_amount,
                i as int,
                current_epoch as int,
                prev_total_stake_amount,
            ) == total,
            fits == shares_fit(
                rewards@,
                total_stakes@,
                user_stake_amount,
                i as int,
                current_epoch as int,
                prev_total_stake_amount,
            ),
        decreases current_epoch - i,
    {
        if let Some(epoch_reward) = rewards.get(&i) {
            let epoch_total_stakes = match total_stakes.get(&i) {
                Some(t) => *t,
                None => prev_total_stake_amount,
            };
            prev_total_stake_amount = epoch_total_stakes;
            proof {
                lemma_accrued_rewards_nonneg(
                    rewards@,
                    total_stakes@,
                    user_stake_amount,
                    i + 1,
                    current_epoch as int,
                    epoch_total_stakes,
                );
            }
            if epoch_total_stakes > 0 {
                let product = match user_stake_amount.checked_mul(*epoch_reward) {
                    Some(p) => p,
                    None => return None,
                };
                let share = product / epoch_total_stakes;
                pending_rewards = match pending_rewards.checked_add(share) {
                    Some(s) => s,
                    None => return None,
                };
            }
        } else {
            proof {
                lemma_accrued_rewards_nonneg(
                    rewards@,
                    total_stakes@,
                    user_stake_amount,
                    i + 1,
                    current_epoch as int,
                    prev_total_stake_amount,
                );
            }
        }
        i = i + 1;
    }
    Some(pending_rewards)
}

} // verus!
