//! Properties of the program that span its instructions.

use crate::instructions::admin::create_config::{configured, fee_rate_limit, CreateConfigParams};
use crate::instructions::admin::update_config::{config_updated, update_refused, UpdateConfigParams};
use crate::instructions::buy::{
    buy_sol_amount,
    buy_token_amount,
    curve_after_buy,
    recipient_fee,
    staker_fee,
};
use crate::instructions::sell::{curve_after_sell, sell_sol_amount, seller_proceeds};
use crate::state::{BondingCurve, Config};
use crate::utils::curve::{buy_price, fee, fee_split_fits, sell_price};
use crate::instructions::buy::{buy_refusal, Buy, BuyParams};
use crate::instructions::create_token::fresh_curve;
use crate::instructions::sell::{sell_fits, sell_refusal, Sell, SellParams};
use crate::instructions::stake::position_after_stake;
use crate::state::{StakeHolder, UserStakeInfo};
use crate::utils::staking::{
    accrued_rewards,
    credit_fits,
    credited,
    epoch_of,
    lemma_accrued_rewards_nonneg,
    reward_share,
    rewards_after_fee,
    settled_rewards,
};
use vstd::arithmetic::div_mod::{lemma_fundamental_div_mod, lemma_mod_pos_bound};
use vstd::prelude::*;

verus! {

/// `d * (x / d) + x % d == x` with the remainder in `0 .. d`.
proof fn lemma_div_parts(x: int, d: int)
    requires
        x >= 0,
        d > 0,
    ensures
        x == d * (x / d) + x % d,
        0 <= x % d < d,
{
    lemma_fundamental_div_mod(x, d);
    lemma_mod_pos_bound(x, d);
}

/// The price of a purchase more than pays for the tokens at the current
/// ratio: `price * (t - m) > m * v`.
proof fn lemma_buy_price_covers(m: int, v: int, t: int)
    requires
        0 <= m < t,
        v >= 0,
    ensures
        buy_price(m, v, t) * (t - m) > m * v,
{
    let d = t - m;
    let p = m * v;
    assert(p >= 0) by (nonlinear_arith)
        requires
            p == m * v,
            m >= 0,
            v >= 0,
    ;
    lemma_div_parts(p, d);
    let q = p / d;
    assert((q + 1) * d > p) by (nonlinear_arith)
        requires
            p == d * q + p % d,
            0 <= p % d < d,
    ;
}

/// The proceeds of a sale never exceed the tokens' worth at the resulting
/// ratio: `proceeds * (t + a) <= a * v`.
proof fn lemma_sell_price_bounded(a: int, v: int, t: int)
    requires
        a > 0,
        t >= 0,
        v >= 0,
    ensures
        sell_price(a, v, t) * (t + a) <= a * v,
        0 <= sell_price(a, v, t) <= v,
{
    let d = t + a;
    let p = a * v;
    assert(p >= 0) by (nonlinear_arith)
        requires
            p == a * v,
            a >= 0,
            v >= 0,
    ;
    lemma_div_parts(p, d);
    let q = p / d;
    assert(q * d <= p) by (nonlinear_arith)
        requires
            p == d * q + p % d,
            0 <= p % d < d,
    ;
    assert(0 <= q <= v) by (nonlinear_arith)
        requires
            p == d * q + p % d,
            0 <= p % d < d,
            p == a * v,
            d >= a,
            a > 0,
            v >= 0,
    ;
}

/// A purchase strictly raises the product of the curve's virtual reserves,
/// so the curve can never be drained below its pricing invariant.
pub proof fn buy_raises_reserve_product(curve: BondingCurve, amount: u64)
    requires
        buy_token_amount(curve, amount) < curve.virtual_token_reserves,
        curve.virtual_sol_reserves + buy_price(
            buy_token_amount(curve, amount) as int,
            curve.virtual_sol_reserves as int,
            curve.virtual_token_reserves as int,
        ) <= u64::MAX,
        curve.real_sol_reserves + buy_sol_amount(curve, amount) <= u64::MAX,
    ensures
        ({
            let after = curve_after_buy(
                curve,
                buy_token_amount(curve, amount),
                buy_sol_amount(curve, amount),
            );
            after.virtual_sol_reserves * after.virtual_token_reserves
                > curve.virtual_sol_reserves * curve.virtual_token_reserves
        }),
{
    let m = buy_token_amount(curve, amount) as int;
    let v = curve.virtual_sol_reserves as int;
    let t = curve.virtual_token_reserves as int;
    lemma_buy_price_covers(m, v, t);
    let s = buy_price(m, v, t);
    assert((v + s) * (t - m) > v * t) by (nonlinear_arith)
        requires
            s * (t - m) > m * v,
    ;
}

/// A sale never lowers the product of the curve's virtual reserves.
pub proof fn sell_keeps_reserve_product(curve: BondingCurve, amount: u64)
    requires
        amount > 0,
        curve.virtual_token_reserves + amount <= u64::MAX,
        curve.real_token_reserves + amount <= u64::MAX,
        sell_sol_amount(curve, amount) <= curve.real_sol_reserves,
    ensures
        ({
            let after = curve_after_sell(curve, amount, sell_sol_amount(curve, amount));
            after.virtual_sol_reserves * after.virtual_token_reserves
                >= curve.virtual_sol_reserves * curve.virtual_token_reserves
        }),
{
    let a = amount as int;
    let v = curve.virtual_sol_reserves as int;
    let t = curve.virtual_token_reserves as int;
    lemma_sell_price_bounded(a, v, t);
    let s = sell_price(a, v, t);
    assert((v - s) * (t + a) >= v * t) by (nonlinear_arith)
        requires
            s * (t + a) <= a * v,
    ;
}

/// Buying tokens and selling the same tokens straight back returns, before
/// fees, strictly fewer lamports than were paid: a round trip never profits.
pub proof fn round_trip_never_profits(curve: BondingCurve, amount: u64)
    requires
        buy_token_amount(curve, amount) < curve.virtual_token_reserves,
        curve.virtual_sol_reserves + buy_price(
            buy_token_amount(curve, amount) as int,
            curve.virtual_sol_reserves as int,
            curve.virtual_token_reserves as int,
        ) <= u64::MAX,
        curve.real_sol_reserves + buy_sol_amount(curve, amount) <= u64::MAX,
    ensures
        ({
            let tokens = buy_token_amount(curve, amount);
            let paid = buy_sol_amount(curve, amount);
            let after = curve_after_buy(curve, tokens, paid);
            sell_sol_amount(after, tokens) < paid
        }),
{
    let m = buy_token_amount(curve, amount) as int;
    let v = curve.virtual_sol_reserves as int;
    let t = curve.virtual_token_reserves as int;
    lemma_buy_price_covers(m, v, t);
    let s = buy_price(m, v, t);
    let p = m * (v + s);
    assert(p >= 0 && p < s * t) by (nonlinear_arith)
        requires
            p == m * (v + s),
            s * (t - m) > m * v,
            m >= 0,
            v >= 0,
            s >= 1,
    ;
    lemma_div_parts(p, t);
    assert(p / t < s) by (nonlinear_arith)
        requires
            p == t * (p / t) + p % t,
            0 <= p % t,
            p < s * t,
            t > 0,
    ;
}

/// Trades move the virtual and the real reserves together: the gap between
/// them, on the token side and on the lamport side, never changes.
pub proof fn trades_keep_reserve_gaps(curve: BondingCurve, buy_amount: u64, sell_amount: u64)
    requires
        buy_token_amount(curve, buy_amount) < curve.virtual_token_reserves,
        curve.virtual_sol_reserves + buy_sol_amount(curve, buy_amount) <= u64::MAX,
        curve.real_sol_reserves + buy_sol_amount(curve, buy_amount) <= u64::MAX,
        sell_amount > 0,
        curve.virtual_token_reserves + sell_amount <= u64::MAX,
        curve.real_token_reserves + sell_amount <= u64::MAX,
        sell_sol_amount(curve, sell_amount) <= curve.real_sol_reserves,
    ensures
        ({
            let bought = curve_after_buy(
                curve,
                buy_token_amount(curve, buy_amount),
                buy_sol_amount(curve, buy_amount),
            );
            let sold = curve_after_sell(curve, sell_amount, sell_sol_amount(curve, sell_amount));
            &&& bought.virtual_token_reserves - bought.real_token_reserves
                == curve.virtual_token_reserves - curve.real_token_reserves
            &&& bought.virtual_sol_reserves - bought.real_sol_reserves
                == curve.virtual_sol_reserves - curve.real_sol_reserves
            &&& sold.virtual_token_reserves - sold.real_token_reserves
                == curve.virtual_token_reserves - curve.real_token_reserves
            &&& sold.virtual_sol_reserves - sold.real_sol_reserves
                == curve.virtual_sol_reserves - curve.real_sol_reserves
        }),
{
    lemma_sell_price_bounded(
        sell_amount as int,
        curve.virtual_sol_reserves as int,
        curve.virtual_token_reserves as int,
    );
}

/// A purchase delivers no more tokens than were asked for nor than the curve
/// really holds, and it completes the curve exactly when it empties the real
/// token reserve.
pub proof fn buy_respects_real_reserve(curve: BondingCurve, amount: u64, sol: u64)
    requires
        !curve.complete,
    ensures
        buy_token_amount(curve, amount) <= amount,
        buy_token_amount(curve, amount) <= curve.real_token_reserves,
        curve_after_buy(curve, buy_token_amount(curve, amount), sol).complete
            <==> buy_token_amount(curve, amount) == curve.real_token_reserves,
{
}

/// A sale pays out no more lamports than the curve's virtual lamport reserve.
pub proof fn sell_proceeds_bounded(curve: BondingCurve, amount: u64)
    requires
        amount > 0,
    ensures
        sell_sol_amount(curve, amount) <= curve.virtual_sol_reserves,
{
    lemma_sell_price_bounded(
        amount as int,
        curve.virtual_sol_reserves as int,
        curve.virtual_token_reserves as int,
    );
}

/// The fee on a trade is split without loss: the stakers' part and the fee
/// recipient's part add up to the whole fee, and on a sale the seller's
/// proceeds and the fee add up to the price.
pub proof fn fee_split_is_exact(sol: u64, config: Config)
    requires
        fee_split_fits(sol, config.fee_base_points, config.fee_stakeholders),
        fee(sol as int, config.fee_base_points as int) <= sol,
    ensures
        staker_fee(sol, config) + recipient_fee(sol, config) == fee(
            sol as int,
            config.fee_base_points as int,
        ),
        seller_proceeds(sol, config) + fee(sol as int, config.fee_base_points as int) == sol,
{
    let f = fee(sol as int, config.fee_base_points as int);
    assert(f >= 0) by (nonlinear_arith)
        requires
            f == sol * config.fee_base_points / 10000,
            sol >= 0,
            config.fee_base_points >= 0,
    ;
    assert(fee(f, config.fee_stakeholders as int) >= 0) by (nonlinear_arith)
        requires
            f >= 0,
            config.fee_stakeholders >= 0,
    ;
}

/// Under the fee rates the config admits (below 50%), the fee on a trade is
/// at most half the trade.
pub proof fn fee_at_most_half(sol: u64, fee_base_points: u16)
    requires
        fee_base_points < fee_rate_limit(),
    ensures
        0 <= fee(sol as int, fee_base_points as int),
        2 * fee(sol as int, fee_base_points as int) <= sol,
{
    let p = sol * fee_base_points;
    assert(0 <= p <= sol * 5000) by (nonlinear_arith)
        requires
            p == sol * fee_base_points,
            0 <= fee_base_points < 5000,
            sol >= 0,
    ;
    lemma_div_parts(p, 10000);
}

/// Creating the config initializes it, so a second creation is refused, and
/// the fee rate it stores is below 50%.
pub proof fn created_config_is_initialized(config: Config, params: CreateConfigParams, bump: u8)
    requires
        params.fee_base_points < fee_rate_limit(),
    ensures
        configured(config, params, bump).initialized,
        configured(config, params, bump).fee_base_points < fee_rate_limit(),
        configured(config, params, bump).fee_base_points == params.fee_base_points,
{
}

/// Updating the config keeps a fee rate below 50% below 50%, and never touches
/// the initialization flag, the bump, the stake token, the stakers' fee share
/// or the epoch length.
pub proof fn update_keeps_config_invariants(config: Config, params: UpdateConfigParams)
    requires
        !update_refused(params),
    ensures
        config.fee_base_points < fee_rate_limit() ==> config_updated(config, params).fee_base_points
            < fee_rate_limit(),
        config_updated(config, params).initialized == config.initialized,
        config_updated(config, params).bump == config.bump,
        config_updated(config, params).stake_token == config.stake_token,
        config_updated(config, params).fee_stakeholders == config.fee_stakeholders,
        config_updated(config, params).epoch_duration == config.epoch_duration,
{
}

/// An epoch's reward is never over-distributed: two stakers whose stakes
/// together do not exceed the epoch's total stake are credited, together, at
/// most the epoch's reward.
pub proof fn reward_shares_within_reward(stake_a: u64, stake_b: u64, reward: u64, total: u64)
    requires
        stake_a + stake_b <= total,
    ensures
        0 <= reward_share(stake_a, reward, total),
        0 <= reward_share(stake_b, reward, total),
        reward_share(stake_a, reward, total) + reward_share(stake_b, reward, total) <= reward,
{
    if total > 0 {
        let t = total as int;
        let x = stake_a * reward;
        let y = stake_b * reward;
        assert(x >= 0 && y >= 0 && x + y <= t * reward) by (nonlinear_arith)
            requires
                x == stake_a * reward,
                y == stake_b * reward,
                stake_a + stake_b <= t,
                stake_a >= 0,
                stake_b >= 0,
                reward >= 0,
        ;
        lemma_div_parts(x, t);
        lemma_div_parts(y, t);
        assert(x / t >= 0 && y / t >= 0 && x / t + y / t <= reward) by (nonlinear_arith)
            requires
                x == t * (x / t) + x % t,
                y == t * (y / t) + y % t,
                0 <= x % t < t,
                0 <= y % t < t,
                x >= 0,
                y >= 0,
                x + y <= t * reward,
                t > 0,
        ;
    }
}

/// Time moves epochs forward: a later clock reading never falls in an earlier
/// epoch (while epoch numbers fit in 16 bits).
pub proof fn epochs_follow_time(earlier: u32, later: u32, start: u32, duration: u32)
    requires
        start <= earlier <= later,
        duration > 0,
        (later - start) / (duration as int) <= u16::MAX,
    ensures
        epoch_of(earlier, start, duration) <= epoch_of(later, start, duration),
{
    let a = (earlier - start) as int;
    let b = (later - start) as int;
    let d = duration as int;
    assert(0 <= a / d <= b / d) by (nonlinear_arith)
        requires
            0 <= a <= b,
            d > 0,
    ;
}

/// A staker's share of an epoch's reward is `stake * reward / total`
/// rounded down: the largest amount whose multiple of the total does not
/// exceed `stake * reward`. With no stake in the epoch, nothing is shared.
pub proof fn reward_share_is_proportional(stake: u64, reward: u64, total: u64)
    ensures
        total == 0 ==> reward_share(stake, reward, total) == 0,
        total > 0 ==> {
            &&& reward_share(stake, reward, total) >= 0
            &&& reward_share(stake, reward, total) * total <= stake * reward
            &&& stake * reward < (reward_share(stake, reward, total) + 1) * total
        },
{
    if total > 0 {
        let p = stake * reward;
        assert(p >= 0) by (nonlinear_arith)
            requires
                p == stake * reward,
                stake >= 0,
                reward >= 0,
        ;
        lemma_div_parts(p, total as int);
        let q = p / (total as int);
        assert(q >= 0 && q * total <= p && p < (q + 1) * total) by (nonlinear_arith)
            requires
                p == total * q + p % (total as int),
                0 <= p % (total as int) < total,
                p >= 0,
                total > 0,
        ;
    }
}

/// Settling an epoch that has a reward: the staker gets its share of that
/// reward against the epoch's own stake total, or, when the epoch has none,
/// against the total carried from earlier; the epoch's own total (when it has
/// one) is what later epochs without a total fall back to.
pub proof fn accrual_of_rewarded_epoch(
    rewards: Map<u16, u64>,
    stakes: Map<u16, u64>,
    stake: u64,
    from: int,
    to: int,
    carried: u64,
)
    requires
        from < to,
        rewards.contains_key(from as u16),
    ensures
        stakes.contains_key(from as u16) ==> accrued_rewards(rewards, stakes, stake, from, to, carried)
            == reward_share(stake, rewards[from as u16], stakes[from as u16]) + accrued_rewards(
            rewards,
            stakes,
            stake,
            from + 1,
            to,
            stakes[from as u16],
        ),
        !stakes.contains_key(from as u16) ==> accrued_rewards(
            rewards,
            stakes,
            stake,
            from,
            to,
            carried,
        ) == reward_share(stake, rewards[from as u16], carried) + accrued_rewards(
            rewards,
            stakes,
            stake,
            from + 1,
            to,
            carried,
        ),
{
}

/// An epoch without a reward pays nothing and does not change the total that
/// later epochs fall back to, even when it has a stake total of its own.
pub proof fn accrual_skips_unrewarded_epoch(
    rewards: Map<u16, u64>,
    stakes: Map<u16, u64>,
    stake: u64,
    from: int,
    to: int,
    carried: u64,
)
    requires
        from < to,
        !rewards.contains_key(from as u16),
    ensures
        accrued_rewards(rewards, stakes, stake, from, to, carried) == accrued_rewards(
            rewards,
            stakes,
            stake,
            from + 1,
            to,
            carried,
        ),
{
}

/// Over no epochs nothing accrues.
pub proof fn accrual_of_no_epochs(
    rewards: Map<u16, u64>,
    stakes: Map<u16, u64>,
    stake: u64,
    from: int,
    to: int,
    carried: u64,
)
    requires
        from >= to,
    ensures
        accrued_rewards(rewards, stakes, stake, from, to, carried) == 0,
{
}

/// Three rewarded epochs in a row, the first two with stake totals and the
/// third without: the third falls back to the total of the second, the most
/// recent one seen, not to the first.
pub proof fn accrual_falls_back_to_latest_total(
    rewards: Map<u16, u64>,
    stakes: Map<u16, u64>,
    stake: u64,
    e: u16,
    carried: u64,
)
    requires
        e + 3 <= u16::MAX,
        rewards.contains_key(e),
        rewards.contains_key((e + 1) as u16),
        rewards.contains_key((e + 2) as u16),
        stakes.contains_key(e),
        stakes.contains_key((e + 1) as u16),
        !stakes.contains_key((e + 2) as u16),
    ensures
        accrued_rewards(rewards, stakes, stake, e as int, e + 3, carried) == reward_share(
            stake,
            rewards[e],
            stakes[e],
        ) + reward_share(stake, rewards[(e + 1) as u16], stakes[(e + 1) as u16]) + reward_share(
            stake,
            rewards[(e + 2) as u16],
            stakes[(e + 1) as u16],
        ),
{
    let a = e as int;
    assert((a as u16) == e);
    assert(((a + 1) as u16) == (e + 1) as u16);
    assert(((a + 2) as u16) == (e + 2) as u16);
    accrual_of_rewarded_epoch(rewards, stakes, stake, a, a + 3, carried);
    accrual_of_rewarded_epoch(rewards, stakes, stake, a + 1, a + 3, stakes[e]);
    accrual_of_rewarded_epoch(rewards, stakes, stake, a + 2, a + 3, stakes[(e + 1) as u16]);
    accrual_of_no_epochs(rewards, stakes, stake, a + 3, a + 3, stakes[(e + 1) as u16]);
}

/// Two rewarded epochs, only the first with a stake total: the second is
/// shared against the first's total, whatever total was carried in.
pub proof fn accrual_carries_total_forward(
    rewards: Map<u16, u64>,
    stakes: Map<u16, u64>,
    stake: u64,
    e: u16,
    carried: u64,
)
    requires
        e + 2 <= u16::MAX,
        rewards.contains_key(e),
        rewards.contains_key((e + 1) as u16),
        stakes.contains_key(e),
        !stakes.contains_key((e + 1) as u16),
    ensures
        accrued_rewards(rewards, stakes, stake, e as int, e + 2, carried) == reward_share(
            stake,
            rewards[e],
            stakes[e],
        ) + reward_share(stake, rewards[(e + 1) as u16], stakes[e]),
{
    let a = e as int;
    assert((a as u16) == e);
    assert(((a + 1) as u16) == (e + 1) as u16);
    accrual_of_rewarded_epoch(rewards, stakes, stake, a, a + 2, carried);
    accrual_of_rewarded_epoch(rewards, stakes, stake, a + 1, a + 2, stakes[e]);
    accrual_of_no_epochs(rewards, stakes, stake, a + 2, a + 2, stakes[e]);
}

/// A position settles only whole epochs strictly between its last settlement
/// and now, starting with no carried total; a position without stake, or
/// with no such epoch, earns nothing.
pub proof fn settlement_covers_epochs_between(
    rewards: Map<u16, u64>,
    stakes: Map<u16, u64>,
    stake: u64,
    last_epoch: u16,
    current_epoch: u16,
)
    ensures
        stake == 0 ==> settled_rewards(rewards, stakes, stake, last_epoch, current_epoch) == 0,
        last_epoch + 1 >= current_epoch ==> settled_rewards(
            rewards,
            stakes,
            stake,
            last_epoch,
            current_epoch,
        ) == 0,
        stake > 0 && last_epoch + 1 < current_epoch ==> settled_rewards(
            rewards,
            stakes,
            stake,
            last_epoch,
            current_epoch,
        ) == accrued_rewards(rewards, stakes, stake, last_epoch + 1, current_epoch as int, 0),
        settled_rewards(rewards, stakes, stake, last_epoch, current_epoch) >= 0,
{
    lemma_accrued_rewards_nonneg(rewards, stakes, stake, last_epoch + 1, current_epoch as int, 0);
}

/// Crediting an epoch adds to what it holds: an existing entry grows by the
/// amount, a missing one starts at the amount, and every other epoch keeps its
/// entry. Crediting twice adds both amounts.
pub proof fn credit_adds_to_epoch(m: Map<u16, u64>, epoch: u16, a: u64, b: u64, other: u16)
    requires
        credit_fits(m, epoch, a),
        credit_fits(credited(m, epoch, a), epoch, b),
        other != epoch,
    ensures
        credited(m, epoch, a).contains_key(epoch),
        m.contains_key(epoch) ==> credited(m, epoch, a)[epoch] == m[epoch] + a,
        !m.contains_key(epoch) ==> credited(m, epoch, a)[epoch] == a,
        credited(m, epoch, a).contains_key(other) == m.contains_key(other),
        m.contains_key(other) ==> credited(m, epoch, a)[other] == m[other],
        m.contains_key(epoch) ==> credited(credited(m, epoch, a), epoch, b)[epoch] == m[epoch] + a + b,
        !m.contains_key(epoch) ==> credited(credited(m, epoch, a), epoch, b)[epoch] == a + b,
{
}

/// Staking into an existing position keeps its pending reward and adds the
/// rewards earned since its last settlement, grows its stake by the amount,
/// and marks it settled in the current epoch.
pub proof fn stake_keeps_pending_reward(
    info: UserStakeInfo,
    holder: StakeHolder,
    amount: u64,
    epoch: u16,
    bump: u8,
)
    requires
        info.initialized,
        info.pending_reward + settled_rewards(
            holder.rewards@,
            holder.total_stakes@,
            info.stake_amount,
            info.last_epoch,
            epoch,
        ) <= u64::MAX,
        info.stake_amount + amount <= u64::MAX,
    ensures
        position_after_stake(info, holder, amount, epoch, bump).pending_reward == info.pending_reward
            + settled_rewards(
            holder.rewards@,
            holder.total_stakes@,
            info.stake_amount,
            info.last_epoch,
            epoch,
        ),
        position_after_stake(info, holder, amount, epoch, bump).pending_reward
            >= info.pending_reward,
        position_after_stake(info, holder, amount, epoch, bump).stake_amount == info.stake_amount
            + amount,
        position_after_stake(info, holder, amount, epoch, bump).last_epoch == epoch,
        position_after_stake(info, holder, amount, epoch, bump).initialized,
        position_after_stake(info, holder, amount, epoch, bump).bump == info.bump,
{
    settlement_covers_epochs_between(
        holder.rewards@,
        holder.total_stakes@,
        info.stake_amount,
        info.last_epoch,
        epoch,
    );
}

/// A first stake opens a position holding exactly that stake, with no pending
/// reward, settled in the current epoch.
pub proof fn first_stake_opens_position(
    info: UserStakeInfo,
    holder: StakeHolder,
    amount: u64,
    epoch: u16,
    bump: u8,
)
    requires
        !info.initialized,
    ensures
        position_after_stake(info, holder, amount, epoch, bump) == (UserStakeInfo {
            initialized: true,
            stake_amount: amount,
            pending_reward: 0,
            last_epoch: epoch,
            bump: bump,
        }),
{
}

/// A sale that goes through pays the seller, after the fee, at least the
/// minimum asked: the seller's proceeds are the price less
/// `price * fee_base_points / 10000`, and they are not below `min_sol_output`.
pub proof fn sale_pays_at_least_minimum(ctx: Sell, params: SellParams, unix_timestamp: i64)
    requires
        sell_refusal(ctx, params, unix_timestamp) is None,
        sell_fits(ctx, params, unix_timestamp),
    ensures
        ({
            let sol = sell_sol_amount(ctx.bonding_curve, params.amount);
            let cut = sol * ctx.config.fee_base_points / 10000;
            &&& cut <= sol
            &&& seller_proceeds(sol, ctx.config) == sol - cut
            &&& params.min_sol_output <= sol - cut
            &&& params.min_sol_output <= seller_proceeds(sol, ctx.config)
        }),
{
}

/// A purchase that goes through costs at most the buyer's maximum, on a curve
/// that is not complete, for a positive amount.
pub proof fn purchase_costs_at_most_maximum(ctx: Buy, params: BuyParams, unix_timestamp: i64)
    requires
        buy_refusal(ctx, params, unix_timestamp) is None,
    ensures
        buy_sol_amount(ctx.bonding_curve, params.amount) <= params.max_sol_cost,
        !ctx.bonding_curve.complete,
        params.amount > 0,
        buy_token_amount(ctx.bonding_curve, params.amount) < ctx.bonding_curve.virtual_token_reserves,
{
}

/// Updating the config stores every setting it is given and keeps every other:
/// for each setting, `Some(v)` in the parameters leaves `v` in the config,
/// `None` leaves the old value.
pub proof fn update_stores_given_settings(config: Config, params: UpdateConfigParams)
    requires
        !update_refused(params),
    ensures
        ({
            let c = config_updated(config, params);
            &&& params.authority matches Some(v) ==> c.authority == v
            &&& params.authority is None ==> c.authority == config.authority
            &&& params.fee_recipient matches Some(v) ==> c.fee_recipient == v
            &&& params.fee_recipient is None ==> c.fee_recipient == config.fee_recipient
            &&& params.initial_virtual_token_reserves matches Some(v)
                ==> c.initial_virtual_token_reserves == v
            &&& params.initial_virtual_token_reserves is None ==> c.initial_virtual_token_reserves
                == config.initial_virtual_token_reserves
            &&& params.initial_virtual_sol_reserves matches Some(v) ==> c.initial_virtual_sol_reserves
                == v
            &&& params.initial_virtual_sol_reserves is None ==> c.initial_virtual_sol_reserves
                == config.initial_virtual_sol_reserves
            &&& params.initial_real_token_reserves matches Some(v) ==> c.initial_real_token_reserves
                == v
            &&& params.initial_real_token_reserves is None ==> c.initial_real_token_reserves
                == config.initial_real_token_reserves
            &&& params.token_total_supply matches Some(v) ==> c.token_total_supply == v
            &&& params.token_total_supply is None ==> c.token_total_supply
                == config.token_total_supply
            &&& params.fee_base_points matches Some(v) ==> c.fee_base_points == v
            &&& params.fee_base_points is None ==> c.fee_base_points == config.fee_base_points
            &&& c.initialized == config.initialized
            &&& c.bump == config.bump
            &&& c.stake_token == config.stake_token
            &&& c.fee_stakeholders == config.fee_stakeholders
            &&& c.epoch_duration == config.epoch_duration
        }),
{
}

/// Creating the config stores every setting it is given, the bump, and the
/// initialized flag, and keeps the settings it is not given.
pub proof fn create_stores_given_settings(config: Config, params: CreateConfigParams, bump: u8)
    requires
        params.fee_base_points < fee_rate_limit(),
    ensures
        ({
            let c = configured(config, params, bump);
            &&& c.initialized
            &&& c.authority == params.authority
            &&& c.fee_recipient == params.fee_recipient
            &&& c.initial_virtual_token_reserves == params.initial_virtual_token_reserves
            &&& c.initial_virtual_sol_reserves == params.initial_virtual_sol_reserves
            &&& c.initial_real_token_reserves == params.initial_real_token_reserves
            &&& c.token_total_supply == params.token_total_supply
            &&& c.fee_base_points == params.fee_base_points
            &&& c.bump == bump
            &&& c.fee_stakeholders == config.fee_stakeholders
            &&& c.epoch_duration == config.epoch_duration
            &&& c.stake_token == config.stake_token
        }),
{
}

/// The purchase price is the constant-product price rounded down, plus one:
/// one less than the price, times the remaining virtual tokens, does not
/// exceed `tokens * virtual lamports`, and the price itself does.
pub proof fn buy_price_rounds_up(m: int, v: int, t: int)
    requires
        0 <= m < t,
        v >= 0,
    ensures
        (buy_price(m, v, t) - 1) * (t - m) <= m * v,
        m * v < buy_price(m, v, t) * (t - m),
        buy_price(m, v, t) >= 1,
{
    let d = t - m;
    let p = m * v;
    assert(p >= 0) by (nonlinear_arith)
        requires
            p == m * v,
            m >= 0,
            v >= 0,
    ;
    lemma_div_parts(p, d);
    let q = p / d;
    assert(q >= 0 && q * d <= p && p < (q + 1) * d) by (nonlinear_arith)
        requires
            p == d * q + p % d,
            0 <= p % d < d,
            p >= 0,
            d > 0,
    ;
}

/// The sale price is the constant-product price rounded down: it times the
/// grown virtual tokens does not exceed `tokens * virtual lamports`, and one
/// more lamport would.
pub proof fn sell_price_rounds_down(a: int, v: int, t: int)
    requires
        a >= 0,
        t >= 0,
        a + t > 0,
        v >= 0,
    ensures
        sell_price(a, v, t) >= 0,
        sell_price(a, v, t) * (t + a) <= a * v,
        a * v < (sell_price(a, v, t) + 1) * (t + a),
{
    let d = t + a;
    let p = a * v;
    assert(p >= 0) by (nonlinear_arith)
        requires
            p == a * v,
            a >= 0,
            v >= 0,
    ;
    lemma_div_parts(p, d);
    let q = p / d;
    assert(q >= 0 && q * d <= p && p < (q + 1) * d) by (nonlinear_arith)
        requires
            p == d * q + p % d,
            0 <= p % d < d,
            p >= 0,
            d > 0,
    ;
}

/// A fee of `rate` hundredths of a percent is `amount * rate / 10000` rounded
/// down.
pub proof fn fee_rounds_down(amount: int, rate: int)
    requires
        amount >= 0,
        rate >= 0,
    ensures
        fee(amount, rate) >= 0,
        fee(amount, rate) * 10000 <= amount * rate,
        amount * rate < (fee(amount, rate) + 1) * 10000,
{
    let p = amount * rate;
    assert(p >= 0) by (nonlinear_arith)
        requires
            p == amount * rate,
            amount >= 0,
            rate >= 0,
    ;
    lemma_div_parts(p, 10000);
}

/// The epoch of a clock reading is the number of whole epoch lengths elapsed
/// since the first epoch started (while it fits in 16 bits).
pub proof fn epoch_counts_whole_durations(now: u32, start: u32, duration: u32)
    requires
        start <= now,
        duration > 0,
        (now - start) / (duration as int) <= u16::MAX,
    ensures
        epoch_of(now, start, duration) * duration <= now - start,
        now - start < (epoch_of(now, start, duration) + 1) * duration,
{
    let x = (now - start) as int;
    let d = duration as int;
    lemma_div_parts(x, d);
    let q = x / d;
    assert(q >= 0 && q * d <= x && x < (q + 1) * d) by (nonlinear_arith)
        requires
            x == d * q + x % d,
            0 <= x % d < d,
            x >= 0,
            d > 0,
    ;
}

/// The stakers' part of a trade's fee is `fee_stakeholders` hundredths of a
/// percent of the whole fee, rounded down; the fee recipient gets the rest.
pub proof fn stakers_get_their_share_of_fee(sol: u64, config: Config)
    requires
        fee_split_fits(sol, config.fee_base_points, config.fee_stakeholders),
    ensures
        ({
            let whole = sol * config.fee_base_points / 10000;
            &&& staker_fee(sol, config) * 10000 <= whole * config.fee_stakeholders
            &&& whole * config.fee_stakeholders < (staker_fee(sol, config) + 1) * 10000
            &&& recipient_fee(sol, config) == whole - staker_fee(sol, config)
        }),
{
    let whole = sol * config.fee_base_points / 10000;
    fee_rounds_down(sol as int, config.fee_base_points as int);
    fee_rounds_down(whole, config.fee_stakeholders as int);
}

/// A purchase delivers the amount asked for when the real reserve holds it,
/// and otherwise the whole real reserve.
pub proof fn purchase_delivers_asked_or_all(curve: BondingCurve, amount: u64)
    ensures
        amount <= curve.real_token_reserves ==> buy_token_amount(curve, amount) == amount,
        amount > curve.real_token_reserves ==> buy_token_amount(curve, amount)
            == curve.real_token_reserves,
{
}

/// Buying `tokens` for `sol` lamports adds the lamports to both lamport
/// reserves and takes the tokens from both token reserves; selling does the
/// opposite. Nothing else about the curve changes, except that a purchase
/// emptying the real token reserve completes it.
pub proof fn trades_move_reserves(curve: BondingCurve, tokens: u64, sol: u64)
    requires
        !curve.complete,
        tokens <= curve.real_token_reserves,
        tokens <= curve.virtual_token_reserves,
        sol <= curve.real_sol_reserves,
        sol <= curve.virtual_sol_reserves,
        curve.real_sol_reserves + sol <= u64::MAX,
        curve.virtual_sol_reserves + sol <= u64::MAX,
        curve.real_token_reserves + tokens <= u64::MAX,
        curve.virtual_token_reserves + tokens <= u64::MAX,
    ensures
        ({
            let b = curve_after_buy(curve, tokens, sol);
            &&& b.real_sol_reserves == curve.real_sol_reserves + sol
            &&& b.virtual_sol_reserves == curve.virtual_sol_reserves + sol
            &&& b.real_token_reserves == curve.real_token_reserves - tokens
            &&& b.virtual_token_reserves == curve.virtual_token_reserves - tokens
            &&& b.complete == (tokens == curve.real_token_reserves)
            &&& b.token_total_supply == curve.token_total_supply
            &&& b.bump == curve.bump
        }),
        ({
            let s = curve_after_sell(curve, tokens, sol);
            &&& s.real_sol_reserves == curve.real_sol_reserves - sol
            &&& s.virtual_sol_reserves == curve.virtual_sol_reserves - sol
            &&& s.real_token_reserves == curve.real_token_reserves + tokens
            &&& s.virtual_token_reserves == curve.virtual_token_reserves + tokens
            &&& s.complete == curve.complete
            &&& s.token_total_supply == curve.token_total_supply
            &&& s.bump == curve.bump
        }),
{
}

/// A trade's staker fee goes to the epoch the trade falls in: with a fee, that
/// epoch's reward grows by it; without one, the rewards are untouched.
pub proof fn staker_fee_goes_to_current_epoch(
    rewards: Map<u16, u64>,
    start: u32,
    duration: u32,
    unix_timestamp: i64,
    staker_fee: u64,
)
    requires
        credit_fits(rewards, epoch_of(unix_timestamp as u32, start, duration), staker_fee),
    ensures
        staker_fee == 0 ==> rewards_after_fee(rewards, start, duration, unix_timestamp, staker_fee)
            == rewards,
        ({
            let e = epoch_of(unix_timestamp as u32, start, duration);
            let after = rewards_after_fee(rewards, start, duration, unix_timestamp, staker_fee);
            staker_fee > 0 ==> {
                &&& after.contains_key(e)
                &&& after[e] == (if rewards.contains_key(e) {
                    rewards[e] + staker_fee
                } else {
                    staker_fee as int
                })
                &&& forall|k: u16| k != e ==> after.contains_key(k) == rewards.contains_key(k)
                &&& forall|k: u16| k != e && rewards.contains_key(k) ==> after[k] == rewards[k]
            }
        }),
{
}

/// A new token's curve starts from the config's initial reserves, holding no
/// lamports, not complete.
pub proof fn new_curve_starts_from_config(config: Config, bump: u8)
    ensures
        ({
            let c = fresh_curve(config, bump);
            &&& c.virtual_token_reserves == config.initial_virtual_token_reserves
            &&& c.virtual_sol_reserves == config.initial_virtual_sol_reserves
            &&& c.real_token_reserves == config.initial_real_token_reserves
            &&& c.real_sol_reserves == 0
            &&& c.token_total_supply == config.token_total_supply
            &&& !c.complete
            &&& c.bump == bump
        }),
{
}

} // verus!
