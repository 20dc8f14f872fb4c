use crate::errors::PixelError;
use crate::events::BuyEvent;
use crate::state::{BondingCurve, Config, StakeHolder, MAX_EPOCH};
use crate::utils::curve::{buy_price, buy_quote, check_fee_split, fee, fee_split_fits, split_fee};
use crate::utils::staking::{
    check_credit,
    credit_epoch,
    current_epoch,
    fee_credit_fits,
    fee_epoch_closed,
    rewards_after_fee,
};
use anchor_lang::prelude::Pubkey;
use vstd::prelude::*;

verus! {

/// The accounts the `buy` instruction works on.
pub struct Buy {
    pub bonding_curve: BondingCurve,
    pub config: Config,
    pub stake_holder: StakeHolder,
    pub token_mint: Pubkey,
    pub user: Pubkey,
}

/// A purchase order: how many tokens, and the most lamports the buyer pays
/// to the curve for them.
#[derive(Debug, Clone, Copy, PartialEq, Eq)]
pub struct BuyParams {
    pub amount: u64,
    pub max_sol_cost: u64,
}

/// What a purchase moves; the fees are paid on top of the price.
#[derive(Debug, Clone, Copy, PartialEq, Eq)]
pub struct BuyOutcome {
    /// lamports from the buyer to the fee recipient
    pub fee_recipient_amount: u64,
    /// lamports from the buyer to the staking pool
    pub fee_staker_amount: u64,
    /// lamports from the buyer to the bonding curve
    pub sol_amount: u64,
    /// tokens from the curve's vault to the buyer
    pub token_amount: u64,
    pub event: BuyEvent,
}

/// Tokens a purchase of `amount` delivers: never more than the curve's real reserve.
pub open spec fn buy_token_amount(curve: BondingCurve, amount: u64) -> u64 {
    if amount < curve.real_token_reserves {
        amount
    } else {
        curve.real_token_reserves
    }
}

/// Lamports the curve charges for a purchase of `amount`.
pub open spec fn buy_sol_amount(curve: BondingCurve, amount: u64) -> u64 {
    buy_price(
        buy_token_amount(curve, amount) as int,
        curve.virtual_sol_reserves as int,
        curve.virtual_token_reserves as int,
    ) as u64
}

/// The stakers' part of the fee on a trade of `sol` lamports.
pub open spec fn staker_fee(sol: u64, config: Config) -> u64 {
    fee(fee(sol as int, config.fee_base_points as int), config.fee_stakeholders as int) as u64
}

/// The fee recipient's part of the fee on a trade of `sol` lamports.
pub open spec fn recipient_fee(sol: u64, config: Config) -> u64 {
    (fee(sol as int, config.fee_base_points as int) - staker_fee(sol, config)) as u64
}

/// The curve after it sold `tokens` for `sol` lamports; it is complete once
/// its real token reserve is empty.
pub open spec fn curve_after_buy(curve: BondingCurve, tokens: u64, sol: u64) -> BondingCurve {
    BondingCurve {
        real_sol_reserves: (curve.real_sol_reserves + sol) as u64,
        real_token_reserves: (curve.real_token_reserves - tokens) as u64,
        virtual_sol_reserves: (curve.virtual_sol_reserves + sol) as u64,
        virtual_token_reserves: (curve.virtual_token_reserves - tokens) as u64,
        complete: curve.complete || curve.real_token_reserves - tokens == 0,
        ..curve
    }
}

/// Why a purchase is refused, if it is.
pub open spec fn buy_refusal(ctx: Buy, params: BuyParams, unix_timestamp: i64) -> Option<PixelError> {
    let curve = ctx.bonding_curve;
    let sol = buy_sol_amount(curve, params.amount);
    if curve.complete {
        Some(PixelError::SoldAllToken)
    } else if params.amount == 0 {
        Some(PixelError::InvalidParam)
    } else if curve.virtual_token_reserves <= buy_token_amount(curve, params.amount) {
        Some(PixelError::NotEnoughAmount)
    } else if sol > params.max_sol_cost {
        Some(PixelError::SlippageExceed)
    } else if fee_epoch_closed(
        ctx.stake_holder.first_epoch_start_time,
        ctx.config.epoch_duration,
        unix_timestamp,
        staker_fee(sol, ctx.config),
    ) {
        Some(PixelError::EpochExceed)
    } else {
        None
    }
}

/// The purchase runs to an answer without an arithmetic fault: the fees fit,
/// the staker fee can be credited, and the curve's lamport reserves can grow
/// by the price.
pub open spec fn buy_fits(ctx: Buy, params: BuyParams, unix_timestamp: i64) -> bool {
    let curve = ctx.bonding_curve;
    let sol = buy_sol_amount(curve, params.amount);
    let staker = staker_fee(sol, ctx.config);
    (!curve.complete && params.amount > 0 && curve.virtual_token_reserves > buy_token_amount(
        curve,
        params.amount,
    )) ==> {
        &&& fee_split_fits(sol, ctx.config.fee_base_points, ctx.config.fee_stakeholders)
        &&& sol <= params.max_sol_cost ==> {
            &&& fee_credit_fits(
                ctx.stake_holder.rewards@,
                ctx.stake_holder.first_epoch_start_time,
                ctx.config.epoch_duration,
                unix_timestamp,
                staker,
            )
            &&& !fee_epoch_closed(
                ctx.stake_holder.first_epoch_start_time,
                ctx.config.epoch_duration,
                unix_timestamp,
                staker,
            ) ==> {
                &&& curve.real_sol_reserves + sol <= u64::MAX
                &&& curve.virtual_sol_reserves + sol <= u64::MAX
            }
        }
    }
}

impl Buy {
    /// Whether a purchase runs to an answer without an arithmetic fault
    /// (`buy_fits`); where it does not, the instruction aborts.
    pub fn fits(ctx: &Buy, params: &BuyParams, unix_timestamp: i64) -> (b: bool)
        ensures
            b == buy_fits(*ctx, *params, unix_timestamp),
    {
        let curve = &ctx.bonding_curve;
        if curve.complete || params.amount == 0 {
            return true;
        }
        let real_token_reserves = curve.real_token_reserves;
        let min_amount = if params.amount < real_token_reserves {
            params.amount
        } else {
            real_token_reserves
        };
        if !(curve.virtual_token_reserves > min_amount) {
            return true;
        }
        let sol_amount = buy_quote(
            min_amount,
            curve.virtual_sol_reserves,
            curve.virtual_token_reserves,
        );
        if !check_fee_split(sol_amount, ctx.config.fee_base_points, ctx.config.fee_stakeholders) {
            return false;
        }
        if sol_amount > params.max_sol_cost {
            return true;
        }
        let (_fee_sol_amount, fee_staker_amount, _fee_recipient_amount) = split_fee(
            sol_amount,
            ctx.config.fee_base_points,
            ctx.config.fee_stakeholders,
        );
        if fee_staker_amount > 0 {
            let start = ctx.stake_holder.first_epoch_start_time;
            if !(start <= unix_timestamp as u32 && ctx.config.epoch_duration > 0) {
                return false;
            }
            let epoch = current_epoch(unix_timestamp, start, ctx.config.epoch_duration);
            if epoch >= MAX_EPOCH {
                return true;
            }
            if !check_credit(&ctx.stake_holder.rewards, epoch, fee_staker_amount) {
                return false;
            }
        }
        curve.real_sol_reserves <= u64::MAX - sol_amount && curve.virtual_sol_reserves <= u64::MAX
            - sol_amount
    }

    /// Buys `params.amount` tokens (at most the curve's real reserve) from the
    /// bonding curve at clock reading `unix_timestamp`.
    ///
    /// Refused, changing nothing, as `buy_refusal` says. Otherwise the curve's
    /// reserves move by the tokens sold and the price charged, the stakers'
    /// fee is credited to the current epoch, and the outcome lists the
    /// transfers the caller makes.
    pub fn apply(ctx: &mut Buy, params: &BuyParams, unix_timestamp: i64) -> (r: Result<
        BuyOutcome,
        PixelError,
    >)
        requires
            buy_fits(*old(ctx), *params, unix_timestamp),
        ensures
            buy_refusal(*old(ctx), *params, unix_timestamp) matches Some(e) ==> r == Err::<
                BuyOutcome,
                PixelError,
            >(e) && *final(ctx) == *old(ctx),
            buy_refusal(*old(ctx), *params, unix_timestamp) is None ==> {
                let curve = old(ctx).bonding_curve;
                let tokens = buy_token_amount(curve, params.amount);
                let sol = buy_sol_amount(curve, params.amount);
                let staker = staker_fee(sol, old(ctx).config);
                &&& r == Ok::<BuyOutcome, PixelError>(
                    BuyOutcome {
                        fee_recipient_amount: recipient_fee(sol, old(ctx).config),
                        fee_staker_amount: staker,
                        sol_amount: sol,
                        token_amount: tokens,
                        event: BuyEvent {
                            mint: old(ctx).token_mint,
                            buyer: old(ctx).user,
                            sol_input: sol,
                            token_output: tokens,
                            is_completed: curve.real_token_reserves == tokens,
                        },
                    },
                )
                &&& final(ctx).bonding_curve == curve_after_buy(curve, tokens, sol)
                &&& final(ctx).stake_holder.rewards@ == rewards_after_fee(
                    old(ctx).stake_holder.rewards@,
                    old(ctx).stake_holder.first_epoch_start_time,
                    old(ctx).config.epoch_duration,
                    unix_timestamp,
                    staker,
                )
                &&& final(ctx).stake_holder.total_stakes == old(ctx).stake_holder.total_stakes
                &&& final(ctx).stake_holder.initialized == old(ctx).stake_holder.initialized
                &&& final(ctx).stake_holder.curent_total_stake == old(
                    ctx,
                ).stake_holder.curent_total_stake
                &&& final(ctx).stake_holder.first_epoch_start_time == old(
                    ctx,
                ).stake_holder.first_epoch_start_time
                &&& final(ctx).stake_holder.bump == old(ctx).stake_holder.bump
                &&& final(ctx).config == old(ctx).config
                &&& final(ctx).token_mint == old(ctx).token_mint
                &&& final(ctx).user == old(ctx).user
            },
    {
        if ctx.bonding_curve.complete {
            return Err(PixelError::SoldAllToken);
        }
        let amount = params.amount;
        if !(amount > 0) {
            return Err(PixelError::InvalidParam);
        }
        let real_token_reserves = ctx.bonding_curve.real_token_reserves;
        let min_amount = if amount < real_token_reserves {
            amount
        } else {
            real_token_reserves
        };
        let virtual_sol_reserves = ctx.bonding_curve.virtual_sol_reserves;
        let virtual_token_reserves = ctx.bonding_curve.virtual_token_reserves;
        if !(virtual_token_reserves > min_amount) {
            return Err(PixelError::NotEnoughAmount);
        }
        let sol_amount = buy_quote(min_amount, virtual_sol_reserves, virtual_token_reserves);
        let (_fee_sol_amount, fee_staker_amount, fee_recipient_amount) = split_fee(
            sol_amount,
            ctx.config.fee_base_points,
            ctx.config.fee_stakeholders,
        );
        if !(sol_amount <= params.max_sol_cost) {
            return Err(PixelError::SlippageExceed);
        }
        if fee_staker_amount > 0 {
            let epoch = current_epoch(
                unix_timestamp,
                ctx.stake_holder.first_epoch_start_time,
                ctx.config.epoch_duration,
            );
            if !(epoch < MAX_EPOCH) {
                return Err(PixelError::EpochExceed);
            }
            credit_epoch(&mut ctx.stake_holder.rewards, epoch, fee_staker_amount);
        }
        ctx.bonding_curve.real_sol_reserves = ctx.bonding_curve.real_sol_reserves + sol_amount;
        ctx.bonding_curve.real_token_reserves = ctx.bonding_curve.real_token_reserves - min_amount;
        ctx.bonding_curve.virtual_sol_reserves = ctx.bonding_curve.virtual_sol_reserves
            + sol_amount;
        ctx.bonding_curve.virtual_token_reserves = ctx.bonding_curve.virtual_token_reserves
            - min_amount;
        let mut is_completed = false;
        if ctx.bonding_curve.real_token_reserves == 0 {
            ctx.bonding_curve.complete = true;
            is_completed = true;
        }
        Ok(
            BuyOutcome {
                fee_recipient_amount,
                fee_staker_amount,
                sol_amount,
                token_amount: min_amount,
                event: BuyEvent {
                    mint: ctx.token_mint,
                    buyer: ctx.user,
                    sol_input: sol_amount,
                    token_output: min_amount,
                    is_completed,
                },
            },
        )
    }
}

} // verus!
