use crate::errors::PixelError;
use crate::events::SellEvent;
use crate::instructions::buy::{recipient_fee, staker_fee};
use crate::state::{BondingCurve, Config, StakeHolder, MAX_EPOCH};
use crate::utils::curve::{check_fee_split, fee, fee_split_fits, sell_price, sell_quote, split_fee};
use crate::utils::staking::{
    check_credit,
    credit_epoch,
    current_epoch,
    fee_credit_fits,
    fee_epoch_closed,
    rewards_after_fee,
};
use anchor_lang::prelude::Pubkey;
use vstd::prelude::*;

verus! {

/// The accounts the `sell` instruction works on.
pub struct Sell {
    pub bonding_curve: BondingCurve,
    pub config: Config,
    pub stake_holder: StakeHolder,
    pub token_mint: Pubkey,
    pub user: Pubkey,
}

/// A sale order: how many tokens, and the fewest lamports the seller accepts
/// after fees.
#[derive(Debug, Clone, Copy, PartialEq, Eq)]
pub struct SellParams {
    pub amount: u64,
    pub min_sol_output: u64,
}

/// What a sale moves; the fees are taken out of the price.
#[derive(Debug, Clone, Copy, PartialEq, Eq)]
pub struct SellOutcome {
    /// tokens from the seller to the curve's vault
    pub token_amount: u64,
    /// lamports from the curve to the fee recipient
    pub fee_recipient_amount: u64,
    /// lamports from the curve to the staking pool
    pub fee_staker_amount: u64,
    /// lamports from the curve to the seller
    pub user_sol_amount: u64,
    pub event: SellEvent,
}

/// Lamports the curve pays, before fees, for `amount` tokens.
pub open spec fn sell_sol_amount(curve: BondingCurve, amount: u64) -> u64 {
    sell_price(amount as int, curve.virtual_sol_reserves as int, curve.virtual_token_reserves as int)
        as u64
}

/// Lamports the seller receives: the price less the whole fee.
pub open spec fn seller_proceeds(sol: u64, config: Config) -> u64 {
    (sol - fee(sol as int, config.fee_base_points as int)) as u64
}

/// The curve after it bought `tokens` for `sol` lamports.
pub open spec fn curve_after_sell(curve: BondingCurve, tokens: u64, sol: u64) -> BondingCurve {
    BondingCurve {
        real_sol_reserves: (curve.real_sol_reserves - sol) as u64,
        real_token_reserves: (curve.real_token_reserves + tokens) as u64,
        virtual_sol_reserves: (curve.virtual_sol_reserves - sol) as u64,
        virtual_token_reserves: (curve.virtual_token_reserves + tokens) as u64,
        ..curve
    }
}

/// Why a sale is refused, if it is.
pub open spec fn sell_refusal(ctx: Sell, params: SellParams, unix_timestamp: i64) -> Option<
    PixelError,
> {
    let curve = ctx.bonding_curve;
    let sol = sell_sol_amount(curve, params.amount);
    if curve.complete {
        Some(PixelError::SoldAllToken)
    } else if params.amount == 0 {
        Some(PixelError::InvalidParam)
    } else if sol > curve.real_sol_reserves {
        Some(PixelError::NotEnoughToken)
    } else if params.min_sol_output > seller_proceeds(sol, ctx.config) {
        Some(PixelError::SlippageExceed)
    } else if fee_epoch_closed(
        ctx.stake_holder.first_epoch_start_time,
        ctx.config.epoch_duration,
        unix_timestamp,
        staker_fee(sol, ctx.config),
    ) {
        Some(PixelError::EpochExceed)
    } else {
        None
    }
}

/// The sale runs to an answer without an arithmetic fault: the fees fit and
/// do not exceed the price, the staker fee can be credited, and the curve's
/// token reserves can grow by the tokens sold.
pub open spec fn sell_fits(ctx: Sell, params: SellParams, unix_timestamp: i64) -> bool {
    let curve = ctx.bonding_curve;
    let sol = sell_sol_amount(curve, params.amount);
    let staker = staker_fee(sol, ctx.config);
    (!curve.complete && params.amount > 0 && sol <= curve.real_sol_reserves) ==> {
        &&& fee_split_fits(sol, ctx.config.fee_base_points, ctx.config.fee_stakeholders)
        &&& fee(sol as int, ctx.config.fee_base_points as int) <= sol
        &&& params.min_sol_output <= seller_proceeds(sol, ctx.config) ==> {
            &&& fee_credit_fits(
                ctx.stake_holder.rewards@,
                ctx.stake_holder.first_epoch_start_time,
                ctx.config.epoch_duration,
                unix_timestamp,
                staker,
            )
            &&& !fee_epoch_closed(
                ctx.stake_holder.first_epoch_start_time,
                ctx.config.epoch_duration,
                unix_timestamp,
                staker,
            ) ==> {
                &&& curve.real_token_reserves + params.amount <= u64::MAX
                &&& curve.virtual_token_reserves + params.amount <= u64::MAX
            }
        }
    }
}

impl Sell {
    /// Whether a sale runs to an answer without an arithmetic fault
    /// (`sell_fits`); where it does not, the instruction aborts.
    pub fn fits(ctx: &Sell, params: &SellParams, unix_timestamp: i64) -> (b: bool)
        ensures
            b == sell_fits(*ctx, *params, unix_timestamp),
    {
        let curve = &ctx.bonding_curve;
        if curve.complete || params.amount == 0 {
            return true;
        }
        let sol_amount = sell_quote(
            params.amount,
            curve.virtual_sol_reserves,
            curve.virtual_token_reserves,
        );
        if sol_amount > curve.real_sol_reserves {
            return true;
        }
        if !check_fee_split(sol_amount, ctx.config.fee_base_points, ctx.config.fee_stakeholders) {
            return false;
        }
        let (fee_sol_amount, fee_staker_amount, _fee_recipient_amount) = split_fee(
            sol_amount,
            ctx.config.fee_base_points,
            ctx.config.fee_stakeholders,
        );
        if fee_sol_amount > sol_amount {
            return false;
        }
        if params.min_sol_output > sol_amount - fee_sol_amount {
            return true;
        }
        if fee_staker_amount > 0 {
            let start = ctx.stake_holder.first_epoch_start_time;
            if !(start <= unix_timestamp as u32 && ctx.config.epoch_duration > 0) {
                return false;
            }
            let epoch = current_epoch(unix_timestamp, start, ctx.config.epoch_duration);
            if epoch >= MAX_EPOCH {
                return true;
            }
            if !check_credit(&ctx.stake_holder.rewards, epoch, fee_staker_amount) {
                return false;
            }
        }
        curve.real_token_reserves <= u64::MAX - params.amount && curve.virtual_token_reserves
            <= u64::MAX - params.amount
    }

    /// Sells `params.amount` tokens to the bonding curve at clock reading
    /// `unix_timestamp`.
    ///
    /// Refused, changing nothing, as `sell_refusal` says. Otherwise the
    /// curve's reserves move by the tokens bought and the price paid, the
    /// stakers' fee is credited to the current epoch, and the outcome lists
    /// the transfers the caller makes.
    pub fn apply(ctx: &mut Sell, params: &SellParams, unix_timestamp: i64) -> (r: Result<
        SellOutcome,
        PixelError,
    >)
        requires
            sell_fits(*old(ctx), *params, unix_timestamp),
        ensures
            sell_refusal(*old(ctx), *params, unix_timestamp) matches Some(e) ==> r == Err::<
                SellOutcome,
                PixelError,
            >(e) && *final(ctx) == *old(ctx),
            sell_refusal(*old(ctx), *params, unix_timestamp) is None ==> {
                let curve = old(ctx).bonding_curve;
                let sol = sell_sol_amount(curve, params.amount);
                let staker = staker_fee(sol, old(ctx).config);
                &&& r == Ok::<SellOutcome, PixelError>(
                    SellOutcome {
                        token_amount: params.amount,
                        fee_recipient_amount: recipient_fee(sol, old(ctx).config),
                        fee_staker_amount: staker,
                        user_sol_amount: seller_proceeds(sol, old(ctx).config),
                        event: SellEvent {
                            mint: old(ctx).token_mint,
                            seller: old(ctx).user,
                            sol_output: sol,
                            token_input: params.amount,
                        },
                    },
                )
                &&& final(ctx).bonding_curve == curve_after_sell(curve, params.amount, sol)
                &&& final(ctx).stake_holder.rewards@ == rewards_after_fee(
                    old(ctx).stake_holder.rewards@,
                    old(ctx).stake_holder.first_epoch_start_time,
                    old(ctx).config.epoch_duration,
                    unix_timestamp,
                    staker,
                )
                &&& final(ctx).stake_holder.total_stakes == old(ctx).stake_holder.total_stakes
                &&& final(ctx).stake_holder.initialized == old(ctx).stake_holder.initialized
                &&& final(ctx).stake_holder.curent_total_stake == old(
                    ctx,
                ).stake_holder.curent_total_stake
                &&& final(ctx).stake_holder.first_epoch_start_time == old(
                    ctx,
                ).stake_holder.first_epoch_start_time
                &&& final(ctx).stake_holder.bump == old(ctx).stake_holder.bump
                &&& final(ctx).config == old(ctx).config
                &&& final(ctx).token_mint == old(ctx).token_mint
                &&& final(ctx).user == old(ctx).user
            },
    {
        if ctx.bonding_curve.complete {
            return Err(PixelError::SoldAllToken);
        }
        let amount = params.amount;
        if !(amount > 0) {
            return Err(PixelError::InvalidParam);
        }
        let virtual_sol_reserves = ctx.bonding_curve.virtual_sol_reserves;
        let virtual_token_reserves = ctx.bonding_curve.virtual_token_reserves;
        let real_sol_reserves = ctx.bonding_curve.real_sol_reserves;
        let sol_amount = sell_quote(amount, virtual_sol_reserves, virtual_token_reserves);
        if !(sol_amount <= real_sol_reserves) {
            return Err(PixelError::NotEnoughToken);
        }
        let (fee_sol_amount, fee_staker_amount, fee_recipient_amount) = split_fee(
            sol_amount,
            ctx.config.fee_base_points,
            ctx.config.fee_stakeholders,
        );
        let user_sol_amount = sol_amount - fee_sol_amount;
        if !(params.min_sol_output <= user_sol_amount) {
            return Err(PixelError::SlippageExceed);
        }
        if fee_staker_amount > 0 {
            let epoch = current_epoch(
                unix_timestamp,
                ctx.stake_holder.first_epoch_start_time,
                ctx.config.epoch_duration,
            );
            if !(epoch < MAX_EPOCH) {
                return Err(PixelError::EpochExceed);
            }
            credit_epoch(&mut ctx.stake_holder.rewards, epoch, fee_staker_amount);
        }
        ctx.bonding_curve.real_sol_reserves = ctx.bonding_curve.real_sol_reserves - sol_amount;
        ctx.bonding_curve.real_token_reserves = ctx.bonding_curve.real_token_reserves + amount;
        ctx.bonding_curve.virtual_sol_reserves = ctx.bonding_curve.virtual_sol_reserves
            - sol_amount;
        ctx.bonding_curve.virtual_token_reserves = ctx.bonding_curve.virtual_token_reserves
            + amount;
        Ok(
            SellOutcome {
                token_amount: amount,
                fee_recipient_amount,
                fee_staker_amount,
                user_sol_amount,
                event: SellEvent {
                    mint: ctx.token_mint,
                    seller: ctx.user,
                    sol_output: sol_amount,
                    token_input: amount,
                },
            },
        )
    }
}

} // verus!
