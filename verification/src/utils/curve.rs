use vstd::prelude::*;

verus! {

/// Lamports charged for `token_amount` tokens against virtual reserves
/// `sol_reserves` / `token_reserves`: the constant-product price, rounded down,
/// plus one lamport.
pub open spec fn buy_price(token_amount: int, sol_reserves: int, token_reserves: int) -> int {
    token_amount * sol_reserves / (token_reserves - token_amount) + 1
}

/// Lamports paid out for `token_amount` tokens against virtual reserves
/// `sol_reserves` / `token_reserves`: the constant-product price, rounded down.
pub open spec fn sell_price(token_amount: int, sol_reserves: int, token_reserves: int) -> int {
    token_amount * sol_reserves / (token_reserves + token_amount)
}

/// `rate` hundredths of a percent of `amount`, rounded down.
pub open spec fn fee(amount: int, rate: int) -> int {
    amount * rate / 10000
}

/// The fee split of `amount` can be computed in `u64` without overflow or underflow.
pub open spec fn fee_split_fits(amount: u64, fee_base_points: u16, fee_stakeholders: u16) -> bool {
    &&& amount * fee_base_points <= u64::MAX
    &&& fee(amount as int, fee_base_points as int) * fee_stakeholders <= u64::MAX
    &&& fee(fee(amount as int, fee_base_points as int), fee_stakeholders as int) <= fee(
        amount as int,
        fee_base_points as int,
    )
}

/// Price of buying `token_amount` tokens, computed in 128 bits and truncated
/// to 64 bits.
pub fn buy_quote(token_amount: u64, sol_reserves: u64, token_reserves: u64) -> (sol: u64)
    requires
        token_amount < token_reserves,
    ensures
        sol == buy_price(token_amount as int, sol_reserves as int, token_reserves as int) as u64,
{
    let a = token_amount as u128;
    let s = sol_reserves as u128;
    let t = token_reserves as u128;
    assert(a * s <= u64::MAX * u64::MAX) by (nonlinear_arith)
        requires
            a <= u64::MAX,
            s <= u64::MAX,
    ;
    let num = a * s;
    let den = t - a;
    assert(num / den <= num) by (nonlinear_arith)
        requires
            den >= 1,
            num >= 0,
    ;
    let q = num / den;
    (q + 1) as u64
}

/// Proceeds of selling `token_amount` tokens, computed in 128 bits.
pub fn sell_quote(token_amount: u64, sol_reserves: u64, token_reserves: u64) -> (sol: u64)
    requires
        token_amount + token_reserves > 0,
    ensures
        sol == sell_price(token_amount as int, sol_reserves as int, token_reserves as int),
        sol <= sol_reserves,
{
    let a = token_amount as u128;
    let s = sol_reserves as u128;
    let t = token_reserves as u128;
    assert(a * s <= u64::MAX * u64::MAX) by (nonlinear_arith)
        requires
            a <= u64::MAX,
            s <= u64::MAX,
    ;
    let num = a * s;
    let den = t + a;
    assert(num / den <= s) by (nonlinear_arith)
        requires
            num == a * s,
            den >= a,
            den >= 1,
            a >= 0,
            s >= 0,
    ;
    (num / den) as u64
}

/// Whether the fee split of `amount` can be computed in `u64`.
pub fn check_fee_split(amount: u64, fee_base_points: u16, fee_stakeholders: u16) -> (b: bool)
    ensures
        b == fee_split_fits(amount, fee_base_points, fee_stakeholders),
{
    let a = amount as u128;
    let bp = fee_base_points as u128;
    let fs = fee_stakeholders as u128;
    assert(a * bp <= u64::MAX * u16::MAX) by (nonlinear_arith)
        requires
            a <= u64::MAX,
            bp <= u16::MAX,
    ;
    let gross = a * bp;
    if gross > u64::MAX as u128 {
        return false;
    }
    let f = gross / 10000;
    assert(f * fs <= u64::MAX * u16::MAX) by (nonlinear_arith)
        requires
            f <= u64::MAX,
            fs <= u16::MAX,
    ;
    let staker = f * fs;
    if staker > u64::MAX as u128 {
        return false;
    }
    staker / 10000 <= f
}

/// Splits the fee on `amount`: returns the whole fee, the stakers' part of it
/// and the fee recipient's part of it.
pub fn split_fee(amount: u64, fee_base_points: u16, fee_stakeholders: u16) -> (r: (u64, u64, u64))
    requires
        fee_split_fits(amount, fee_base_points, fee_stakeholders),
    ensures
        r.0 == fee(amount as int, fee_base_points as int),
        r.1 == fee(r.0 as int, fee_stakeholders as int),
        r.2 == r.0 - r.1,
{
    let fee_sol_amount = amount * (fee_base_points as u64) / 10000;
    let fee_staker_amount = fee_sol_amount * (fee_stakeholders as u64) / 10000;
    let fee_recipient_amount = fee_sol_amount - fee_staker_amount;
    (fee_sol_amount, fee_staker_amount, fee_recipient_amount)
}

} // verus!
