use crate::errors::LamportsError;
use vstd::prelude::*;

verus! {

/// Moves `transfer_lamports` from a balance the program owns (`sender`) to
/// another balance (`to`): the receiver is credited first, then the sender
/// debited.
///
/// Fails with `InsufficientFunds` when the receiving balance would overflow
/// (nothing moved), or when the sender holds fewer lamports than asked; in
/// that case the receiver has already been credited and the sender is left as
/// it was (the runtime discards both on a failed instruction).
pub fn transfer_sol_from_vault_to_user(sender: &mut u64, to: &mut u64, transfer_lamports: u64) -> (r:
    Result<(), LamportsError>)
    ensures
        r is Ok <==> (*old(to) + transfer_lamports <= u64::MAX && transfer_lamports <= *old(
            sender,
        )),
        r is Ok ==> *final(to) == *old(to) + transfer_lamports && *final(sender) == *old(sender)
            - transfer_lamports,
        r is Ok ==> *final(sender) + *final(to) == *old(sender) + *old(to),
        r matches Err(e) ==> e == LamportsError::InsufficientFunds && *final(sender) == *old(
            sender,
        ),
        *old(to) + transfer_lamports > u64::MAX ==> *final(to) == *old(to),
        *old(to) + transfer_lamports <= u64::MAX ==> *final(to) == *old(to) + transfer_lamports,
{
    *to = match to.checked_add(transfer_lamports) {
        Some(v) => v,
        None => return Err(LamportsError::InsufficientFunds),
    };
    let source_balance = *sender;
    *sender = match source_balance.checked_sub(transfer_lamports) {
        Some(v) => v,
        None => return Err(LamportsError::InsufficientFunds),
    };
    Ok(())
}

/// The same transfer when sender and receiver are one account holding
/// `balance`: it is credited, then debited by the same amount, so it ends
/// where it started. Fails with `InsufficientFunds`, changing nothing, when
/// the credit would overflow.
pub fn transfer_sol_within_vault(balance: &mut u64, transfer_lamports: u64) -> (r: Result<
    (),
    LamportsError,
>)
    ensures
        r is Ok <==> *old(balance) + transfer_lamports <= u64::MAX,
        r matches Err(e) ==> e == LamportsError::InsufficientFunds,
        *final(balance) == *old(balance),
{
    *balance = match balance.checked_add(transfer_lamports) {
        Some(v) => v,
        None => return Err(LamportsError::InsufficientFunds),
    };
    let source_balance = *balance;
    *balance = match source_balance.checked_sub(transfer_lamports) {
        Some(v) => v,
        None => return Err(LamportsError::InsufficientFunds),
    };
    Ok(())
}

} // verus!
