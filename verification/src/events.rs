use anchor_lang::prelude::Pubkey;
use vstd::prelude::*;

verus! {

/// Emitted when a new token and its bonding curve are created.
#[derive(Debug, PartialEq, Eq)]
pub struct CreateTokenEvent {
    pub creator: Pubkey,
    pub token_name: String,
    pub token_symbol: String,
    pub token_uri: String,
    pub mint: Pubkey,
}

/// Emitted after a purchase from a bonding curve.
#[derive(Debug, Clone, Copy, PartialEq, Eq)]
pub struct BuyEvent {
    pub mint: Pubkey,
    pub buyer: Pubkey,
    pub sol_input: u64,
    pub token_output: u64,
    pub is_completed: bool,
}

/// Emitted after a sale to a bonding curve.
#[derive(Debug, Clone, Copy, PartialEq, Eq)]
pub struct SellEvent {
    pub mint: Pubkey,
    pub seller: Pubkey,
    pub sol_output: u64,
    pub token_input: u64,
}

/// Emitted when the authority drains a bonding curve.
#[derive(Debug, Clone, Copy, PartialEq, Eq)]
pub struct WithdrawEvent {
    pub mint: Pubkey,
    pub withdrawer: Pubkey,
    pub sol_output: u64,
    pub token_output: u64,
}

/// Emitted after a stake.
#[derive(Debug, Clone, Copy, PartialEq, Eq)]
pub struct StakeEvent {
    pub staker: Pubkey,
    pub amount: u64,
}

} // verus!
