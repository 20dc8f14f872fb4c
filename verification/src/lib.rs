//! On-chain logic of the Pixel token launchpad: bonding-curve trading,
//! fee splitting, and epoch-based staking rewards, as verified state
//! transitions over plain account values.

use vstd::prelude::*;

pub mod errors;
pub mod events;
pub mod instructions;
pub mod state;
pub mod laws;
pub mod utils;

pub use errors::{LamportsError, PixelError};
pub use events::{BuyEvent, CreateTokenEvent, SellEvent, StakeEvent, WithdrawEvent};
pub use instructions::{
    Buy,
    BuyOutcome,
    BuyParams,
    Claim,
    CreateConfig,
    CreateConfigParams,
    CreateStakeHolder,
    CreateToken,
    CreateTokenParams,
    Sell,
    SellOutcome,
    SellParams,
    Stake,
    StakeParams,
    UpdateConfig,
    UpdateConfigParams,
    Withdraw,
    WithdrawStakeHolder,
};
pub use state::{BondingCurve, Config, StakeHolder, UserStakeInfo, MAX_EPOCH};
pub use utils::{transfer_sol_from_vault_to_user, transfer_sol_within_vault};


verus! {

/// Account addresses are carried through the logic as opaque values.
#[verifier::external_type_specification]
#[verifier::external_body]
pub struct ExPubkey(anchor_lang::prelude::Pubkey);

} // verus!
