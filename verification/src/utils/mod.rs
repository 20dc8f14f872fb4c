pub mod curve;
pub mod staking;
pub mod token;

pub use token::{transfer_sol_from_vault_to_user, transfer_sol_within_vault};
