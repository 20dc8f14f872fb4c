pub mod create_config;
pub mod create_stake_holder;
pub mod update_config;
pub mod withdraw;
pub mod withdraw_stake_holder;

pub use create_config::{CreateConfig, CreateConfigParams};
pub use create_stake_holder::CreateStakeHolder;
pub use update_config::{UpdateConfig, UpdateConfigParams};
pub use withdraw::Withdraw;
pub use withdraw_stake_holder::WithdrawStakeHolder;
