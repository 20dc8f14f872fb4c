pub mod bonding_curve;
pub mod config;
pub mod stake_holder;
pub mod user_stake_info;

pub use bonding_curve::BondingCurve;
pub use config::Config;
pub use stake_holder::{StakeHolder, MAX_EPOCH};
pub use user_stake_info::UserStakeInfo;
