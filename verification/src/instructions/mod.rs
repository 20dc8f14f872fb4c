pub mod admin;
pub mod buy;
pub mod claim;
pub mod create_token;
pub mod sell;
pub mod stake;

pub use admin::{
    CreateConfig,
    CreateConfigParams,
    CreateStakeHolder,
    UpdateConfig,
    UpdateConfigParams,
    Withdraw,
    WithdrawStakeHolder,
};
pub use buy::{Buy, BuyOutcome, BuyParams};
pub use sell::{Sell, SellOutcome, SellParams};
pub use claim::Claim;
pub use stake::{Stake, StakeParams};
pub use create_token::{CreateToken, CreateTokenParams};
