use vstd::prelude::*;

verus! {

/// One staker's position.
#[derive(Debug, Clone, Copy, PartialEq, Eq, Default)]
pub struct UserStakeInfo {
    pub initialized: bool,
    pub stake_amount: u64,
    pub pending_reward: u64,
    /// epoch in which the position was last settled
    pub last_epoch: u16,
    pub bump: u8,
}

} // verus!
