use std::collections::BTreeMap;
use vstd::prelude::*;

verus! {

/// Number of epochs the staking program runs for.
pub const MAX_EPOCH: u16 = 300;

/// The staking pool: fee rewards collected per epoch and total stake per epoch.
#[derive(Debug, Clone, PartialEq, Eq, Default)]
pub struct StakeHolder {
    pub initialized: bool,
    /// rewards collected in each epoch
    pub rewards: BTreeMap<u16, u64>,
    /// total stake counted in each epoch
    pub total_stakes: BTreeMap<u16, u64>,
    pub curent_total_stake: u64,
    pub first_epoch_start_time: u32,
    pub bump: u8,
}

} // verus!
