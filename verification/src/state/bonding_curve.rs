use vstd::prelude::*;

verus! {

/// Reserves of one token's bonding curve. The price follows the constant
/// product of the virtual reserves; the real reserves are what the curve
/// actually holds.
#[derive(Debug, Clone, Copy, PartialEq, Eq, Default)]
pub struct BondingCurve {
    pub virtual_token_reserves: u64,
    pub virtual_sol_reserves: u64,
    pub real_token_reserves: u64,
    pub real_sol_reserves: u64,
    pub token_total_supply: u64,
    pub complete: bool,
    pub bump: u8,
}

} // verus!
