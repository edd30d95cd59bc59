//! The facts that the operations report.

use crate::state::Pubkey;
use vstd::prelude::*;

verus! {

/// A lock was created and funded.
#[derive(Clone, Copy, Debug, PartialEq, Eq, Structural)]
pub struct FundsLocked {
    pub mint: Pubkey,
    pub reward_token: Pubkey,
    pub minter: Pubkey,
    pub value: u64,
    pub token_supply: u64,
    pub expires_at: i64,
    pub timestamp: i64,
}

/// A holder burned main tokens and received reward.
#[derive(Clone, Copy, Debug, PartialEq, Eq, Structural)]
pub struct RewardsRedeemed {
    pub token: Pubkey,
    pub user: Pubkey,
    pub tokens_burned: u64,
    pub rewards_received: u64,
    pub remaining_rewards: u64,
    pub timestamp: i64,
}

/// The minter took back what was left after expiry.
#[derive(Clone, Copy, Debug, PartialEq, Eq, Structural)]
pub struct ExpiredRewardsWithdrawn {
    pub token: Pubkey,
    pub minter: Pubkey,
    pub amount_withdrawn: u64,
    pub timestamp: i64,
}

} // verus!
