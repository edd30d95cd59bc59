//! The escrow lock record and what each operation reads of the accounts
//! around it.

use crate::allocator::SHARD_COUNT;
use vstd::prelude::*;

verus! {

/// A 256-bit account identifier, held as its upper and lower 128 bits. The
/// library only stores identifiers and compares them for equality.
#[derive(Clone, Copy, Debug, PartialEq, Eq, Structural)]
pub struct Pubkey {
    pub hi: u128,
    pub lo: u128,
}

/// The record of one lock, kept per main token and minter.
#[derive(Clone, Copy, Debug, PartialEq, Eq)]
pub struct EscrowLockAccount {
    /// Main token: holders burn it to redeem.
    pub token: Pubkey,
    /// Reward token: what is locked and paid out.
    pub reward_token: Pubkey,
    /// Who locked the reward and may take back what is left after expiry.
    pub minter: Pubkey,
    /// Reward locked at creation.
    pub total_reward_value: u64,
    /// Reward not yet redeemed or reclaimed.
    pub remaining_reward_value: u64,
    /// Reward that each escrow wallet was funded with.
    pub reward_per_wallet: u64,
    /// Supply of the main token that redemption is measured against.
    pub total_token_supply: u64,
    /// The escrow wallets, in shard order.
    pub escrow_wallets: [Pubkey; SHARD_COUNT],
    pub expires_at: i64,
    pub created_at: i64,
    /// False once the minter has reclaimed the escrow.
    pub is_active: bool,
}

impl EscrowLockAccount {
    /// What holds of every record that `lock_funds` created, whatever
    /// happened to it since.
    pub open spec fn wf(&self) -> bool {
        &&& 0 < self.total_reward_value
        &&& 0 < self.total_token_supply
        &&& self.remaining_reward_value <= self.total_reward_value
        &&& self.reward_per_wallet * SHARD_COUNT == self.total_reward_value
        &&& self.created_at < self.expires_at
        &&& !self.is_active ==> self.remaining_reward_value == 0
    }

    /// The lock is active with nothing left to redeem.
    pub open spec fn is_depleted(&self) -> bool {
        self.is_active && self.remaining_reward_value == 0
    }

    /// Redemption is open: the escrow is active and `now` is before expiry.
    pub open spec fn redeemable_at(&self, now: i64) -> bool {
        self.is_active && now < self.expires_at
    }

    /// Reclamation is open: the escrow is active and `now` is at or after
    /// expiry.
    pub open spec fn reclaimable_at(&self, now: i64) -> bool {
        self.is_active && now >= self.expires_at
    }
}

/// What locking reads of its accounts.
#[derive(Clone, Copy, Debug, PartialEq, Eq)]
pub struct LockFunds {
    /// The account that signed the request.
    pub minter: Pubkey,
    /// The escrow wallets to fund, in shard order.
    pub escrow_wallets: [Pubkey; SHARD_COUNT],
}

/// What redemption reads of its accounts, and the record it updates.
#[derive(Clone, Copy, Debug, PartialEq, Eq)]
pub struct RedeemRewards {
    pub escrow_lock_account: EscrowLockAccount,
    /// The account that signed the request.
    pub user: Pubkey,
    /// Main tokens that the user's token account holds.
    pub user_token_amount: u64,
}

/// What reclamation reads of its accounts, and the record it closes.
#[derive(Clone, Copy, Debug, PartialEq, Eq)]
pub struct WithdrawExpiredRewards {
    pub escrow_lock_account: EscrowLockAccount,
    /// The account that signed the request.
    pub minter: Pubkey,
    /// Reward tokens that each escrow wallet holds, in shard order.
    pub escrow_wallet_amounts: [u64; SHARD_COUNT],
}

} // verus!
