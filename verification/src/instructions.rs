//! The three operations on a lock: funding it, redeeming from it, and
//! reclaiming what is left after expiry.
//!
//! Each operation validates the request, decides which transfers the token
//! ledger has to carry out, and says what the record looks like once they are
//! done. None of them moves a token itself: the caller hands the transfers to
//! the ledger in the order given and gives up at the first one that fails.

use crate::allocator::{
    checked_total, plan_transfers, split_even, split_with_remainder, split_with_remainder_spec,
    total, transfers_of, uniform, ShardTransfer, SHARD_COUNT,
};
use crate::error::FluterByError;
use crate::events::{ExpiredRewardsWithdrawn, FundsLocked, RewardsRedeemed};
use crate::state::{EscrowLockAccount, LockFunds, Pubkey, RedeemRewards, WithdrawExpiredRewards};
use vstd::prelude::*;

verus! {

/// What locking decided.
#[derive(Debug, PartialEq, Eq)]
pub struct LockedFunds {
    /// The record of the new lock.
    pub account: EscrowLockAccount,
    /// What moves from the minter's reward account into the escrow wallets.
    pub deposits: Vec<ShardTransfer>,
    pub event: FundsLocked,
}

/// What a redemption decided.
#[derive(Debug, PartialEq, Eq)]
pub struct Redemption {
    /// Main tokens to burn from the user's token account, before anything
    /// is paid out.
    pub burn_amount: u64,
    /// Reward that the user receives in all.
    pub reward_amount: u64,
    /// What moves from the escrow wallets to the user's reward account.
    pub withdrawals: Vec<ShardTransfer>,
    pub event: RewardsRedeemed,
}

/// What a reclamation decided.
#[derive(Debug, PartialEq, Eq)]
pub struct Reclamation {
    /// Reward that the minter receives in all.
    pub total_withdrawn: u64,
    /// What moves from the escrow wallets to the minter's reward account.
    pub withdrawals: Vec<ShardTransfer>,
    pub event: ExpiredRewardsWithdrawn,
}

/// The share of `remaining` that burning `burn_amount` out of a supply of
/// `supply` earns, rounded down.
pub open spec fn reward_for(burn_amount: u64, remaining: u64, supply: u64) -> int {
    (burn_amount as int * remaining as int) / supply as int
}

/// Why a redemption is refused, if it is.
pub open spec fn redeem_rejection(
    lock: EscrowLockAccount,
    user_token_amount: u64,
    burn_amount: u64,
    now: i64,
) -> Option<FluterByError> {
    let reward = reward_for(burn_amount, lock.remaining_reward_value, lock.total_token_supply);
    if !lock.is_active {
        Some(FluterByError::EscrowNotFound)
    } else if now >= lock.expires_at {
        Some(FluterByError::EscrowExpired)
    } else if user_token_amount < burn_amount {
        Some(FluterByError::InsufficientTokenBalance)
    } else if burn_amount == 0 {
        Some(FluterByError::InvalidDistributionAmount)
    } else if lock.total_token_supply == 0 || reward > u64::MAX {
        Some(FluterByError::DistributionCalculationOverflow)
    } else if reward > lock.remaining_reward_value {
        Some(FluterByError::InsufficientFunds)
    } else {
        None
    }
}

/// The record after `reward` was paid out of it.
pub open spec fn after_redemption(lock: EscrowLockAccount, reward: int) -> EscrowLockAccount {
    EscrowLockAccount {
        remaining_reward_value: (lock.remaining_reward_value - reward) as u64,
        ..lock
    }
}

/// `floor(burn_amount * remaining / supply)`, computed in 128 bits.
/// `None` when the supply is zero or the quotient does not fit in 64 bits.
pub fn proportional_reward(burn_amount: u64, remaining: u64, supply: u64) -> (reward: Option<u64>)
    ensures
        reward is Some <==> supply > 0 && reward_for(burn_amount, remaining, supply) <= u64::MAX,
        reward matches Some(r) ==> r == reward_for(burn_amount, remaining, supply),
{
    assert(0 <= burn_amount as int * remaining as int <= u128::MAX) by (nonlinear_arith)
        requires
            0 <= burn_amount <= u64::MAX,
            0 <= remaining <= u64::MAX,
    ;
    let product: u128 = (burn_amount as u128) * (remaining as u128);
    match product.checked_div(supply as u128) {
        None => None,
        Some(quotient) => {
            if quotient > u64::MAX as u128 {
                None
            } else {
                Some(quotient as u64)
            }
        },
    }
}

/// Redeems reward for `burn_amount` main tokens at time `now`.
///
/// The request is refused, and the record left as it was, when the escrow is
/// not active, when `now` has reached the expiry, when the user holds fewer
/// main tokens than `burn_amount`, when `burn_amount` is zero, when the
/// reward cannot be computed in 64 bits, or when it is more than the escrow
/// still holds; the first of these that applies names the error.
///
/// Otherwise the reward is `floor(burn_amount * remaining / supply)`. It is
/// taken from the escrow wallets in shares that differ by at most one unit,
/// the record's remaining reward goes down by it, and the event reports the
/// new remainder.
pub fn redeem_rewards(ctx: &mut RedeemRewards, burn_amount: u64, now: i64) -> (res: Result<
    Redemption,
    FluterByError,
>)
    ensures
        match redeem_rejection(
            old(ctx).escrow_lock_account,
            old(ctx).user_token_amount,
            burn_amount,
            now,
        ) {
            Some(e) => res == Err::<Redemption, FluterByError>(e) && *final(ctx) == *old(ctx),
            None => {
                let lock = old(ctx).escrow_lock_account;
                let reward = reward_for(
                    burn_amount,
                    lock.remaining_reward_value,
                    lock.total_token_supply,
                );
                &&& res matches Ok(redemption)
                &&& redemption.burn_amount == burn_amount
                &&& redemption.reward_amount == reward
                &&& redemption.withdrawals@ == transfers_of(
                    split_with_remainder_spec(reward as u64, SHARD_COUNT),
                )
                &&& redemption.event == (RewardsRedeemed {
                    token: lock.token,
                    user: old(ctx).user,
                    tokens_burned: burn_amount,
                    rewards_received: reward as u64,
                    remaining_rewards: (lock.remaining_reward_value - reward) as u64,
                    timestamp: now,
                })
                &&& *final(ctx) == (RedeemRewards {
                    escrow_lock_account: after_redemption(lock, reward),
                    ..*old(ctx)
                })
            },
        },
        old(ctx).escrow_lock_account.wf() ==> final(ctx).escrow_lock_account.wf(),
{
    let lock = ctx.escrow_lock_account;
    if !lock.is_active {
        return Err(FluterByError::EscrowNotFound);
    }
    if now >= lock.expires_at {
        return Err(FluterByError::EscrowExpired);
    }
    if ctx.user_token_amount < burn_amount {
        return Err(FluterByError::InsufficientTokenBalance);
    }
    if burn_amount == 0 {
        return Err(FluterByError::InvalidDistributionAmount);
    }
    let reward_amount: u64 = match proportional_reward(
        burn_amount,
        lock.remaining_reward_value,
        lock.total_token_supply,
    ) {
        Some(reward) => reward,
        None => {
            return Err(FluterByError::DistributionCalculationOverflow);
        },
    };
    if reward_amount > lock.remaining_reward_value {
        return Err(FluterByError::InsufficientFunds);
    }
    let shares = split_with_remainder(reward_amount, SHARD_COUNT);
    let withdrawals = plan_transfers(shares.as_slice());
    let remaining: u64 = lock.remaining_reward_value - reward_amount;
    ctx.escrow_lock_account.remaining_reward_value = remaining;
    Ok(
        Redemption {
            burn_amount,
            reward_amount,
            withdrawals,
            event: RewardsRedeemed {
                token: lock.token,
                user: ctx.user,
                tokens_burned: burn_amount,
                rewards_received: reward_amount,
                remaining_rewards: remaining,
                timestamp: now,
            },
        },
    )
}

/// Why a lock is refused, if it is.
pub open spec fn lock_rejection(
    signer: Pubkey,
    minter: Pubkey,
    reward_value: u64,
    token_supply: u64,
) -> Option<FluterByError> {
    if reward_value == 0 || token_supply == 0 {
        Some(FluterByError::InvalidDistributionAmount)
    } else if minter != signer {
        Some(FluterByError::UnauthorizedCaller)
    } else if reward_value as int % SHARD_COUNT as int != 0 {
        Some(FluterByError::UnevenDistribution)
    } else {
        None
    }
}

/// The record of a lock that was just funded.
pub open spec fn new_lock(
    escrow_wallets: [Pubkey; SHARD_COUNT],
    token: Pubkey,
    reward_token: Pubkey,
    minter: Pubkey,
    reward_value: u64,
    token_supply: u64,
    expiry: i64,
    now: i64,
) -> EscrowLockAccount {
    EscrowLockAccount {
        token,
        reward_token,
        minter,
        total_reward_value: reward_value,
        remaining_reward_value: reward_value,
        reward_per_wallet: (reward_value as int / SHARD_COUNT as int) as u64,
        total_token_supply: token_supply,
        escrow_wallets,
        expires_at: expiry,
        created_at: now,
        is_active: true,
    }
}

/// Locks `reward_value` of the reward token against `token_supply` of the
/// main token until `expiry`, at time `now`.
///
/// The request is refused when `reward_value` or `token_supply` is zero,
/// when `minter` is not the account that signed, or when `reward_value` does
/// not divide evenly over the escrow wallets; the first of these that
/// applies names the error.
///
/// Otherwise every escrow wallet is to receive the same part of the reward,
/// and the new record is active with all of the reward remaining.
///
/// The expiry has to lie after `now`. The escrow wallets are those that the
/// caller found for this lock: distinct, empty, and under the lock's own
/// authority.
pub fn lock_funds(
    ctx: &LockFunds,
    token: Pubkey,
    reward_token: Pubkey,
    minter: Pubkey,
    reward_value: u64,
    token_supply: u64,
    expiry: i64,
    now: i64,
) -> (res: Result<LockedFunds, FluterByError>)
    requires
        now < expiry,
    ensures
        match lock_rejection(ctx.minter, minter, reward_value, token_supply) {
            Some(e) => res == Err::<LockedFunds, FluterByError>(e),
            None => {
                let account = new_lock(
                    ctx.escrow_wallets,
                    token,
                    reward_token,
                    minter,
                    reward_value,
                    token_supply,
                    expiry,
                    now,
                );
                &&& res matches Ok(locked)
                &&& locked.account == account
                &&& locked.account.wf()
                &&& locked.deposits@ == transfers_of(
                    uniform(account.reward_per_wallet, SHARD_COUNT),
                )
                &&& locked.event == (FundsLocked {
                    mint: token,
                    reward_token,
                    minter,
                    value: reward_value,
                    token_supply,
                    expires_at: expiry,
                    timestamp: now,
                })
            },
        },
{
    if reward_value == 0 || token_supply == 0 {
        return Err(FluterByError::InvalidDistributionAmount);
    }
    if minter != ctx.minter {
        return Err(FluterByError::UnauthorizedCaller);
    }
    let reward_per_wallet: u64 = match split_even(reward_value, SHARD_COUNT) {
        Ok((per_shard, _)) => per_shard,
        Err(e) => {
            return Err(e);
        },
    };
    let amounts: [u64; SHARD_COUNT] = [
        reward_per_wallet,
        reward_per_wallet,
        reward_per_wallet,
        reward_per_wallet,
        reward_per_wallet,
    ];
    assert(amounts@ =~= uniform(reward_per_wallet, SHARD_COUNT));
    let deposits = plan_transfers(amounts.as_slice());
    Ok(
        LockedFunds {
            account: EscrowLockAccount {
                token,
                reward_token,
                minter,
                total_reward_value: reward_value,
                remaining_reward_value: reward_value,
                reward_per_wallet,
                total_token_supply: token_supply,
                escrow_wallets: ctx.escrow_wallets,
                expires_at: expiry,
                created_at: now,
                is_active: true,
            },
            deposits,
            event: FundsLocked {
                mint: token,
                reward_token,
                minter,
                value: reward_value,
                token_supply,
                expires_at: expiry,
                timestamp: now,
            },
        },
    )
}

/// Why a reclamation is refused, if it is.
pub open spec fn reclaim_rejection(
    lock: EscrowLockAccount,
    signer: Pubkey,
    wallet_amounts: Seq<u64>,
    now: i64,
) -> Option<FluterByError> {
    if !lock.is_active {
        Some(FluterByError::EscrowNotFound)
    } else if now < lock.expires_at {
        Some(FluterByError::EscrowNotExpired)
    } else if lock.minter != signer {
        Some(FluterByError::UnauthorizedMinter)
    } else if total(wallet_amounts) > u64::MAX {
        Some(FluterByError::DistributionCalculationOverflow)
    } else {
        None
    }
}

/// The record after the minter reclaimed the escrow.
pub open spec fn after_reclamation(lock: EscrowLockAccount) -> EscrowLockAccount {
    EscrowLockAccount { remaining_reward_value: 0, is_active: false, ..lock }
}

/// Gives the minter back what the escrow wallets hold, at time `now`.
///
/// The request is refused, and the record left as it was, when the escrow is
/// not active, when `now` is before the expiry, when the signer is not the
/// lock's minter, or when the wallets hold more in all than 64 bits can
/// count; the first of these that applies names the error.
///
/// Otherwise every wallet that holds anything is emptied, the record is
/// closed with nothing remaining, and the event reports the sum that was
/// withdrawn. An escrow whose wallets are all empty is closed just the same.
pub fn withdraw_expired_rewards(ctx: &mut WithdrawExpiredRewards, now: i64) -> (res: Result<
    Reclamation,
    FluterByError,
>)
    ensures
        match reclaim_rejection(
            old(ctx).escrow_lock_account,
            old(ctx).minter,
            old(ctx).escrow_wallet_amounts@,
            now,
        ) {
            Some(e) => res == Err::<Reclamation, FluterByError>(e) && *final(ctx) == *old(ctx),
            None => {
                let lock = old(ctx).escrow_lock_account;
                let withdrawn = total(old(ctx).escrow_wallet_amounts@);
                &&& res matches Ok(reclamation)
                &&& reclamation.total_withdrawn == withdrawn
                &&& reclamation.withdrawals@ == transfers_of(old(ctx).escrow_wallet_amounts@)
                &&& reclamation.event == (ExpiredRewardsWithdrawn {
                    token: lock.token,
                    minter: lock.minter,
                    amount_withdrawn: withdrawn as u64,
                    timestamp: now,
                })
                &&& *final(ctx) == (WithdrawExpiredRewards {
                    escrow_lock_account: after_reclamation(lock),
                    ..*old(ctx)
                })
            },
        },
        old(ctx).escrow_lock_account.wf() ==> final(ctx).escrow_lock_account.wf(),
{
    let lock = ctx.escrow_lock_account;
    if !lock.is_active {
        return Err(FluterByError::EscrowNotFound);
    }
    if now < lock.expires_at {
        return Err(FluterByError::EscrowNotExpired);
    }
    if lock.minter != ctx.minter {
        return Err(FluterByError::UnauthorizedMinter);
    }
    let total_withdrawn: u64 = match checked_total(ctx.escrow_wallet_amounts.as_slice()) {
        Some(sum) => sum,
        None => {
            return Err(FluterByError::DistributionCalculationOverflow);
        },
    };
    let withdrawals = plan_transfers(ctx.escrow_wallet_amounts.as_slice());
    ctx.escrow_lock_account.is_active = false;
    ctx.escrow_lock_account.remaining_reward_value = 0;
    Ok(
        Reclamation {
            total_withdrawn,
            withdrawals,
            event: ExpiredRewardsWithdrawn {
                token: lock.token,
                minter: lock.minter,
                amount_withdrawn: total_withdrawn,
                timestamp: now,
            },
        },
    )
}

} // verus!
