//! A lock together with its escrow wallets, from funding to closing.
//!
//! The operations decide and the ledger carries out. This module puts the two
//! together and states what holds of every state that a lock can reach.

use crate::allocator::{
    lemma_split_total, split_with_remainder_spec, total, transfers_of, uniform, SHARD_COUNT,
};
use crate::error::FluterByError;
use crate::instructions::{
    after_reclamation, after_redemption, lock_rejection, new_lock, reclaim_rejection,
    redeem_rejection, reward_for,
};
use crate::ledger::{
    honoured, lemma_no_transfers_of_nothing, lemma_settlement, lemma_total_of_uniform, settled,
    Direction,
};
use crate::state::{EscrowLockAccount, Pubkey};
use vstd::prelude::*;

verus! {

/// A lock and what each of its escrow wallets holds.
pub struct Escrow {
    pub account: EscrowLockAccount,
    pub wallets: Seq<u64>,
}

/// A request made of an escrow, with what it reads of the world.
pub enum Request {
    /// A holder of `user_token_amount` main tokens asks to burn `burn_amount`.
    Redeem { user_token_amount: u64, burn_amount: u64, now: i64 },
    /// `signer` asks for what is left.
    Reclaim { signer: Pubkey, now: i64 },
}

impl Escrow {
    /// The record is well formed, there is one balance for each escrow
    /// wallet, and while the lock is active the wallets hold in all exactly
    /// what the record says remains.
    pub open spec fn consistent(self) -> bool {
        &&& self.account.wf()
        &&& self.wallets.len() == SHARD_COUNT
        &&& self.account.is_active ==> total(self.wallets)
            == self.account.remaining_reward_value
    }

    /// The escrow right after `account` was created and its deposits went
    /// into empty wallets.
    pub open spec fn opened(account: EscrowLockAccount) -> Escrow {
        Escrow {
            account,
            wallets: settled(
                uniform(0, SHARD_COUNT),
                transfers_of(uniform(account.reward_per_wallet, SHARD_COUNT)),
                Direction::Deposit,
            ),
        }
    }

    /// The reward that the redemption pays.
    pub open spec fn reward(self, burn_amount: u64) -> int {
        reward_for(
            burn_amount,
            self.account.remaining_reward_value,
            self.account.total_token_supply,
        )
    }

    /// The redemption is accepted and the ledger carries out its
    /// withdrawals.
    pub open spec fn redeems(self, user_token_amount: u64, burn_amount: u64, now: i64) -> bool {
        &&& redeem_rejection(self.account, user_token_amount, burn_amount, now) is None
        &&& honoured(
            self.wallets,
            transfers_of(split_with_remainder_spec(self.reward(burn_amount) as u64, SHARD_COUNT)),
            Direction::Withdrawal,
        )
    }

    /// The reclamation is accepted and the ledger carries out its
    /// withdrawals.
    pub open spec fn reclaims(self, signer: Pubkey, now: i64) -> bool {
        &&& reclaim_rejection(self.account, signer, self.wallets, now) is None
        &&& honoured(self.wallets, transfers_of(self.wallets), Direction::Withdrawal)
    }

    /// The request comes into effect.
    pub open spec fn accepts(self, request: Request) -> bool {
        match request {
            Request::Redeem { user_token_amount, burn_amount, now } => self.redeems(
                user_token_amount,
                burn_amount,
                now,
            ),
            Request::Reclaim { signer, now } => self.reclaims(signer, now),
        }
    }

    /// The escrow after the request: changed as the operation decided where
    /// the request comes into effect, and as it was before where it does not.
    pub open spec fn step(self, request: Request) -> Escrow {
        if !self.accepts(request) {
            self
        } else {
            match request {
                Request::Redeem { user_token_amount, burn_amount, now } => Escrow {
                    account: after_redemption(self.account, self.reward(burn_amount)),
                    wallets: settled(
                        self.wallets,
                        transfers_of(
                            split_with_remainder_spec(
                                self.reward(burn_amount) as u64,
                                SHARD_COUNT,
                            ),
                        ),
                        Direction::Withdrawal,
                    ),
                },
                Request::Reclaim { signer, now } => Escrow {
                    account: after_reclamation(self.account),
                    wallets: settled(
                        self.wallets,
                        transfers_of(self.wallets),
                        Direction::Withdrawal,
                    ),
                },
            }
        }
    }

    /// The reward that the request pays to a redeeming holder.
    pub open spec fn pays(self, request: Request) -> int {
        match request {
            Request::Redeem { user_token_amount, burn_amount, now } => if self.accepts(request) {
                self.reward(burn_amount)
            } else {
                0
            },
            Request::Reclaim { signer, now } => 0,
        }
    }

    /// The escrow after all of `requests`, in order.
    pub open spec fn run(self, requests: Seq<Request>) -> Escrow
        decreases requests.len(),
    {
        if requests.len() == 0 {
            self
        } else {
            self.run(requests.drop_last()).step(requests.last())
        }
    }

    /// The reward paid to redeeming holders over all of `requests`.
    pub open spec fn paid_out(self, requests: Seq<Request>) -> int
        decreases requests.len(),
    {
        if requests.len() == 0 {
            0
        } else {
            self.paid_out(requests.drop_last()) + self.run(requests.drop_last()).pays(
                requests.last(),
            )
        }
    }
}

/// A reward is never negative, and burning no more than the supply earns no
/// more than what remains.
pub proof fn lemma_reward_bounds(burn_amount: u64, remaining: u64, supply: u64)
    requires
        supply > 0,
    ensures
        0 <= reward_for(burn_amount, remaining, supply),
        burn_amount <= supply ==> reward_for(burn_amount, remaining, supply) <= remaining,
{
    let b = burn_amount as int;
    let r = remaining as int;
    let s = supply as int;
    assert(0 <= (b * r) / s && (b <= s ==> (b * r) / s <= r)) by (nonlinear_arith)
        requires
            0 <= b,
            0 <= r,
            0 < s,
    {
        assert(0 <= b * r);
        if b <= s {
            assert(b * r <= s * r);
            assert((s * r) / s == r);
        }
    }
}

/// A holder who burns no more than the supply is never told that the reward
/// cannot be computed or that the escrow holds too little.
pub proof fn lemma_burn_within_supply_is_covered(
    lock: EscrowLockAccount,
    user_token_amount: u64,
    burn_amount: u64,
    now: i64,
)
    requires
        0 < lock.total_token_supply,
        burn_amount <= lock.total_token_supply,
    ensures
        redeem_rejection(lock, user_token_amount, burn_amount, now) != Some(
            FluterByError::DistributionCalculationOverflow,
        ),
        redeem_rejection(lock, user_token_amount, burn_amount, now) != Some(
            FluterByError::InsufficientFunds,
        ),
{
    lemma_reward_bounds(burn_amount, lock.remaining_reward_value, lock.total_token_supply);
}

/// A lock with nothing remaining still takes redemptions while it is open,
/// but pays nothing and stays as it is.
pub proof fn lemma_depleted_lock_pays_nothing(
    escrow: Escrow,
    user_token_amount: u64,
    burn_amount: u64,
    now: i64,
)
    requires
        escrow.account.is_depleted(),
        0 < escrow.account.total_token_supply,
    ensures
        escrow.account.redeemable_at(now) && 0 < burn_amount <= user_token_amount
            ==> escrow.redeems(user_token_amount, burn_amount, now),
        escrow.pays(Request::Redeem { user_token_amount, burn_amount, now }) == 0,
        escrow.step(Request::Redeem { user_token_amount, burn_amount, now }) == escrow,
{
    let reward = escrow.reward(burn_amount);
    assert(reward == 0) by {
        assert(burn_amount as int * 0 == 0);
    }
    let shares = split_with_remainder_spec(0, SHARD_COUNT);
    assert(shares =~= uniform(0, SHARD_COUNT));
    lemma_no_transfers_of_nothing(SHARD_COUNT);
    assert(transfers_of(shares).len() == 0);
    assert(after_redemption(escrow.account, 0) == escrow.account);
}

/// Locking opens a consistent escrow: where a lock is accepted and its
/// deposits go into empty wallets, the ledger carries them all out, every
/// wallet then holds its equal part, and together they hold the whole
/// reward, all of which remains.
pub proof fn lemma_lock_opens_consistent(
    signer: Pubkey,
    escrow_wallets: [Pubkey; SHARD_COUNT],
    token: Pubkey,
    reward_token: Pubkey,
    minter: Pubkey,
    reward_value: u64,
    token_supply: u64,
    expiry: i64,
    now: i64,
)
    requires
        now < expiry,
        lock_rejection(signer, minter, reward_value, token_supply) is None,
    ensures
        ({
            let account = new_lock(
                escrow_wallets,
                token,
                reward_token,
                minter,
                reward_value,
                token_supply,
                expiry,
                now,
            );
            let escrow = Escrow::opened(account);
            &&& honoured(
                uniform(0, SHARD_COUNT),
                transfers_of(uniform(account.reward_per_wallet, SHARD_COUNT)),
                Direction::Deposit,
            )
            &&& escrow.consistent()
            &&& account.remaining_reward_value == account.total_reward_value == reward_value
            &&& forall|i: int|
                0 <= i < SHARD_COUNT ==> escrow.wallets[i] == reward_value as int
                    / SHARD_COUNT as int
        }),
{
    let account = new_lock(
        escrow_wallets,
        token,
        reward_token,
        minter,
        reward_value,
        token_supply,
        expiry,
        now,
    );
    let empty = uniform(0, SHARD_COUNT);
    let parts = uniform(account.reward_per_wallet, SHARD_COUNT);
    lemma_settlement(empty, parts, Direction::Deposit);
    lemma_total_of_uniform(0, SHARD_COUNT);
    lemma_total_of_uniform(account.reward_per_wallet, SHARD_COUNT);
}

/// A request that is refused, or whose transfers the ledger does not carry
/// out, changes neither the record nor what the wallets hold.
pub proof fn lemma_refused_request_changes_nothing(escrow: Escrow, request: Request)
    requires
        !escrow.accepts(request),
    ensures
        escrow.step(request) == escrow,
        escrow.pays(request) == 0,
{
}

/// No request changes the terms of a lock: tokens, minter, locked reward,
/// part of each wallet, supply, wallets and dates stay what they were. What
/// remains never grows, and a closed lock stays closed and accepts nothing.
pub proof fn lemma_step_keeps_terms(escrow: Escrow, request: Request)
    ensures
        ({
            let before = escrow.account;
            let after = escrow.step(request).account;
            &&& after.token == before.token
            &&& after.reward_token == before.reward_token
            &&& after.minter == before.minter
            &&& after.total_reward_value == before.total_reward_value
            &&& after.reward_per_wallet == before.reward_per_wallet
            &&& after.total_token_supply == before.total_token_supply
            &&& after.escrow_wallets == before.escrow_wallets
            &&& after.expires_at == before.expires_at
            &&& after.created_at == before.created_at
            &&& after.remaining_reward_value <= before.remaining_reward_value
            &&& after.is_active ==> before.is_active
            &&& !before.is_active ==> !escrow.accepts(request)
        }),
{
    if escrow.accepts(request) {
        match request {
            Request::Redeem { user_token_amount, burn_amount, now } => {
                lemma_reward_bounds(
                    burn_amount,
                    escrow.account.remaining_reward_value,
                    escrow.account.total_token_supply,
                );
            },
            Request::Reclaim { signer, now } => {},
        }
    }
}

/// A request leaves a consistent escrow consistent.
pub proof fn lemma_step_keeps_consistent(escrow: Escrow, request: Request)
    requires
        escrow.consistent(),
    ensures
        escrow.step(request).consistent(),
{
    if escrow.accepts(request) {
        match request {
            Request::Redeem { user_token_amount, burn_amount, now } => {
                let reward = escrow.reward(burn_amount);
                lemma_reward_bounds(
                    burn_amount,
                    escrow.account.remaining_reward_value,
                    escrow.account.total_token_supply,
                );
                let shares = split_with_remainder_spec(reward as u64, SHARD_COUNT);
                lemma_split_total(reward as u64, SHARD_COUNT);
                lemma_settlement(escrow.wallets, shares, Direction::Withdrawal);
            },
            Request::Reclaim { signer, now } => {
                lemma_settlement(escrow.wallets, escrow.wallets, Direction::Withdrawal);
            },
        }
    }
}

/// Every state that a consistent escrow reaches is consistent: the record
/// keeps `0 <= remaining <= total`, and while the lock is active its wallets
/// hold in all what the record says remains.
pub proof fn lemma_run_keeps_consistent(escrow: Escrow, requests: Seq<Request>)
    requires
        escrow.consistent(),
    ensures
        escrow.run(requests).consistent(),
        escrow.run(requests).account.remaining_reward_value <= escrow.run(
            requests,
        ).account.total_reward_value,
    decreases requests.len(),
{
    if requests.len() > 0 {
        lemma_run_keeps_consistent(escrow, requests.drop_last());
        lemma_step_keeps_consistent(escrow.run(requests.drop_last()), requests.last());
    }
}

/// Over any sequence of requests the locked reward and the supply stay what
/// they were, what remains never grows, and a closed lock stays closed.
pub proof fn lemma_run_keeps_terms(escrow: Escrow, requests: Seq<Request>)
    ensures
        ({
            let before = escrow.account;
            let after = escrow.run(requests).account;
            &&& after.total_reward_value == before.total_reward_value
            &&& after.reward_per_wallet == before.reward_per_wallet
            &&& after.total_token_supply == before.total_token_supply
            &&& after.minter == before.minter
            &&& after.expires_at == before.expires_at
            &&& after.remaining_reward_value <= before.remaining_reward_value
            &&& after.is_active ==> before.is_active
        }),
    decreases requests.len(),
{
    if requests.len() > 0 {
        lemma_run_keeps_terms(escrow, requests.drop_last());
        lemma_step_keeps_terms(escrow.run(requests.drop_last()), requests.last());
    }
}

/// Every state that a lock reaches after it was funded is consistent,
/// whatever is asked of it and in whatever order.
pub proof fn lemma_every_reachable_state_is_consistent(
    signer: Pubkey,
    escrow_wallets: [Pubkey; SHARD_COUNT],
    token: Pubkey,
    reward_token: Pubkey,
    minter: Pubkey,
    reward_value: u64,
    token_supply: u64,
    expiry: i64,
    now: i64,
    requests: Seq<Request>,
)
    requires
        now < expiry,
        lock_rejection(signer, minter, reward_value, token_supply) is None,
    ensures
        ({
            let reached = Escrow::opened(
                new_lock(
                    escrow_wallets,
                    token,
                    reward_token,
                    minter,
                    reward_value,
                    token_supply,
                    expiry,
                    now,
                ),
            ).run(requests);
            &&& reached.consistent()
            &&& 0 <= reached.account.remaining_reward_value <= reached.account.total_reward_value
                == reward_value
            &&& reached.account.is_active ==> total(reached.wallets)
                == reached.account.remaining_reward_value
            &&& !reached.account.is_active ==> reached.account.remaining_reward_value == 0
        }),
{
    let opened = Escrow::opened(
        new_lock(
            escrow_wallets,
            token,
            reward_token,
            minter,
            reward_value,
            token_supply,
            expiry,
            now,
        ),
    );
    lemma_lock_opens_consistent(
        signer,
        escrow_wallets,
        token,
        reward_token,
        minter,
        reward_value,
        token_supply,
        expiry,
        now,
    );
    lemma_run_keeps_consistent(opened, requests);
    lemma_run_keeps_terms(opened, requests);
}

/// A reclamation that is accepted always goes through, empties every wallet
/// and closes the lock with nothing remaining.
pub proof fn lemma_reclaim_closes(escrow: Escrow, signer: Pubkey, now: i64)
    requires
        escrow.wallets.len() == SHARD_COUNT,
        reclaim_rejection(escrow.account, signer, escrow.wallets, now) is None,
    ensures
        escrow.reclaims(signer, now),
        ({
            let closed = escrow.step(Request::Reclaim { signer, now });
            &&& !closed.account.is_active
            &&& closed.account.remaining_reward_value == 0
            &&& closed.wallets == uniform(0, SHARD_COUNT)
        }),
{
    lemma_settlement(escrow.wallets, escrow.wallets, Direction::Withdrawal);
    let closed = escrow.step(Request::Reclaim { signer, now });
    assert(closed.wallets =~= uniform(0, SHARD_COUNT));
}

/// Over any sequence of redemption requests the total reward stays what it
/// was, and what remains goes down by exactly what the redemptions paid.
pub proof fn lemma_redemptions_conserve(escrow: Escrow, requests: Seq<Request>)
    requires
        forall|i: int| 0 <= i < requests.len() ==> requests[i] is Redeem,
    ensures
        escrow.run(requests).account.total_reward_value == escrow.account.total_reward_value,
        escrow.account.remaining_reward_value - escrow.run(
            requests,
        ).account.remaining_reward_value == escrow.paid_out(requests),
    decreases requests.len(),
{
    if requests.len() > 0 {
        lemma_redemptions_conserve(escrow, requests.drop_last());
        let before = escrow.run(requests.drop_last());
        match requests.last() {
            Request::Redeem { user_token_amount, burn_amount, now } => {
                if before.accepts(requests.last()) {
                    lemma_reward_bounds(
                        burn_amount,
                        before.account.remaining_reward_value,
                        before.account.total_token_supply,
                    );
                }
            },
            Request::Reclaim { signer, now } => {},
        }
    }
}

/// From the moment a lock is funded, through any sequence of redemption
/// requests, the reward locked less the reward remaining is the sum of what
/// the redemptions paid.
pub proof fn lemma_locked_less_remaining_is_paid_out(
    account: EscrowLockAccount,
    requests: Seq<Request>,
)
    requires
        account.remaining_reward_value == account.total_reward_value,
        forall|i: int| 0 <= i < requests.len() ==> requests[i] is Redeem,
    ensures
        ({
            let last = Escrow::opened(account).run(requests).account;
            last.total_reward_value - last.remaining_reward_value == Escrow::opened(
                account,
            ).paid_out(requests)
        }),
{
    lemma_redemptions_conserve(Escrow::opened(account), requests);
}

/// At the instant of expiry redemption is closed and reclamation is open:
/// an active lock refuses every redemption with `EscrowExpired`, and lets
/// its minter reclaim.
pub proof fn lemma_expiry_belongs_to_reclaim(
    lock: EscrowLockAccount,
    user_token_amount: u64,
    burn_amount: u64,
    wallet_amounts: Seq<u64>,
)
    requires
        lock.is_active,
    ensures
        redeem_rejection(lock, user_token_amount, burn_amount, lock.expires_at) == Some(
            FluterByError::EscrowExpired,
        ),
        total(wallet_amounts) <= u64::MAX ==> reclaim_rejection(
            lock,
            lock.minter,
            wallet_amounts,
            lock.expires_at,
        ) is None,
{
}

/// At every instant an active lock is open to exactly one of redemption and
/// reclamation: no redemption is accepted once reclamation is open, and no
/// reclamation before.
pub proof fn lemma_windows_do_not_overlap(
    lock: EscrowLockAccount,
    now: i64,
    user_token_amount: u64,
    burn_amount: u64,
    signer: Pubkey,
    wallet_amounts: Seq<u64>,
)
    requires
        lock.is_active,
    ensures
        lock.redeemable_at(now) != lock.reclaimable_at(now),
        redeem_rejection(lock, user_token_amount, burn_amount, now) is None ==> lock.redeemable_at(
            now,
        ),
        reclaim_rejection(lock, signer, wallet_amounts, now) is None ==> lock.reclaimable_at(now),
        !lock.redeemable_at(now) ==> redeem_rejection(lock, user_token_amount, burn_amount, now)
            == Some(FluterByError::EscrowExpired),
        !lock.reclaimable_at(now) ==> reclaim_rejection(lock, signer, wallet_amounts, now)
            == Some(FluterByError::EscrowNotExpired),
{
}

} // verus!
