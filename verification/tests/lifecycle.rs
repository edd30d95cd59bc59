use fluter_by::allocator::ShardTransfer;
use fluter_by::error::FluterByError;
use fluter_by::instructions::{lock_funds, redeem_rewards, withdraw_expired_rewards};
use fluter_by::state::{EscrowLockAccount, LockFunds, Pubkey, RedeemRewards, WithdrawExpiredRewards};

fn key(n: u128) -> Pubkey {
    Pubkey { hi: 0, lo: n }
}

/// A lock with its wallets, and a ledger that moves all transfers of an
/// operation or none.
#[derive(Clone, Copy, Debug, PartialEq)]
struct Escrow {
    account: EscrowLockAccount,
    wallets: [u64; 5],
}

#[derive(Debug, PartialEq)]
enum Refusal {
    Operation(FluterByError),
    Ledger,
}

fn deposit(wallets: [u64; 5], transfers: &[ShardTransfer]) -> Option<[u64; 5]> {
    let mut after = wallets;
    for t in transfers {
        after[t.shard] = after[t.shard].checked_add(t.amount)?;
    }
    Some(after)
}

fn withdraw(wallets: [u64; 5], transfers: &[ShardTransfer]) -> Option<[u64; 5]> {
    let mut after = wallets;
    for t in transfers {
        after[t.shard] = after[t.shard].checked_sub(t.amount)?;
    }
    Some(after)
}

fn open(reward: u64, supply: u64, expiry: i64, now: i64) -> Result<Escrow, Refusal> {
    let ctx = LockFunds {
        minter: key(3),
        escrow_wallets: [key(11), key(12), key(13), key(14), key(15)],
    };
    let locked = lock_funds(&ctx, key(1), key(2), key(3), reward, supply, expiry, now)
        .map_err(Refusal::Operation)?;
    let wallets = deposit([0; 5], &locked.deposits).ok_or(Refusal::Ledger)?;
    Ok(Escrow { account: locked.account, wallets })
}

fn redeem(escrow: &mut Escrow, held: u64, burn: u64, now: i64) -> Result<u64, Refusal> {
    let mut ctx =
        RedeemRewards { escrow_lock_account: escrow.account, user: key(7), user_token_amount: held };
    let redemption = redeem_rewards(&mut ctx, burn, now).map_err(Refusal::Operation)?;
    let wallets = withdraw(escrow.wallets, &redemption.withdrawals).ok_or(Refusal::Ledger)?;
    *escrow = Escrow { account: ctx.escrow_lock_account, wallets };
    Ok(redemption.reward_amount)
}

fn reclaim(escrow: &mut Escrow, signer: Pubkey, now: i64) -> Result<u64, Refusal> {
    let mut ctx = WithdrawExpiredRewards {
        escrow_lock_account: escrow.account,
        minter: signer,
        escrow_wallet_amounts: escrow.wallets,
    };
    let reclamation = withdraw_expired_rewards(&mut ctx, now).map_err(Refusal::Operation)?;
    let wallets = withdraw(escrow.wallets, &reclamation.withdrawals).ok_or(Refusal::Ledger)?;
    *escrow = Escrow { account: ctx.escrow_lock_account, wallets };
    Ok(reclamation.total_withdrawn)
}

fn held_in_all(escrow: &Escrow) -> u128 {
    escrow.wallets.iter().map(|w| *w as u128).sum()
}

fn consistent(escrow: &Escrow) -> bool {
    let a = &escrow.account;
    a.remaining_reward_value <= a.total_reward_value
        && a.reward_per_wallet as u128 * 5 == a.total_reward_value as u128
        && (a.is_active || a.remaining_reward_value == 0)
        && (!a.is_active || held_in_all(escrow) == a.remaining_reward_value as u128)
}

#[test]
fn lock_funds_each_wallet_with_a_fifth() {
    let escrow = open(500, 1000, 2_000, 1_000).unwrap();
    assert_eq!(escrow.wallets, [100, 100, 100, 100, 100]);
    assert_eq!(escrow.account.remaining_reward_value, 500);
    assert!(consistent(&escrow));
    assert_eq!(open(501, 1000, 2_000, 1_000), Err(Refusal::Operation(FluterByError::UnevenDistribution)));
}

#[test]
fn lock_redeem_and_reclaim() {
    let mut escrow = open(500, 1000, 2_000, 1_000).unwrap();

    assert_eq!(redeem(&mut escrow, 250, 250, 1_100), Ok(125));
    assert_eq!(escrow.wallets, [75, 75, 75, 75, 75]);
    assert_eq!(escrow.account.remaining_reward_value, 375);
    assert!(consistent(&escrow));

    // floor(3 * 375 / 1000) = 1
    assert_eq!(redeem(&mut escrow, 3, 3, 1_200), Ok(1));
    assert_eq!(escrow.wallets, [74, 75, 75, 75, 75]);
    assert_eq!(escrow.account.remaining_reward_value, 374);
    assert!(consistent(&escrow));

    let before = escrow;
    assert_eq!(
        reclaim(&mut escrow, key(3), 1_999),
        Err(Refusal::Operation(FluterByError::EscrowNotExpired))
    );
    assert_eq!(escrow, before);

    assert_eq!(reclaim(&mut escrow, key(3), 2_000), Ok(374));
    assert_eq!(escrow.wallets, [0, 0, 0, 0, 0]);
    assert!(!escrow.account.is_active);
    assert_eq!(escrow.account.remaining_reward_value, 0);
    assert!(consistent(&escrow));

    let closed = escrow;
    assert_eq!(
        redeem(&mut escrow, 10, 10, 1_500),
        Err(Refusal::Operation(FluterByError::EscrowNotFound))
    );
    assert_eq!(
        reclaim(&mut escrow, key(3), 2_001),
        Err(Refusal::Operation(FluterByError::EscrowNotFound))
    );
    assert_eq!(escrow, closed);
}

#[test]
fn redeem_and_reclaim_meet_at_expiry_without_overlap() {
    let opened = open(500, 1000, 2_000, 1_000).unwrap();
    for now in [1_000, 1_999, 2_000, 2_001] {
        let mut redeemed = opened;
        let mut reclaimed = opened;
        let redeem_open = redeem(&mut redeemed, 10, 10, now).is_ok();
        let reclaim_open = reclaim(&mut reclaimed, key(3), now).is_ok();
        assert_ne!(redeem_open, reclaim_open);
        assert_eq!(redeem_open, now < 2_000);
    }
    let mut at_expiry = opened;
    assert_eq!(
        redeem(&mut at_expiry, 10, 10, 2_000),
        Err(Refusal::Operation(FluterByError::EscrowExpired))
    );
    assert_eq!(reclaim(&mut at_expiry, key(3), 2_000), Ok(500));
}

#[test]
fn a_refused_request_changes_nothing() {
    let opened = open(500, 1000, 2_000, 1_000).unwrap();
    let requests: [(u64, u64, i64); 5] =
        [(10, 0, 1_500), (10, 11, 1_500), (10, 10, 2_000), (5000, 5000, 1_500), (10, 10, 9_000)];
    for (held, burn, now) in requests {
        let mut escrow = opened;
        assert!(redeem(&mut escrow, held, burn, now).is_err());
        assert_eq!(escrow, opened);
    }
    let mut escrow = opened;
    assert!(reclaim(&mut escrow, key(4), 2_000).is_err());
    assert!(reclaim(&mut escrow, key(3), 1_000).is_err());
    assert_eq!(escrow, opened);
}

#[test]
fn a_wallet_that_runs_dry_stops_the_redemption() {
    let mut escrow = open(10, 1000, 2_000, 1_000).unwrap();
    assert_eq!(escrow.wallets, [2, 2, 2, 2, 2]);
    // each of these earns one unit, taken from the first wallet
    assert_eq!(redeem(&mut escrow, 100, 100, 1_100), Ok(1));
    assert_eq!(redeem(&mut escrow, 120, 120, 1_100), Ok(1));
    assert_eq!(escrow.wallets, [0, 2, 2, 2, 2]);
    assert!(consistent(&escrow));
    let before = escrow;
    // floor(130 * 8 / 1000) = 1, and the first wallet has nothing left
    assert_eq!(redeem(&mut escrow, 130, 130, 1_100), Err(Refusal::Ledger));
    assert_eq!(escrow, before);
    assert_eq!(reclaim(&mut escrow, key(3), 2_000), Ok(8));
    assert_eq!(escrow.wallets, [0, 0, 0, 0, 0]);
}

#[test]
fn redemptions_conserve_the_reward() {
    let mut escrow = open(1_000_000, 777_777, 2_000, 1_000).unwrap();
    let total = escrow.account.total_reward_value;
    let mut paid: u64 = 0;
    let mut seed: u64 = 0x9E37_79B9_7F4A_7C15;
    for round in 0..200 {
        seed = seed.wrapping_mul(6364136223846793005).wrapping_add(1442695040888963407);
        let burn = (seed >> 33) % 40_000;
        let before = escrow;
        match redeem(&mut escrow, 30_000, burn, 1_000 + round) {
            Ok(reward) => paid += reward,
            Err(_) => assert_eq!(escrow, before),
        }
        assert_eq!(escrow.account.total_reward_value, total);
        assert_eq!(total - escrow.account.remaining_reward_value, paid);
        assert!(consistent(&escrow));
    }
    assert!(paid > 0);
    assert_eq!(reclaim(&mut escrow, key(3), 2_000), Ok(total - paid));
    assert!(consistent(&escrow));
}

#[test]
fn remaining_never_grows() {
    let mut escrow = open(5_000, 1_000, 2_000, 1_000).unwrap();
    let mut last = escrow.account.remaining_reward_value;
    for burn in [1, 999, 14, 0, 500, 1_000, 77, 1] {
        let _ = redeem(&mut escrow, 1_000, burn, 1_500);
        assert!(escrow.account.remaining_reward_value <= last);
        last = escrow.account.remaining_reward_value;
    }
}
