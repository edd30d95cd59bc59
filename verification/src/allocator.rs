//! How a quantity of reward is laid out over the escrow wallets of a lock.

use crate::error::FluterByError;
use vstd::prelude::*;

verus! {

/// Number of escrow wallets that hold the reward of one lock.
pub const SHARD_COUNT: usize = 5;

/// One movement of reward between an escrow wallet and another account.
#[derive(Clone, Copy, Debug, PartialEq, Eq, Structural)]
pub struct ShardTransfer {
    /// Index of the escrow wallet, from zero.
    pub shard: usize,
    pub amount: u64,
}

/// Sum of the entries of `amounts`.
pub open spec fn total(amounts: Seq<u64>) -> int
    decreases amounts.len(),
{
    if amounts.len() == 0 {
        0
    } else {
        total(amounts.drop_last()) + amounts.last()
    }
}

/// What shard `i` gets when `amount` is split over `shard_count` shards: the
/// quotient, and one unit more for each of the first `amount % shard_count`
/// shards.
pub open spec fn share(amount: int, shard_count: int, i: int) -> int {
    amount / shard_count + if i < amount % shard_count {
        1int
    } else {
        0int
    }
}

/// The shares of all shards, in index order.
pub open spec fn split_with_remainder_spec(amount: u64, shard_count: usize) -> Seq<u64> {
    Seq::new(shard_count as nat, |i: int| share(amount as int, shard_count as int, i) as u64)
}

/// The same amount for each of `shard_count` shards.
pub open spec fn uniform(amount: u64, shard_count: usize) -> Seq<u64> {
    Seq::new(shard_count as nat, |i: int| amount)
}

/// One transfer for each shard whose amount is not zero, in index order.
pub open spec fn transfers_of(amounts: Seq<u64>) -> Seq<ShardTransfer>
    decreases amounts.len(),
{
    if amounts.len() == 0 {
        Seq::empty()
    } else if amounts.last() > 0 {
        transfers_of(amounts.drop_last()).push(
            ShardTransfer { shard: (amounts.len() - 1) as usize, amount: amounts.last() },
        )
    } else {
        transfers_of(amounts.drop_last())
    }
}

/// Every share is a `u64`: none is larger than the amount that is split.
pub proof fn lemma_share_bounds(amount: u64, shard_count: usize, i: int)
    requires
        shard_count > 0,
        0 <= i < shard_count,
    ensures
        0 <= share(amount as int, shard_count as int, i) <= amount,
        amount as int / shard_count as int <= share(amount as int, shard_count as int, i)
            <= amount as int / shard_count as int + 1,
{
    let a = amount as int;
    let n = shard_count as int;
    assert(a == n * (a / n) + a % n && 0 <= a % n < n && 0 <= a / n && a / n <= n * (a / n))
        by (nonlinear_arith)
        requires
            a >= 0,
            n > 0,
    ;
}

/// The first `k` shares add up to `k` quotients and one unit for each of the
/// shards among them that take part of the remainder.
proof fn lemma_total_of_prefix(amount: u64, shard_count: usize, k: int)
    requires
        shard_count > 0,
        0 <= k <= shard_count,
    ensures
        total(split_with_remainder_spec(amount, shard_count).take(k)) == k * (amount as int
            / shard_count as int) + if k < amount as int % shard_count as int {
            k
        } else {
            amount as int % shard_count as int
        },
    decreases k,
{
    let shares = split_with_remainder_spec(amount, shard_count);
    let base = amount as int / shard_count as int;
    if k > 0 {
        lemma_total_of_prefix(amount, shard_count, k - 1);
        lemma_share_bounds(amount, shard_count, k - 1);
        assert(shares.take(k).drop_last() =~= shares.take(k - 1));
        assert(shares.take(k).last() == shares[k - 1]);
        assert(k * base == (k - 1) * base + base) by (nonlinear_arith);
        assert(0 <= amount as int % shard_count as int) by (nonlinear_arith)
            requires
                shard_count > 0,
        ;
    } else {
        assert(0 * base == 0);
        assert(0 <= amount as int % shard_count as int) by (nonlinear_arith)
            requires
                shard_count > 0,
        ;
    }
}

/// The shares add up to the amount that was split.
pub proof fn lemma_split_total(amount: u64, shard_count: usize)
    requires
        shard_count > 0,
    ensures
        total(split_with_remainder_spec(amount, shard_count)) == amount,
{
    let shares = split_with_remainder_spec(amount, shard_count);
    let a = amount as int;
    let n = shard_count as int;
    lemma_total_of_prefix(amount, shard_count, n);
    assert(shares.take(n) =~= shares);
    assert(a == n * (a / n) + a % n && 0 <= a % n < n) by (nonlinear_arith)
        requires
            a >= 0,
            n > 0,
    ;
}

/// Splits `total` into `shard_count` equal parts. Succeeds only when nothing
/// is left over, and then returns the part of each shard and the remainder,
/// which is zero.
pub fn split_even(total: u64, shard_count: usize) -> (res: Result<(u64, u64), FluterByError>)
    requires
        shard_count > 0,
    ensures
        res is Ok <==> total as int % shard_count as int == 0,
        res matches Ok((per_shard, remainder)) ==> per_shard == total as int / shard_count as int
            && per_shard * shard_count == total && remainder == 0,
        res matches Err(e) ==> e == FluterByError::UnevenDistribution,
{
    let count: u64 = shard_count as u64;
    let per_shard: u64 = total / count;
    let remainder: u64 = total % count;
    assert(per_shard * count + remainder == total) by (nonlinear_arith)
        requires
            count > 0,
            per_shard == total / count,
            remainder == total % count,
    ;
    if remainder != 0 {
        Err(FluterByError::UnevenDistribution)
    } else {
        Ok((per_shard, remainder))
    }
}

/// Splits `amount` over `shard_count` shards with nothing lost: every shard
/// gets the quotient, and the first `amount % shard_count` shards one unit
/// more. The shares add up to `amount` and differ by at most one unit.
pub fn split_with_remainder(amount: u64, shard_count: usize) -> (shares: Vec<u64>)
    requires
        shard_count > 0,
    ensures
        shares@ == split_with_remainder_spec(amount, shard_count),
        shares@.len() == shard_count,
        total(shares@) == amount,
        forall|i: int, j: int|
            0 <= i < shard_count && 0 <= j < shard_count ==> shares@[i] - shares@[j] <= 1,
{
    let count: u64 = shard_count as u64;
    let base: u64 = amount / count;
    let remainder: u64 = amount % count;
    let mut shares: Vec<u64> = Vec::new();
    let mut i: usize = 0;
    while i < shard_count
        invariant
            shard_count > 0,
            count == shard_count,
            base == amount as int / shard_count as int,
            remainder == amount as int % shard_count as int,
            i <= shard_count,
            shares@ == split_with_remainder_spec(amount, shard_count).take(i as int),
        decreases shard_count - i,
    {
        proof {
            lemma_share_bounds(amount, shard_count, i as int);
        }
        let part: u64 = if (i as u64) < remainder {
            base + 1
        } else {
            base
        };
        shares.push(part);
        i += 1;
        assert(shares@ =~= split_with_remainder_spec(amount, shard_count).take(i as int));
    }
    proof {
        let spec_shares = split_with_remainder_spec(amount, shard_count);
        assert(spec_shares.take(shard_count as int) =~= spec_shares);
        lemma_split_total(amount, shard_count);
        assert forall|i: int, j: int|
            0 <= i < shard_count && 0 <= j < shard_count implies shares@[i] - shares@[j] <= 1 by {
            lemma_share_bounds(amount, shard_count, i);
            lemma_share_bounds(amount, shard_count, j);
        }
    }
    shares
}

/// A longer run of amounts adds up to no less than a shorter one.
pub proof fn lemma_total_of_prefix_grows(amounts: Seq<u64>, i: int, j: int)
    requires
        0 <= i <= j <= amounts.len(),
    ensures
        0 <= total(amounts.take(i)) <= total(amounts.take(j)),
    decreases j,
{
    if j == 0 {
        assert(amounts.take(0).len() == 0);
    } else {
        assert(amounts.take(j).drop_last() =~= amounts.take(j - 1));
        if i < j {
            lemma_total_of_prefix_grows(amounts, i, j - 1);
        } else {
            lemma_total_of_prefix_grows(amounts, j - 1, j - 1);
        }
    }
}

/// Adds up `amounts`. `None` when the sum does not fit in 64 bits.
pub fn checked_total(amounts: &[u64]) -> (sum: Option<u64>)
    ensures
        sum is Some <==> total(amounts@) <= u64::MAX,
        sum matches Some(s) ==> s == total(amounts@),
{
    let mut acc: u64 = 0;
    let mut i: usize = 0;
    while i < amounts.len()
        invariant
            i <= amounts@.len(),
            acc == total(amounts@.take(i as int)),
        decreases amounts@.len() - i,
    {
        assert(amounts@.take(i + 1).drop_last() =~= amounts@.take(i as int));
        match acc.checked_add(amounts[i]) {
            Some(next) => {
                acc = next;
            },
            None => {
                proof {
                    lemma_total_of_prefix_grows(amounts@, i + 1, amounts@.len() as int);
                    assert(amounts@.take(amounts@.len() as int) =~= amounts@);
                }
                return None;
            },
        }
        i += 1;
    }
    assert(amounts@.take(i as int) =~= amounts@);
    Some(acc)
}

/// Lists the transfers that `amounts` asks for: one for each shard with an
/// amount above zero, in index order. A shard with nothing to move gets none.
pub fn plan_transfers(amounts: &[u64]) -> (transfers: Vec<ShardTransfer>)
    ensures
        transfers@ == transfers_of(amounts@),
{
    let mut transfers: Vec<ShardTransfer> = Vec::new();
    let mut i: usize = 0;
    while i < amounts.len()
        invariant
            i <= amounts@.len(),
            transfers@ == transfers_of(amounts@.take(i as int)),
        decreases amounts@.len() - i,
    {
        let amount: u64 = amounts[i];
        assert(amounts@.take(i + 1).drop_last() =~= amounts@.take(i as int));
        if amount > 0 {
            transfers.push(ShardTransfer { shard: i, amount });
        }
        i += 1;
    }
    assert(amounts@.take(i as int) =~= amounts@);
    transfers
}

} // verus!
