//! What the token ledger does with the transfers that the operations hand
//! out, and what follows for a lock together with its escrow wallets.
//!
//! The ledger moves an amount between two accounts or refuses: it takes no
//! more out of a wallet than the wallet holds, and fills none beyond what 64
//! bits can count. When it refuses one transfer of an operation, nothing of
//! that operation comes into effect.

use crate::allocator::{total, transfers_of, uniform, ShardTransfer};
use vstd::prelude::*;

verus! {

/// Which way a transfer moves reward, as seen from the escrow wallet.
pub enum Direction {
    /// Into the wallet.
    Deposit,
    /// Out of the wallet.
    Withdrawal,
}

/// A wallet that holds `balance` can take part in a transfer of `amount`.
pub open spec fn admits(balance: u64, amount: u64, direction: Direction) -> bool {
    match direction {
        Direction::Deposit => balance + amount <= u64::MAX,
        Direction::Withdrawal => amount <= balance,
    }
}

/// What a wallet that held `balance` holds after a transfer of `amount`.
pub open spec fn moved(balance: u64, amount: u64, direction: Direction) -> u64 {
    match direction {
        Direction::Deposit => (balance + amount) as u64,
        Direction::Withdrawal => (balance - amount) as u64,
    }
}

/// The wallet balances after `transfers` were carried out one after the
/// other.
pub open spec fn settled(
    balances: Seq<u64>,
    transfers: Seq<ShardTransfer>,
    direction: Direction,
) -> Seq<u64>
    decreases transfers.len(),
{
    if transfers.len() == 0 {
        balances
    } else {
        let before = settled(balances, transfers.drop_last(), direction);
        let last = transfers.last();
        before.update(
            last.shard as int,
            moved(before[last.shard as int], last.amount, direction),
        )
    }
}

/// The ledger carries out all of `transfers`: each names one of the wallets,
/// and that wallet admits it when its turn comes.
pub open spec fn honoured(
    balances: Seq<u64>,
    transfers: Seq<ShardTransfer>,
    direction: Direction,
) -> bool
    decreases transfers.len(),
{
    transfers.len() == 0 || {
        let before = settled(balances, transfers.drop_last(), direction);
        let last = transfers.last();
        &&& honoured(balances, transfers.drop_last(), direction)
        &&& last.shard < before.len()
        &&& admits(before[last.shard as int], last.amount, direction)
    }
}

/// Carrying out the transfers for the first `k` of `amounts` touches the
/// first `k` wallets only, each by its amount.
proof fn lemma_settled_prefix(
    balances: Seq<u64>,
    amounts: Seq<u64>,
    direction: Direction,
    k: int,
)
    requires
        balances.len() == amounts.len() <= usize::MAX,
        0 <= k <= amounts.len(),
    ensures
        honoured(balances, transfers_of(amounts.take(k)), direction) <==> forall|i: int|
            0 <= i < k ==> admits(balances[i], amounts[i], direction),
        honoured(balances, transfers_of(amounts.take(k)), direction) ==> settled(
            balances,
            transfers_of(amounts.take(k)),
            direction,
        ) == Seq::new(
            balances.len(),
            |i: int|
                if i < k {
                    moved(balances[i], amounts[i], direction)
                } else {
                    balances[i]
                },
        ),
    decreases k,
{
    let transfers = transfers_of(amounts.take(k));
    let expected = Seq::new(
        balances.len(),
        |i: int|
            if i < k {
                moved(balances[i], amounts[i], direction)
            } else {
                balances[i]
            },
    );
    if k == 0 {
        assert(amounts.take(0).len() == 0);
        assert(settled(balances, transfers, direction) =~= expected);
    } else {
        lemma_settled_prefix(balances, amounts, direction, k - 1);
        let shorter = transfers_of(amounts.take(k - 1));
        let before = Seq::new(
            balances.len(),
            |i: int|
                if i < k - 1 {
                    moved(balances[i], amounts[i], direction)
                } else {
                    balances[i]
                },
        );
        assert(amounts.take(k).drop_last() =~= amounts.take(k - 1));
        assert(amounts.take(k).last() == amounts[k - 1]);
        if amounts[k - 1] > 0 {
            let last = ShardTransfer { shard: (k - 1) as usize, amount: amounts[k - 1] };
            assert(transfers == shorter.push(last));
            assert(transfers.drop_last() =~= shorter);
            assert(transfers.last() == last);
            if honoured(balances, shorter, direction) {
                assert(before[k - 1] == balances[k - 1]);
                if honoured(balances, transfers, direction) {
                    assert(settled(balances, transfers, direction) =~= expected);
                }
            }
        } else {
            assert(transfers == shorter);
            assert(admits(balances[k - 1], amounts[k - 1], direction));
            assert(moved(balances[k - 1], amounts[k - 1], direction) == balances[k - 1]);
            if honoured(balances, transfers, direction) {
                assert(before =~= expected);
            }
        }
    }
}

/// Where each entry of `sums` is the sum of the entries of `left` and
/// `right` at its place, the totals add up likewise.
proof fn lemma_total_of_sum(left: Seq<u64>, right: Seq<u64>, sums: Seq<u64>)
    requires
        left.len() == right.len() == sums.len(),
        forall|i: int| 0 <= i < sums.len() ==> sums[i] == left[i] + right[i],
    ensures
        total(sums) == total(left) + total(right),
    decreases sums.len(),
{
    if sums.len() > 0 {
        lemma_total_of_sum(left.drop_last(), right.drop_last(), sums.drop_last());
    }
}

/// Equal amounts for `shard_count` shards add up to `shard_count` times the
/// amount.
pub proof fn lemma_total_of_uniform(amount: u64, shard_count: usize)
    ensures
        total(uniform(amount, shard_count)) == shard_count * amount,
    decreases shard_count,
{
    if shard_count > 0 {
        lemma_total_of_uniform(amount, (shard_count - 1) as usize);
        assert(uniform(amount, shard_count).drop_last() =~= uniform(
            amount,
            (shard_count - 1) as usize,
        ));
        assert(shard_count * amount == (shard_count - 1) * amount + amount) by (nonlinear_arith);
    } else {
        assert(0 * amount == 0);
    }
}

/// Shards that are all asked for nothing get no transfer.
pub proof fn lemma_no_transfers_of_nothing(shard_count: usize)
    ensures
        transfers_of(uniform(0, shard_count)).len() == 0,
    decreases shard_count,
{
    if shard_count > 0 {
        lemma_no_transfers_of_nothing((shard_count - 1) as usize);
        assert(uniform(0, shard_count).drop_last() =~= uniform(0, (shard_count - 1) as usize));
    }
}

/// The transfers that `amounts` asks for go through exactly when every
/// wallet admits its amount. The wallets then hold in all what they held
/// before, less what was withdrawn or plus what was deposited.
pub proof fn lemma_settlement(balances: Seq<u64>, amounts: Seq<u64>, direction: Direction)
    requires
        balances.len() == amounts.len() <= usize::MAX,
    ensures
        honoured(balances, transfers_of(amounts), direction) <==> forall|i: int|
            0 <= i < amounts.len() ==> admits(balances[i], amounts[i], direction),
        honoured(balances, transfers_of(amounts), direction) ==> {
            let after = settled(balances, transfers_of(amounts), direction);
            &&& after.len() == balances.len()
            &&& forall|i: int|
                0 <= i < after.len() ==> after[i] == moved(balances[i], amounts[i], direction)
            &&& total(after) == match direction {
                Direction::Deposit => total(balances) + total(amounts),
                Direction::Withdrawal => total(balances) - total(amounts),
            }
        },
{
    lemma_settled_prefix(balances, amounts, direction, amounts.len() as int);
    assert(amounts.take(amounts.len() as int) =~= amounts);
    if honoured(balances, transfers_of(amounts), direction) {
        let after = settled(balances, transfers_of(amounts), direction);
        match direction {
            Direction::Deposit => {
                lemma_total_of_sum(balances, amounts, after);
            },
            Direction::Withdrawal => {
                lemma_total_of_sum(after, amounts, balances);
            },
        }
    }
}

} // verus!
