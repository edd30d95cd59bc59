use fluter_by::allocator::{
    checked_total, plan_transfers, split_even, split_with_remainder, ShardTransfer, SHARD_COUNT,
};
use fluter_by::error::FluterByError;

fn spread(shares: &[u64]) -> u64 {
    let largest = shares.iter().copied().max().unwrap();
    let smallest = shares.iter().copied().min().unwrap();
    largest - smallest
}

fn sum(shares: &[u64]) -> u128 {
    shares.iter().map(|s| *s as u128).sum()
}

#[test]
fn shard_count_is_five() {
    assert_eq!(SHARD_COUNT, 5);
}

#[test]
fn split_even_of_a_multiple() {
    assert_eq!(split_even(500, 5), Ok((100, 0)));
    assert_eq!(split_even(5, 5), Ok((1, 0)));
    assert_eq!(split_even(0, 5), Ok((0, 0)));
    assert_eq!(split_even(12, 3), Ok((4, 0)));
}

#[test]
fn split_even_refuses_a_remainder() {
    assert_eq!(split_even(501, 5), Err(FluterByError::UnevenDistribution));
    assert_eq!(split_even(4, 5), Err(FluterByError::UnevenDistribution));
    assert_eq!(split_even(u64::MAX - 1, 5), Err(FluterByError::UnevenDistribution));
}

#[test]
fn split_even_of_the_largest_amount() {
    // 2^64 - 1 = 5 * 3689348814741910323
    assert_eq!(split_even(u64::MAX, 5), Ok((3689348814741910323, 0)));
}

#[test]
fn split_with_remainder_without_remainder() {
    assert_eq!(split_with_remainder(125, 5), vec![25, 25, 25, 25, 25]);
}

#[test]
fn split_with_remainder_gives_the_first_shards_the_extra_units() {
    assert_eq!(split_with_remainder(1, 5), vec![1, 0, 0, 0, 0]);
    assert_eq!(split_with_remainder(7, 5), vec![2, 2, 1, 1, 1]);
    assert_eq!(split_with_remainder(9, 5), vec![2, 2, 2, 2, 1]);
    assert_eq!(split_with_remainder(4, 5), vec![1, 1, 1, 1, 0]);
}

#[test]
fn split_with_remainder_of_zero() {
    assert_eq!(split_with_remainder(0, 5), vec![0, 0, 0, 0, 0]);
}

#[test]
fn split_with_remainder_over_other_counts() {
    assert_eq!(split_with_remainder(10, 1), vec![10]);
    assert_eq!(split_with_remainder(10, 3), vec![4, 3, 3]);
    assert_eq!(split_with_remainder(2, 4), vec![1, 1, 0, 0]);
}

#[test]
fn split_with_remainder_sums_to_the_amount_with_unit_spread() {
    let amounts: [u64; 12] = [
        0,
        1,
        2,
        3,
        4,
        5,
        6,
        99,
        1_000_003,
        u64::MAX - 2,
        u64::MAX - 1,
        u64::MAX,
    ];
    for amount in amounts {
        let shares = split_with_remainder(amount, 5);
        assert_eq!(shares.len(), 5);
        assert_eq!(sum(&shares), amount as u128);
        assert!(spread(&shares) <= 1);
        assert!(shares.windows(2).all(|pair| pair[0] >= pair[1]));
    }
}

#[test]
fn split_with_remainder_of_the_largest_amount() {
    // 2^64 - 2 = 5 * 3689348814741910322 + 4
    assert_eq!(
        split_with_remainder(u64::MAX - 1, 5),
        vec![
            3689348814741910323,
            3689348814741910323,
            3689348814741910323,
            3689348814741910323,
            3689348814741910322
        ]
    );
}

#[test]
fn plan_transfers_skips_empty_shards() {
    assert_eq!(
        plan_transfers(&[1, 0, 0, 0, 0]),
        vec![ShardTransfer { shard: 0, amount: 1 }]
    );
    assert_eq!(
        plan_transfers(&[0, 7, 0, 9, 0]),
        vec![
            ShardTransfer { shard: 1, amount: 7 },
            ShardTransfer { shard: 3, amount: 9 }
        ]
    );
    assert_eq!(plan_transfers(&[0, 0, 0, 0, 0]), vec![]);
    assert_eq!(plan_transfers(&[]), vec![]);
}

#[test]
fn plan_transfers_keeps_index_order() {
    assert_eq!(
        plan_transfers(&[25, 25, 25, 25, 25]),
        vec![
            ShardTransfer { shard: 0, amount: 25 },
            ShardTransfer { shard: 1, amount: 25 },
            ShardTransfer { shard: 2, amount: 25 },
            ShardTransfer { shard: 3, amount: 25 },
            ShardTransfer { shard: 4, amount: 25 }
        ]
    );
}

#[test]
fn checked_total_adds_up() {
    assert_eq!(checked_total(&[]), Some(0));
    assert_eq!(checked_total(&[100, 99, 98, 0, 3]), Some(300));
    assert_eq!(checked_total(&[u64::MAX, 0, 0, 0, 0]), Some(u64::MAX));
    assert_eq!(checked_total(&[u64::MAX - 4, 1, 1, 1, 1]), Some(u64::MAX));
}

#[test]
fn checked_total_refuses_what_does_not_fit() {
    assert_eq!(checked_total(&[u64::MAX, 1, 0, 0, 0]), None);
    assert_eq!(checked_total(&[u64::MAX - 4, 1, 1, 1, 2]), None);
    assert_eq!(checked_total(&[u64::MAX, u64::MAX, u64::MAX, u64::MAX, u64::MAX]), None);
}
