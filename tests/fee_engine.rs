use metatools_vault::fee::{checked_fee, compute_fee, percentages_sum_to_whole, split};

#[test]
fn fee_on_one_million_at_seventy_bps() {
    assert_eq!(compute_fee(1_000_000, 70), 7000);
}

#[test]
fn fee_rounds_down() {
    assert_eq!(compute_fee(9_999, 1), 0);
    assert_eq!(compute_fee(10_001, 70), 70);
    assert_eq!(compute_fee(0, 70), 0);
}

#[test]
fn fee_on_largest_amount_does_not_overflow() {
    assert_eq!(compute_fee(u64::MAX, 10_000), u64::MAX);
    assert_eq!(compute_fee(u64::MAX, 70), ((u64::MAX as u128) * 70 / 10_000) as u64);
}

#[test]
fn checked_fee_refuses_results_beyond_u64() {
    assert_eq!(checked_fee(u64::MAX, 10_001), None);
    assert_eq!(checked_fee(1_000_000, 70), Some(7000));
}

#[test]
fn split_with_referrer() {
    assert_eq!(split(7000, 10, 45, true), (700, 3150, 3150));
}

#[test]
fn split_without_referrer_gives_referral_share_to_treasury() {
    assert_eq!(split(7000, 10, 45, false), (0, 3150, 3850));
}

#[test]
fn split_treasury_takes_rounding_remainder() {
    assert_eq!(split(7, 10, 45, true), (0, 3, 4));
    assert_eq!(split(99, 33, 33, true), (32, 32, 35));
    let (a, b, c) = split(u64::MAX, 50, 50, true);
    assert_eq!(a as u128 + b as u128 + c as u128, u64::MAX as u128);
}

#[test]
fn percentages_must_sum_to_whole() {
    assert!(percentages_sum_to_whole(10, 45, 45));
    assert!(!percentages_sum_to_whole(10, 45, 44));
    assert!(!percentages_sum_to_whole(100, 100, 56));
    assert!(percentages_sum_to_whole(0, 0, 100));
}
