use anvil_benchmarks::stats::{isqrt, summarize, StatsError};

const SEC: u64 = 1_000_000_000;

#[test]
fn known_values_give_exact_summary() {
    let s = summarize(&vec![SEC, 2 * SEC, 3 * SEC]).unwrap();
    assert_eq!(s.count, 3);
    assert_eq!(s.mean_nanos(), 2 * SEC as u128);
    assert_eq!(s.std_dev_nanos(), SEC);
    assert_eq!(s.min, SEC);
    assert_eq!(s.max, 3 * SEC);
}

#[test]
fn single_sample_is_insufficient() {
    assert_eq!(summarize(&vec![5 * SEC]), Err(StatsError::InsufficientSamples));
}

#[test]
fn empty_sample_set_fails_explicitly() {
    assert_eq!(summarize(&vec![]), Err(StatsError::Empty));
}

#[test]
fn spread_and_variance_are_exact() {
    // 2, 4, 4, 4, 5, 5, 7, 9: mean 5, sum of squared deviations 32
    let s = summarize(&vec![2, 4, 4, 4, 5, 5, 7, 9]).unwrap();
    assert_eq!(s.total, 40);
    assert_eq!(s.spread, 8 * 32);
    assert_eq!(s.mean_nanos(), 5);
    // 32 / 7 rounds down to 4
    assert_eq!(s.variance_nanos2(), 4);
    assert_eq!(s.std_dev_nanos(), 2);
    assert_eq!(s.min, 2);
    assert_eq!(s.max, 9);
}

#[test]
fn equal_samples_have_zero_deviation() {
    let s = summarize(&vec![7, 7, 7, 7]).unwrap();
    assert_eq!(s.spread, 0);
    assert_eq!(s.std_dev_nanos(), 0);
    assert_eq!(s.min, 7);
    assert_eq!(s.max, 7);
}

#[test]
fn unordered_samples_give_min_and_max() {
    let s = summarize(&vec![30, 10, 50, 20]).unwrap();
    assert_eq!(s.min, 10);
    assert_eq!(s.max, 50);
    assert_eq!(s.mean_nanos(), 27);
}

#[test]
fn huge_samples_overflow() {
    assert_eq!(summarize(&vec![u64::MAX, u64::MAX]), Err(StatsError::Overflow));
}

#[test]
fn largest_samples_that_fit() {
    let x: u64 = 1 << 63;
    // 2 * (2 * 2^126) = 2^128 overflows; one large and one small sample fit
    let s = summarize(&vec![x, 0]).unwrap();
    assert_eq!(s.total, x as u128);
    assert_eq!(s.spread, 2 * (x as u128) * (x as u128) - (x as u128) * (x as u128));
    assert_eq!(summarize(&vec![x, x]), Err(StatsError::Overflow));
}

#[test]
fn integer_square_roots() {
    assert_eq!(isqrt(0), 0);
    assert_eq!(isqrt(1), 1);
    assert_eq!(isqrt(15), 3);
    assert_eq!(isqrt(16), 4);
    assert_eq!(isqrt(u128::MAX), u64::MAX);
}
