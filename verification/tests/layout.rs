use lois_proba::layout::{interleave_pairs, pair_with_ranks, take_prefix};

#[test]
fn interleave_puts_pair_members_at_even_and_odd_slots() {
    let pairs: Vec<(u64, u64)> = vec![(1, 2), (3, 4), (5, 6)];
    let merged = interleave_pairs(&pairs);
    assert_eq!(merged, vec![1, 2, 3, 4, 5, 6]);
}

#[test]
fn interleave_works_on_float_samples() {
    let pairs: Vec<(f64, f64)> = vec![(-0.5, 1.25), (2.0, -3.75)];
    let merged = interleave_pairs(&pairs);
    assert_eq!(merged, vec![-0.5, 1.25, 2.0, -3.75]);
}

#[test]
fn interleave_of_nothing_is_empty() {
    let pairs: Vec<(u64, u64)> = Vec::new();
    assert!(interleave_pairs(&pairs).is_empty());
}

#[test]
fn ranks_are_consecutive_from_zero_and_ascending() {
    let values: Vec<f64> = vec![0.1, 0.2, 0.4, 0.8, 0.9];
    let coords = pair_with_ranks(&values);
    assert_eq!(coords.len(), 5);
    for (i, (rank, value)) in coords.iter().enumerate() {
        assert_eq!(*rank, i);
        assert_eq!(*value, values[i]);
    }
    for window in coords.windows(2) {
        assert!(window[0].0 < window[1].0);
    }
}

#[test]
fn rank_fractions_are_exactly_i_over_n() {
    let values: Vec<f64> = vec![0.25, 0.5, 0.75, 1.0];
    let n = values.len();
    let coords = pair_with_ranks(&values);
    let fractions: Vec<f64> = coords.iter().map(|(rank, _)| *rank as f64 / n as f64).collect();
    assert_eq!(fractions, vec![0.0, 0.25, 0.5, 0.75]);
}

#[test]
fn prefix_keeps_order_and_length() {
    let values: Vec<u64> = vec![9, 8, 7, 6, 5];
    assert_eq!(take_prefix(&values, 3), vec![9, 8, 7]);
    assert_eq!(take_prefix(&values, 0), Vec::<u64>::new());
    assert_eq!(take_prefix(&values, 5), values);
}
