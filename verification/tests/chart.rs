use shapoist::chart::{chart_length, descending_order, note_count};

#[test]
fn chart_length_is_latest_time() {
    assert_eq!(chart_length(&vec![500_000, 10_000_000, 2_000], &vec![3_000_000], &vec![9_000_000]), 10_000_000);
    assert_eq!(chart_length(&vec![1], &vec![20_000_000], &vec![]), 20_000_000);
    assert_eq!(chart_length(&vec![1], &vec![2], &vec![30]), 30);
    assert_eq!(chart_length(&vec![], &vec![], &vec![]), 0);
}

#[test]
fn notes_are_kept_latest_first_stably() {
    assert_eq!(descending_order(&vec![10, 30, 20]), vec![1, 2, 0]);
    assert_eq!(descending_order(&vec![5, 7, 5, 7, 1]), vec![1, 3, 0, 2, 4]);
    assert_eq!(descending_order(&vec![]), Vec::<usize>::new());
    assert_eq!(descending_order(&vec![4, 4, 4]), vec![0, 1, 2]);
}

#[test]
fn order_matches_stable_sort() {
    let keys: Vec<u128> = vec![3, 9, 1, 9, 4, 4, 0, 12, 3];
    let mut expected: Vec<usize> = (0..keys.len()).collect();
    expected.sort_by(|a, b| keys[*b].cmp(&keys[*a]));
    assert_eq!(descending_order(&keys), expected);
}

#[test]
fn notes_are_counted_over_judge_fields() {
    assert_eq!(note_count(&vec![20, 3, 0, 7]), 30);
    assert_eq!(note_count(&vec![]), 0);
}
