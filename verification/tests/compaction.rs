//! The shared index-compaction utility: sorting and deduplication of the
//! position batch, stable removal, and canonicity.

use ido_tier::compact::{remove_sorted_indices, sort_dedup};

#[test]
fn sort_dedup_orders_and_drops_duplicates() {
    let input: Vec<usize> = vec![3, 1, 1, 5];
    let out = sort_dedup(&input);
    assert_eq!(out, vec![1, 3, 5]);
}

#[test]
fn duplicate_unordered_input_compacts_like_its_sorted_form() {
    // removing {3,1,1,5} from a six-element sequence equals removing the
    // sorted, deduplicated {1,3,5}
    let mut via_raw: Vec<u32> = vec![10, 20, 30, 40, 50, 60];
    let batch = sort_dedup(&vec![3, 1, 1, 5]);
    let removed_raw = remove_sorted_indices(&mut via_raw, &batch);

    let mut via_clean: Vec<u32> = vec![10, 20, 30, 40, 50, 60];
    let removed_clean = remove_sorted_indices(&mut via_clean, &vec![1, 3, 5]);

    assert_eq!(via_raw, via_clean);
    assert_eq!(removed_raw, removed_clean);
    assert_eq!(via_raw, vec![10, 30, 50]);
}

#[test]
fn removal_shifts_positions_by_their_rank() {
    let mut v: Vec<u32> = vec![10, 20, 30, 40, 50, 60];
    let removed = remove_sorted_indices(&mut v, &vec![1, 3, 5]);
    assert_eq!(removed, vec![20, 40, 60]);
    assert_eq!(v, vec![10, 30, 50]);
}

#[test]
fn removal_of_first_and_last() {
    let mut v: Vec<u32> = vec![7, 8, 9];
    let removed = remove_sorted_indices(&mut v, &vec![0, 2]);
    assert_eq!(removed, vec![7, 9]);
    assert_eq!(v, vec![8]);
}

#[test]
fn empty_batch_removes_nothing() {
    let mut v: Vec<u32> = vec![1, 2, 3];
    let removed = remove_sorted_indices(&mut v, &vec![]);
    assert!(removed.is_empty());
    assert_eq!(v, vec![1, 2, 3]);
}
