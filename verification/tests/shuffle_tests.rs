use std::collections::VecDeque;
use stride::shuffle::{shuffle, shuffle_by, LenAndSwap};

#[test]
fn shuffle_keeps_the_items() {
    for _ in 0..50 {
        let mut values: VecDeque<u32> = (0..20).collect();
        shuffle(&mut values, rand::thread_rng());
        let mut sorted: Vec<u32> = values.iter().copied().collect();
        sorted.sort();
        assert_eq!(sorted, (0..20).collect::<Vec<u32>>());
    }
}

#[test]
fn shuffle_of_short_sequences_is_safe() {
    let mut none: VecDeque<u32> = VecDeque::new();
    shuffle(&mut none, rand::thread_rng());
    assert!(none.is_empty());
    let mut one: VecDeque<u32> = VecDeque::from(vec![5]);
    shuffle(&mut one, rand::thread_rng());
    assert_eq!(one, VecDeque::from(vec![5]));
}

#[test]
fn shuffle_changes_the_order_sometimes() {
    let start: VecDeque<u32> = (0..30).collect();
    let mut changed = false;
    for _ in 0..20 {
        let mut values = start.clone();
        shuffle(&mut values, rand::thread_rng());
        if values != start {
            changed = true;
        }
    }
    assert!(changed);
}

#[test]
fn deque_len_and_swap() {
    let mut values: VecDeque<u32> = VecDeque::from(vec![1, 2, 3]);
    assert_eq!(LenAndSwap::len(&values), 3);
    LenAndSwap::swap(&mut values, 0, 2);
    assert_eq!(values, VecDeque::from(vec![3, 2, 1]));
    LenAndSwap::swap(&mut values, 1, 1);
    assert_eq!(values, VecDeque::from(vec![3, 2, 1]));
}

#[test]
fn shuffle_by_follows_the_draws() {
    let mut values: VecDeque<u32> = VecDeque::from(vec![10, 11, 12, 13]);
    shuffle_by(&mut values, &[0, 1, 0]);
    assert_eq!(values, VecDeque::from(vec![12, 13, 11, 10]));
    let mut same: VecDeque<u32> = VecDeque::from(vec![10, 11, 12, 13]);
    shuffle_by(&mut same, &[3, 2, 1]);
    assert_eq!(same, VecDeque::from(vec![10, 11, 12, 13]));
    let mut two: VecDeque<u32> = VecDeque::from(vec![1, 2]);
    shuffle_by(&mut two, &[0]);
    assert_eq!(two, VecDeque::from(vec![2, 1]));
}

#[test]
fn shuffle_by_leaves_short_sequences() {
    let mut none: VecDeque<u32> = VecDeque::new();
    shuffle_by(&mut none, &[]);
    assert!(none.is_empty());
    let mut one: VecDeque<u32> = VecDeque::from(vec![5]);
    shuffle_by(&mut one, &[]);
    assert_eq!(one, VecDeque::from(vec![5]));
}
