use stride::votes::{quorum, Tally, VoteSet};

#[test]
fn quorum_of_five_is_two() {
    assert_eq!(quorum(5), 2);
}

#[test]
fn quorum_table() {
    assert_eq!(quorum(0), 0);
    assert_eq!(quorum(1), 0);
    assert_eq!(quorum(2), 1);
    assert_eq!(quorum(3), 1);
    assert_eq!(quorum(4), 2);
    assert_eq!(quorum(6), 3);
    assert_eq!(quorum(7), 3);
    assert_eq!(quorum(u64::MAX), u64::MAX / 2);
}

#[test]
fn quorum_is_least_majority_of_the_others() {
    for m in 0..200u64 {
        let q = quorum(m);
        assert!(2 * q + 1 >= m);
        if q > 0 {
            assert!(2 * (q - 1) + 1 < m);
        }
    }
}

#[test]
fn cast_counts_distinct_voters() {
    let mut v = VoteSet::new();
    assert_eq!(v.cast(10, 5), Tally { already_voted: false, votes: 1, quorum: 2 });
    assert_eq!(v.cast(10, 5), Tally { already_voted: true, votes: 1, quorum: 2 });
    let t = v.cast(11, 5);
    assert_eq!(t, Tally { already_voted: false, votes: 2, quorum: 2 });
    assert!(t.reached());
    assert_eq!(v.len(), 2);
    assert!(v.contains(10));
    assert!(!v.contains(12));
    v.clear();
    assert_eq!(v.len(), 0);
}

#[test]
fn quorum_follows_membership_at_each_vote() {
    let mut v = VoteSet::new();
    let t = v.cast(1, 9);
    assert_eq!(t.quorum, 4);
    assert!(!t.reached());
    let t = v.cast(2, 3);
    assert_eq!(t.quorum, 1);
    assert!(t.reached());
}
