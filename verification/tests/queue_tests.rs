use stride::error::{ErrorClass, QueueError};
use stride::queue::{AppendMode, Queue};
use stride::track::TrackMetadata;

fn track(name: &str) -> TrackMetadata {
    TrackMetadata {
        identifier: format!("id-{}", name),
        title: name.to_string(),
        author: "someone".to_string(),
        uri: None,
        length: 1000,
    }
}

fn queue_of(names: &[&str]) -> Queue {
    let mut q = Queue::new();
    let tracks: Vec<TrackMetadata> = names.iter().map(|n| track(n)).collect();
    q.append(tracks, 7, AppendMode::Tail).unwrap();
    q
}

fn titles(q: &Queue) -> Vec<String> {
    q.entries_from(0).iter().map(|e| e.track_metadata.title.clone()).collect()
}

#[test]
fn new_queue_is_empty() {
    let q = Queue::new();
    assert!(q.is_empty());
    assert_eq!(q.len(), 0);
    assert!(q.now_playing().is_none());
    assert_eq!(q.next_stable_id(), 0);
}

#[test]
fn append_tail_returns_start_position() {
    let mut q = Queue::new();
    assert_eq!(q.append(vec![track("A")], 1, AppendMode::Tail), Ok(0));
    assert_eq!(q.append(vec![track("B"), track("C")], 2, AppendMode::Tail), Ok(1));
    assert_eq!(q.append(vec![track("D")], 3, AppendMode::Tail), Ok(3));
    assert_eq!(titles(&q), vec!["A", "B", "C", "D"]);
    assert_eq!(q.len(), 3);
    assert_eq!(q.now_playing().unwrap().track_metadata.title, "A");
}

#[test]
fn append_head_goes_behind_now_playing_in_order() {
    let mut q = queue_of(&["A", "B", "C"]);
    assert_eq!(q.append(vec![track("X"), track("Y")], 9, AppendMode::Head), Ok(1));
    assert_eq!(titles(&q), vec!["A", "X", "Y", "B", "C"]);
}

#[test]
fn append_head_on_empty_queue_starts_at_zero() {
    let mut q = Queue::new();
    assert_eq!(q.append(vec![track("X"), track("Y")], 9, AppendMode::Head), Ok(0));
    assert_eq!(titles(&q), vec!["X", "Y"]);
}

#[test]
fn append_assigns_fresh_stable_ids_and_requester() {
    let mut q = queue_of(&["A", "B"]);
    q.skip(1).unwrap();
    q.append(vec![track("C")], 42, AppendMode::Tail).unwrap();
    let entries = q.entries_from(0);
    assert_eq!(entries[0].stable_id, 1);
    assert_eq!(entries[1].stable_id, 2);
    assert_eq!(entries[0].requester_id, 7);
    assert_eq!(entries[1].requester_id, 42);
    assert_eq!(q.next_stable_id(), 3);
}

#[test]
fn append_nothing_changes_nothing() {
    let mut q = queue_of(&["A", "B"]);
    assert_eq!(q.append(Vec::new(), 1, AppendMode::Tail), Ok(2));
    assert_eq!(titles(&q), vec!["A", "B"]);
    assert_eq!(q.next_stable_id(), 2);
}

#[test]
fn get_addresses_head_as_zero() {
    let q = queue_of(&["A", "B", "C"]);
    assert_eq!(q.get(0).unwrap().track_metadata.title, "A");
    assert_eq!(q.get(2).unwrap().track_metadata.title, "C");
    assert!(q.get(3).is_none());
}

#[test]
fn remove_at_returns_entry() {
    let mut q = queue_of(&["H", "A", "B", "C"]);
    let removed = q.remove_at(2).unwrap();
    assert_eq!(removed.track_metadata.title, "B");
    assert_eq!(titles(&q), vec!["H", "A", "C"]);
}

#[test]
fn remove_at_last_position_is_valid() {
    let mut q = queue_of(&["H", "A", "B"]);
    assert_eq!(q.remove_at(2).unwrap().track_metadata.title, "B");
    assert_eq!(titles(&q), vec!["H", "A"]);
}

#[test]
fn remove_at_rejects_bad_positions() {
    let mut q = queue_of(&["H", "A", "B"]);
    assert_eq!(q.remove_at(0).unwrap_err(), QueueError::IndexOutOfRange);
    assert_eq!(q.remove_at(3).unwrap_err(), QueueError::IndexOutOfRange);
    assert_eq!(titles(&q), vec!["H", "A", "B"]);
    let mut empty = Queue::new();
    assert_eq!(empty.remove_at(1).unwrap_err(), QueueError::IndexOutOfRange);
}

#[test]
fn move_two_to_four() {
    let mut q = queue_of(&["H", "A", "B", "C", "D"]);
    let moved = q.move_entry(2, 4).unwrap();
    assert_eq!(moved.track_metadata.title, "B");
    assert_eq!(titles(&q), vec!["H", "A", "C", "D", "B"]);
}

#[test]
fn move_backwards() {
    let mut q = queue_of(&["H", "A", "B", "C", "D"]);
    q.move_entry(4, 1).unwrap();
    assert_eq!(titles(&q), vec!["H", "D", "A", "B", "C"]);
}

#[test]
fn move_to_itself_is_rejected_for_every_position() {
    let mut q = queue_of(&["H", "A", "B", "C", "D"]);
    for i in 0..7 {
        assert_eq!(q.move_entry(i, i).unwrap_err(), QueueError::InvalidMove);
    }
    assert_eq!(titles(&q), vec!["H", "A", "B", "C", "D"]);
}

#[test]
fn move_rejects_positions_outside_the_queue() {
    let mut q = queue_of(&["H", "A", "B"]);
    assert_eq!(q.move_entry(0, 1).unwrap_err(), QueueError::InvalidMove);
    assert_eq!(q.move_entry(1, 0).unwrap_err(), QueueError::InvalidMove);
    assert_eq!(q.move_entry(1, 3).unwrap_err(), QueueError::InvalidMove);
    assert_eq!(q.move_entry(3, 1).unwrap_err(), QueueError::InvalidMove);
    assert_eq!(titles(&q), vec!["H", "A", "B"]);
}

#[test]
fn skip_drops_now_playing() {
    let mut q = queue_of(&["A", "B", "C"]);
    let dropped = q.skip(1).unwrap();
    assert_eq!(dropped.len(), 1);
    assert_eq!(dropped[0].track_metadata.title, "A");
    assert_eq!(titles(&q), vec!["B", "C"]);
}

#[test]
fn skip_several() {
    let mut q = queue_of(&["A", "B", "C", "D"]);
    let dropped = q.skip(3).unwrap();
    assert_eq!(dropped.len(), 3);
    assert_eq!(titles(&q), vec!["D"]);
    let dropped = q.skip(1).unwrap();
    assert_eq!(dropped[0].track_metadata.title, "D");
    assert!(q.is_empty());
}

#[test]
fn skip_on_empty_queue_fails() {
    let mut q = Queue::new();
    assert_eq!(q.skip(1).unwrap_err(), QueueError::EmptyQueue);
    assert_eq!(q.skip(0).unwrap_err(), QueueError::EmptyQueue);
}

#[test]
fn skip_rejects_counts_outside_the_queue() {
    let mut q = queue_of(&["A", "B"]);
    assert_eq!(q.skip(0).unwrap_err(), QueueError::IndexOutOfRange);
    assert_eq!(q.skip(3).unwrap_err(), QueueError::IndexOutOfRange);
    assert_eq!(titles(&q), vec!["A", "B"]);
}

#[test]
fn skip_to_every_valid_position() {
    for i in 1..=4usize {
        let mut q = queue_of(&["H", "A", "B", "C", "D"]);
        let len = q.len();
        let wanted = q.get(i).unwrap().stable_id;
        let dropped = q.skip_to(i).unwrap();
        assert_eq!(dropped.len(), i);
        assert_eq!(q.len(), len - i);
        assert_eq!(q.now_playing().unwrap().stable_id, wanted);
    }
}

#[test]
fn skip_to_one_behaves_as_skip() {
    let mut a = queue_of(&["H", "A", "B"]);
    let mut b = queue_of(&["H", "A", "B"]);
    a.skip_to(1).unwrap();
    b.skip(1).unwrap();
    assert_eq!(titles(&a), titles(&b));
}

#[test]
fn skip_to_rejects_bad_positions() {
    let mut q = queue_of(&["H", "A", "B"]);
    assert_eq!(q.skip_to(0).unwrap_err(), QueueError::IndexOutOfRange);
    assert_eq!(q.skip_to(3).unwrap_err(), QueueError::IndexOutOfRange);
    assert_eq!(titles(&q), vec!["H", "A", "B"]);
    let mut only_head = queue_of(&["H"]);
    assert_eq!(only_head.skip_to(1).unwrap_err(), QueueError::IndexOutOfRange);
}

#[test]
fn clear_keeps_now_playing_unless_asked() {
    let mut q = queue_of(&["H", "A", "B"]);
    let dropped = q.clear(false);
    assert_eq!(dropped.len(), 2);
    assert_eq!(titles(&q), vec!["H"]);
    let dropped = q.clear(true);
    assert_eq!(dropped.len(), 1);
    assert!(q.is_empty());
}

#[test]
fn clear_twice_is_a_no_op() {
    let mut q = queue_of(&["H", "A", "B"]);
    q.clear(false);
    let again = q.clear(false);
    assert!(again.is_empty());
    assert_eq!(titles(&q), vec!["H"]);
    let mut empty = Queue::new();
    assert!(empty.clear(false).is_empty());
    assert!(empty.clear(false).is_empty());
    assert!(empty.is_empty());
}

#[test]
fn shuffle_tail_needs_two_entries_behind_the_head() {
    let mut q = queue_of(&["A", "B"]);
    assert_eq!(q.shuffle_tail().unwrap_err(), QueueError::CannotShuffle);
    assert_eq!(titles(&q), vec!["A", "B"]);
    let mut only = queue_of(&["A"]);
    assert_eq!(only.shuffle_tail().unwrap_err(), QueueError::CannotShuffle);
    let mut empty = Queue::new();
    assert_eq!(empty.shuffle_tail().unwrap_err(), QueueError::CannotShuffle);
}

#[test]
fn shuffle_tail_keeps_head_and_permutes_the_rest() {
    for _ in 0..50 {
        let mut q = queue_of(&["A", "B", "C", "D"]);
        q.shuffle_tail().unwrap();
        let after = titles(&q);
        assert_eq!(after[0], "A");
        let mut tail: Vec<String> = after[1..].to_vec();
        tail.sort();
        assert_eq!(tail, vec!["B", "C", "D"]);
    }
}

#[test]
fn shuffle_tail_reaches_another_order() {
    let names: Vec<String> = (0..40).map(|i| format!("t{:02}", i)).collect();
    let refs: Vec<&str> = names.iter().map(|s| s.as_str()).collect();
    let mut changed = false;
    for _ in 0..20 {
        let mut q = queue_of(&refs);
        q.shuffle_tail().unwrap();
        if titles(&q) != names {
            changed = true;
        }
    }
    assert!(changed);
}

#[test]
fn queue_errors_have_a_class() {
    assert_eq!(QueueError::IndexOutOfRange.class(), ErrorClass::UserInput);
    assert_eq!(QueueError::InvalidMove.class(), ErrorClass::UserInput);
    assert_eq!(QueueError::EmptyQueue.class(), ErrorClass::UserInput);
    assert_eq!(QueueError::CannotShuffle.class(), ErrorClass::UserInput);
    assert_eq!(QueueError::IdsExhausted.class(), ErrorClass::Consistency);
}

#[test]
fn append_refuses_when_ids_run_out() {
    let mut q = Queue::starting_at(u64::MAX - 1);
    assert_eq!(q.next_stable_id(), u64::MAX - 1);
    assert_eq!(
        q.append(vec![track("A"), track("B")], 1, AppendMode::Tail).unwrap_err(),
        QueueError::IdsExhausted
    );
    assert!(q.is_empty());
    assert_eq!(q.next_stable_id(), u64::MAX - 1);
    assert_eq!(q.append(vec![track("A")], 1, AppendMode::Tail), Ok(0));
    assert_eq!(q.now_playing().unwrap().stable_id, u64::MAX - 1);
    assert_eq!(q.next_stable_id(), u64::MAX);
    assert_eq!(q.append(vec![track("B")], 1, AppendMode::Tail).unwrap_err(), QueueError::IdsExhausted);
    assert_eq!(q.append(Vec::new(), 1, AppendMode::Tail), Ok(1));
}
