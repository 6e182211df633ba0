//! The track queue of one guild.
//!
//! A queue is a sequence of entries in playback order. Its first entry, when
//! there is one, is the now-playing head; the entries behind it are addressed
//! by positions counted from 1, so that position 1 is "up next".
use crate::error::QueueError;
use crate::shuffle::{shuffle, thread_generator};
use crate::track::{QueueEntry, TrackMetadata};
use std::collections::VecDeque;
use vstd::prelude::*;

verus! {

/// Where `append` puts new entries.
#[derive(Clone, Copy, Debug, PartialEq, Eq, Structural)]
pub enum AppendMode {
    /// At the end of the queue.
    Tail,
    /// Directly behind the now-playing head.
    Head,
}

/// No two entries of `s` share a stable id.
pub open spec fn ids_distinct(s: Seq<QueueEntry>) -> bool {
    forall|i: int, j: int| 0 <= i < j < s.len() ==> s[i].stable_id != s[j].stable_id
}

/// Every stable id in `s` is smaller than `bound`.
pub open spec fn ids_below(s: Seq<QueueEntry>, bound: int) -> bool {
    forall|i: int| 0 <= i < s.len() ==> (#[trigger] s[i]).stable_id < bound
}

/// The entries made from `tracks` for one requester, numbered upwards from `first_id`.
pub open spec fn stamped(tracks: Seq<TrackMetadata>, requester_id: u64, first_id: int) -> Seq<
    QueueEntry,
> {
    Seq::new(
        tracks.len(),
        |i: int|
            QueueEntry {
                stable_id: (first_id + i) as u64,
                track_metadata: tracks[i],
                requester_id,
            },
    )
}

/// `before` with `fresh` put in as `mode` says. An empty queue has no head
/// to keep in front, so the first fresh entry becomes the head.
pub open spec fn spliced(before: Seq<QueueEntry>, fresh: Seq<QueueEntry>, mode: AppendMode) -> Seq<
    QueueEntry,
> {
    if before.len() == 0 {
        fresh
    } else {
        match mode {
            AppendMode::Tail => before + fresh,
            AppendMode::Head => before.take(1) + fresh + before.skip(1),
        }
    }
}

/// The position that the first appended entry gets; 0 is the head.
pub open spec fn start_position(before: Seq<QueueEntry>, mode: AppendMode) -> int {
    if before.len() == 0 {
        0
    } else {
        match mode {
            AppendMode::Tail => before.len() as int,
            AppendMode::Head => 1,
        }
    }
}

/// Number of positions behind the head.
pub open spec fn upcoming_len(s: Seq<QueueEntry>) -> int {
    if s.len() == 0 {
        0
    } else {
        s.len() - 1
    }
}

/// Whether `position` names an entry behind the head of `s`.
pub open spec fn valid_position(s: Seq<QueueEntry>, position: int) -> bool {
    1 <= position <= upcoming_len(s)
}

/// Why `n` entries cannot be skipped from the front of `s`, if they cannot:
/// nothing is playing, or `s` has no `n` entries to skip, or `n` is 0.
pub open spec fn skip_error(s: Seq<QueueEntry>, n: int) -> Option<QueueError> {
    if s.len() == 0 {
        Some(QueueError::EmptyQueue)
    } else if n < 1 || n > s.len() {
        Some(QueueError::IndexOutOfRange)
    } else {
        None
    }
}

/// `s` after the entry at `from` was taken out and put back at index `to` of
/// what was left.
pub open spec fn moved(s: Seq<QueueEntry>, from: int, to: int) -> Seq<QueueEntry> {
    s.remove(from).insert(to, s[from])
}

/// `s` after a clear: nothing, or only the head where it is spared.
pub open spec fn cleared(s: Seq<QueueEntry>, include_current: bool) -> Seq<QueueEntry> {
    if include_current || s.len() == 0 {
        Seq::empty()
    } else {
        s.take(1)
    }
}

/// `b` holds the same entries as `a`, each as often, behind the same head.
pub open spec fn tail_permuted(a: Seq<QueueEntry>, b: Seq<QueueEntry>) -> bool {
    &&& a.len() == b.len()
    &&& a.len() > 0 ==> b[0] == a[0]
    &&& a.skip(1).to_multiset() == b.skip(1).to_multiset()
}

/// Entries that are a rearrangement of entries with unique, bounded stable
/// ids have unique, bounded stable ids themselves.
pub(crate) proof fn lemma_rearranged_ids(a: Seq<QueueEntry>, b: Seq<QueueEntry>, bound: int)
    requires
        a.to_multiset() == b.to_multiset(),
        ids_distinct(a),
        ids_below(a, bound),
    ensures
        ids_distinct(b),
        ids_below(b, bound),
{
    broadcast use vstd::seq_lib::to_multiset_contains;

    a.to_multiset_ensures();
    b.to_multiset_ensures();
    assert forall|i: int| 0 <= i < b.len() implies (#[trigger] b[i]).stable_id < bound by {
        assert(b.contains(b[i]));
        assert(a.to_multiset().count(b[i]) > 0);
        assert(a.contains(b[i]));
        let k = choose|k: int| 0 <= k < a.len() && a[k] == b[i];
        assert(a[k].stable_id < bound);
    }
    assert(a.no_duplicates()) by {
        assert forall|i: int, j: int| 0 <= i < a.len() && 0 <= j < a.len() && i != j implies a[i]
            != a[j] by {
            if i < j {
                assert(a[i].stable_id != a[j].stable_id);
            } else {
                assert(a[j].stable_id != a[i].stable_id);
            }
        }
    }
    a.lemma_multiset_has_no_duplicates();
    b.lemma_multiset_has_no_duplicates_conv();
    assert forall|i: int, j: int| 0 <= i < j < b.len() implies b[i].stable_id
        != b[j].stable_id by {
        assert(b.contains(b[i]));
        assert(b.contains(b[j]));
        assert(a.to_multiset().count(b[i]) > 0);
        assert(a.to_multiset().count(b[j]) > 0);
        assert(a.contains(b[i]));
        assert(a.contains(b[j]));
        let p = choose|p: int| 0 <= p < a.len() && a[p] == b[i];
        let q = choose|q: int| 0 <= q < a.len() && a[q] == b[j];
        if b[i].stable_id == b[j].stable_id {
            if p < q {
                assert(a[p].stable_id != a[q].stable_id);
            } else if q < p {
                assert(a[q].stable_id != a[p].stable_id);
            }
            assert(p == q);
            assert(b[i] == b[j]);
            assert(false);
        }
    }
}

/// Moving one entry rearranges the queue: the entries stay the same.
pub(crate) proof fn lemma_moved_same_items(s: Seq<QueueEntry>, from: int, to: int)
    requires
        0 <= from < s.len(),
        0 <= to < s.len(),
    ensures
        moved(s, from, to).to_multiset() == s.to_multiset(),
        moved(s, from, to).len() == s.len(),
{
    broadcast use vstd::seq_lib::to_multiset_remove, vstd::seq_lib::to_multiset_insert;

    s.to_multiset_ensures();
    assert(s.to_multiset().count(s[from]) > 0);
    assert(s.remove(from).to_multiset() == s.to_multiset().remove(s[from]));
    assert(moved(s, from, to).to_multiset() == s.remove(from).to_multiset().insert(s[from]));
    assert(moved(s, from, to).to_multiset() =~= s.to_multiset());
}

/// Putting the same head before two rearrangements of the same entries
/// gives rearrangements of the same entries.
pub(crate) proof fn lemma_same_items_behind(head: QueueEntry, a: Seq<QueueEntry>, b: Seq<QueueEntry>)
    requires
        a.to_multiset() == b.to_multiset(),
    ensures
        (seq![head] + a).to_multiset() == (seq![head] + b).to_multiset(),
{
    broadcast use vstd::seq_lib::to_multiset_insert;

    assert(seq![head] + a =~= a.insert(0, head));
    assert(seq![head] + b =~= b.insert(0, head));
}

/// A moved entry ends at the position it was moved to; the head stays, and
/// the queue is as long as before.
pub proof fn law_move_lands_at_target(s: Seq<QueueEntry>, from: int, to: int)
    requires
        valid_position(s, from),
        valid_position(s, to),
    ensures
        moved(s, from, to)[to] == s[from],
        moved(s, from, to)[0] == s[0],
        moved(s, from, to).len() == s.len(),
{
}

/// Skipping to a position leaves as many entries fewer behind the head as
/// the position says, and makes the entry at that position the head.
pub proof fn law_skip_to_promotes(s: Seq<QueueEntry>, position: int)
    requires
        valid_position(s, position),
    ensures
        upcoming_len(s.skip(position)) == upcoming_len(s) - position,
        s.skip(position)[0] == s[position],
{
}

/// Clearing what is behind the head a second time changes nothing more: on a
/// queue with nothing behind the head, such a clear is a no-op.
pub proof fn law_clear_is_idempotent(s: Seq<QueueEntry>)
    ensures
        cleared(cleared(s, false), false) == cleared(s, false),
        upcoming_len(s) == 0 ==> cleared(s, false) == s,
{
    if s.len() > 0 {
        assert(s.take(1).take(1) =~= s.take(1));
        if s.len() == 1 {
            assert(s.take(1) =~= s);
        }
    } else {
        assert(s =~= Seq::empty());
    }
}

/// The queue of one guild: the now-playing head followed by what is up next.
pub struct Queue {
    entries: VecDeque<QueueEntry>,
    next_id: u64,
}

impl View for Queue {
    type V = Seq<QueueEntry>;

    /// All entries in playback order, the head first.
    closed spec fn view(&self) -> Seq<QueueEntry> {
        self.entries@
    }
}

impl Queue {
    /// The stable id that the next appended entry will get.
    pub closed spec fn next_id(&self) -> u64 {
        self.next_id
    }

    /// Stable ids are unique and were all handed out by this queue.
    pub open spec fn wf(&self) -> bool {
        &&& ids_distinct(self@)
        &&& ids_below(self@, self.next_id() as int)
    }

    /// Number of valid positions: the entries behind the head.
    pub open spec fn spec_len(&self) -> int {
        upcoming_len(self@)
    }

    /// The now-playing entry.
    pub open spec fn spec_now_playing(&self) -> Option<QueueEntry> {
        if self@.len() == 0 {
            None
        } else {
            Some(self@[0])
        }
    }

    /// An empty queue, with nothing playing.
    pub fn new() -> (q: Queue)
        ensures
            q@ == Seq::<QueueEntry>::empty(),
            q.next_id() == 0,
            q.wf(),
    {
        Queue { entries: VecDeque::new(), next_id: 0 }
    }

    /// An empty queue whose first entry will get the stable id `first_id`.
    pub fn starting_at(first_id: u64) -> (q: Queue)
        ensures
            q@ == Seq::<QueueEntry>::empty(),
            q.next_id() == first_id,
            q.wf(),
    {
        Queue { entries: VecDeque::new(), next_id: first_id }
    }

    /// Number of entries behind the head, which is the largest valid position.
    pub fn len(&self) -> (n: usize)
        ensures
            n == self.spec_len(),
            self@.len() <= usize::MAX,
    {
        let total = self.entries.len();
        if total == 0 {
            0
        } else {
            total - 1
        }
    }

    /// Whether nothing is playing, and so nothing is queued either.
    pub fn is_empty(&self) -> (b: bool)
        ensures
            b == (self@.len() == 0),
    {
        self.entries.len() == 0
    }

    /// The now-playing entry, if any.
    pub fn now_playing(&self) -> (r: Option<&QueueEntry>)
        ensures
            match r {
                Some(e) => Some(*e) == self.spec_now_playing(),
                None => self.spec_now_playing() is None,
            },
    {
        if self.entries.len() == 0 {
            None
        } else {
            Some(&self.entries[0])
        }
    }

    /// The entry at `position`, which the queue has; position 0 is the head.
    pub fn entry(&self, position: usize) -> (e: &QueueEntry)
        requires
            position < self@.len(),
        ensures
            *e == self@[position as int],
    {
        &self.entries[position]
    }

    /// The entry at `position`; position 0 is the head.
    pub fn get(&self, position: usize) -> (r: Option<&QueueEntry>)
        ensures
            match r {
                Some(e) => position < self@.len() && *e == self@[position as int],
                None => position >= self@.len(),
            },
    {
        if position < self.entries.len() {
            Some(&self.entries[position])
        } else {
            None
        }
    }

    /// The stable id that the next appended entry will get.
    pub fn next_stable_id(&self) -> (id: u64)
        ensures
            id == self.next_id(),
    {
        self.next_id
    }

    /// Copies of the entries from index `start` on; index 0 is the head.
    pub fn entries_from(&self, start: usize) -> (copies: Vec<QueueEntry>)
        ensures
            start <= self@.len() ==> copies@ == self@.skip(start as int),
            start > self@.len() ==> copies@.len() == 0,
    {
        let mut copies: Vec<QueueEntry> = Vec::new();
        let mut i: usize = start;
        while i < self.entries.len()
            invariant
                start <= i,
                start <= self.entries@.len() ==> i <= self.entries@.len(),
                i <= self.entries@.len() ==> copies@ == self.entries@.subrange(start as int, i as int),
                i > self.entries@.len() ==> copies@.len() == 0,
            decreases self.entries@.len() - i,
        {
            copies.push(self.entries[i].clone());
            i += 1;
        }
        copies
    }

    /// Adds `tracks`, in their order, for `requester_id`: behind the head
    /// (`Head`) or at the end (`Tail`). Each new entry gets a stable id that
    /// this queue has never used. Returns the position of the first new entry.
    pub fn append(&mut self, tracks: Vec<TrackMetadata>, requester_id: u64, mode: AppendMode) -> (r:
        Result<usize, QueueError>)
        requires
            old(self).wf(),
        ensures
            final(self).wf(),
            match r {
                Ok(position) => {
                    &&& old(self).next_id() + tracks@.len() <= u64::MAX
                    &&& final(self)@ == spliced(
                        old(self)@,
                        stamped(tracks@, requester_id, old(self).next_id() as int),
                        mode,
                    )
                    &&& final(self).next_id() == old(self).next_id() + tracks@.len()
                    &&& position == start_position(old(self)@, mode)
                },
                Err(e) => {
                    &&& e == QueueError::IdsExhausted
                    &&& old(self).next_id() + tracks@.len() > u64::MAX
                    &&& final(self)@ == old(self)@
                    &&& final(self).next_id() == old(self).next_id()
                },
            },
    {
        let count = tracks.len();
        if count as u64 > u64::MAX - self.next_id {
            return Err(QueueError::IdsExhausted);
        }
        let first_id = self.next_id;
        let ghost before = self.entries@;
        let ghost wanted = stamped(tracks@, requester_id, first_id as int);
        let mut fresh: VecDeque<QueueEntry> = VecDeque::new();
        let ghost all = tracks@;
        let mut next_id: u64 = first_id;
        for track in it: tracks
            invariant
                it.seq() == all,
                count == all.len(),
                first_id + count <= u64::MAX,
                next_id == first_id + it.index(),
                fresh@ == wanted.take(it.index() as int),
                wanted == stamped(all, requester_id, first_id as int),
        {
            fresh.push_back(QueueEntry { stable_id: next_id, track_metadata: track, requester_id });
            next_id = next_id + 1;
        }
        assert(fresh@ == wanted);
        let position = if self.entries.len() == 0 {
            0
        } else {
            match mode {
                AppendMode::Tail => self.entries.len(),
                AppendMode::Head => 1,
            }
        };
        match mode {
            AppendMode::Tail => {
                self.entries.append(&mut fresh);
            },
            AppendMode::Head => {
                if self.entries.len() == 0 {
                    self.entries.append(&mut fresh);
                } else {
                    let mut rest = self.entries.split_off(1);
                    self.entries.append(&mut fresh);
                    self.entries.append(&mut rest);
                }
            },
        }
        self.next_id = first_id + count as u64;
        assert(self.entries@ == spliced(before, wanted, mode));
        Ok(position)
    }

    /// Takes the entry at `position` out of the queue and returns it.
    pub fn remove_at(&mut self, position: usize) -> (r: Result<QueueEntry, QueueError>)
        requires
            old(self).wf(),
        ensures
            final(self).wf(),
            final(self).next_id() == old(self).next_id(),
            match r {
                Ok(entry) => {
                    &&& valid_position(old(self)@, position as int)
                    &&& entry == old(self)@[position as int]
                    &&& final(self)@ == old(self)@.remove(position as int)
                },
                Err(e) => {
                    &&& e == QueueError::IndexOutOfRange
                    &&& !valid_position(old(self)@, position as int)
                    &&& final(self)@ == old(self)@
                },
            },
    {
        if position < 1 || position > self.len() {
            return Err(QueueError::IndexOutOfRange);
        }
        match self.entries.remove(position) {
            Some(entry) => Ok(entry),
            None => Err(QueueError::IndexOutOfRange),
        }
    }

    /// Moves the entry at position `from` to position `to`: it is taken
    /// out, then put in at index `to` of what is left. Returns a copy of it.
    pub fn move_entry(&mut self, from: usize, to: usize) -> (r: Result<QueueEntry, QueueError>)
        requires
            old(self).wf(),
        ensures
            final(self).wf(),
            final(self).next_id() == old(self).next_id(),
            match r {
                Ok(entry) => {
                    &&& from != to
                    &&& valid_position(old(self)@, from as int)
                    &&& valid_position(old(self)@, to as int)
                    &&& entry == old(self)@[from as int]
                    &&& final(self)@ == moved(old(self)@, from as int, to as int)
                },
                Err(e) => {
                    &&& e == QueueError::InvalidMove
                    &&& (from == to || !valid_position(old(self)@, from as int) || !valid_position(
                        old(self)@,
                        to as int,
                    ))
                    &&& final(self)@ == old(self)@
                },
            },
    {
        let len = self.len();
        if from == to || from < 1 || from > len || to < 1 || to > len {
            return Err(QueueError::InvalidMove);
        }
        let ghost before = self.entries@;
        match self.entries.remove(from) {
            Some(entry) => {
                let copy = entry.clone();
                self.entries.insert(to, entry);
                proof {
                    lemma_moved_same_items(before, from as int, to as int);
                    lemma_rearranged_ids(before, self.entries@, self.next_id as int);
                }
                Ok(copy)
            },
            None => Err(QueueError::InvalidMove),
        }
    }

    /// Drops the now-playing entry and the `n - 1` entries behind it, so
    /// that the entry `n` places on becomes the head. Returns what was
    /// dropped, in order.
    pub fn skip(&mut self, n: usize) -> (r: Result<Vec<QueueEntry>, QueueError>)
        requires
            old(self).wf(),
        ensures
            final(self).wf(),
            final(self).next_id() == old(self).next_id(),
            match r {
                Ok(dropped) => {
                    &&& skip_error(old(self)@, n as int) is None
                    &&& dropped@ == old(self)@.take(n as int)
                    &&& final(self)@ == old(self)@.skip(n as int)
                },
                Err(e) => {
                    &&& final(self)@ == old(self)@
                    &&& skip_error(old(self)@, n as int) == Some(e)
                },
            },
    {
        if self.entries.len() == 0 {
            return Err(QueueError::EmptyQueue);
        }
        if n < 1 || n > self.entries.len() {
            return Err(QueueError::IndexOutOfRange);
        }
        Ok(self.drop_front(n))
    }

    /// Skips to the entry at `position`: it becomes the head, and everything
    /// before it is dropped and returned, in order.
    pub fn skip_to(&mut self, position: usize) -> (r: Result<Vec<QueueEntry>, QueueError>)
        requires
            old(self).wf(),
        ensures
            final(self).wf(),
            final(self).next_id() == old(self).next_id(),
            match r {
                Ok(dropped) => {
                    &&& valid_position(old(self)@, position as int)
                    &&& dropped@ == old(self)@.take(position as int)
                    &&& final(self)@ == old(self)@.skip(position as int)
                    &&& final(self).spec_len() == old(self).spec_len() - position
                    &&& final(self).spec_now_playing() == Some(old(self)@[position as int])
                },
                Err(e) => {
                    &&& e == QueueError::IndexOutOfRange
                    &&& !valid_position(old(self)@, position as int)
                    &&& final(self)@ == old(self)@
                },
            },
    {
        if position < 1 || position > self.len() {
            return Err(QueueError::IndexOutOfRange);
        }
        Ok(self.drop_front(position))
    }

    /// Drops every entry behind the head, and the head too where
    /// `include_current` is set. Returns what was dropped, in order.
    pub fn clear(&mut self, include_current: bool) -> (dropped: Vec<QueueEntry>)
        requires
            old(self).wf(),
        ensures
            final(self).wf(),
            final(self).next_id() == old(self).next_id(),
            final(self)@ == cleared(old(self)@, include_current),
            final(self)@ + dropped@ == old(self)@,
    {
        let ghost before = self.entries@;
        let keep: usize = if include_current || self.entries.len() == 0 {
            0
        } else {
            1
        };
        let mut rest = self.entries.split_off(keep);
        let mut dropped: Vec<QueueEntry> = Vec::new();
        let ghost tail = rest@;
        loop
            invariant
                dropped@ + rest@ == tail,
            ensures
                dropped@ == tail,
            decreases rest@.len(),
        {
            match rest.pop_front() {
                Some(entry) => {
                    dropped.push(entry);
                },
                None => {
                    break ;
                },
            }
        }
        assert(self.entries@ == before.take(keep as int));
        assert(self.entries@ + dropped@ == before);
        dropped
    }

    /// Randomly rearranges the entries behind the head. The head stays.
    pub fn shuffle_tail(&mut self) -> (r: Result<(), QueueError>)
        requires
            old(self).wf(),
        ensures
            final(self).wf(),
            final(self).next_id() == old(self).next_id(),
            match r {
                Ok(_) => {
                    &&& old(self).spec_len() >= 2
                    &&& tail_permuted(old(self)@, final(self)@)
                },
                Err(e) => {
                    &&& e == QueueError::CannotShuffle
                    &&& old(self).spec_len() < 2
                    &&& final(self)@ == old(self)@
                },
            },
    {
        if self.len() < 2 {
            return Err(QueueError::CannotShuffle);
        }
        let ghost before = self.entries@;
        match self.entries.pop_front() {
            Some(head) => {
                let ghost tail = self.entries@;
                shuffle(&mut self.entries, thread_generator());
                let ghost mixed = self.entries@;
                self.entries.push_front(head);
                proof {
                    assert(tail == before.skip(1));
                    assert(self.entries@.skip(1) == mixed);
                    assert(before == seq![head] + tail);
                    lemma_same_items_behind(head, tail, mixed);
                    lemma_rearranged_ids(before, self.entries@, self.next_id as int);
                }
                Ok(())
            },
            None => Err(QueueError::CannotShuffle),
        }
    }

    /// Takes the first `n` entries off the queue and returns them in order.
    fn drop_front(&mut self, n: usize) -> (dropped: Vec<QueueEntry>)
        requires
            old(self).wf(),
            n <= old(self)@.len(),
        ensures
            final(self).wf(),
            final(self).next_id() == old(self).next_id(),
            dropped@ == old(self)@.take(n as int),
            final(self)@ == old(self)@.skip(n as int),
    {
        let ghost before = self.entries@;
        let mut dropped: Vec<QueueEntry> = Vec::new();
        let mut i: usize = 0;
        while i < n
            invariant
                i <= n <= before.len(),
                dropped@ == before.take(i as int),
                self.entries@ == before.skip(i as int),
                self.next_id == old(self).next_id,
            decreases n - i,
        {
            match self.entries.pop_front() {
                Some(entry) => {
                    dropped.push(entry);
                },
                None => {},
            }
            i += 1;
        }
        dropped
    }
}

} // verus!
