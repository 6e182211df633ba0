//! Who asked for which queue entry. Used for display only.
use crate::queue::ids_distinct;
use crate::track::QueueEntry;
use std::collections::HashMap;
use vstd::prelude::*;

verus! {

broadcast use vstd::std_specs::hash::group_hash_axioms;

/// Whether an entry of `s` has the stable id `id`.
pub open spec fn has_id(s: Seq<QueueEntry>, id: u64) -> bool {
    exists|i: int| 0 <= i < s.len() && (#[trigger] s[i]).stable_id == id
}

/// The stable ids of the entries of `s`.
pub open spec fn ids_of(s: Seq<QueueEntry>) -> Set<u64> {
    Set::new(|id: u64| has_id(s, id))
}

/// `m` attributes exactly the entries of `s`, each to its requester.
pub open spec fn attributed(s: Seq<QueueEntry>, m: Map<u64, u64>) -> bool {
    &&& forall|i: int|
        0 <= i < s.len() ==> m.contains_key((#[trigger] s[i]).stable_id) && m[s[i].stable_id]
            == s[i].requester_id
    &&& forall|id: u64| #[trigger] m.contains_key(id) ==> has_id(s, id)
}

/// Attributing one more entry, whose stable id is new, keeps the map exact.
pub(crate) proof fn lemma_attribute_one(s: Seq<QueueEntry>, e: QueueEntry, m: Map<u64, u64>)
    requires
        attributed(s, m),
        !has_id(s, e.stable_id),
    ensures
        attributed(s.push(e), m.insert(e.stable_id, e.requester_id)),
{
    let s2 = s.push(e);
    let m2 = m.insert(e.stable_id, e.requester_id);
    assert forall|i: int| 0 <= i < s2.len() implies m2.contains_key((#[trigger] s2[i]).stable_id)
        && m2[s2[i].stable_id] == s2[i].requester_id by {
        if i < s.len() {
            assert(s2[i] == s[i]);
            assert(has_id(s, s[i].stable_id));
        }
    }
    assert forall|id: u64| #[trigger] m2.contains_key(id) implies has_id(s2, id) by {
        if id == e.stable_id {
            assert(s2[s.len() as int].stable_id == id);
        } else {
            let i = choose|i: int| 0 <= i < s.len() && (#[trigger] s[i]).stable_id == id;
            assert(s2[i].stable_id == id);
        }
    }
}

/// Where the entries `before`, with unique ids, are split into those kept and
/// those dropped, the map without the dropped ids attributes exactly the
/// kept entries.
pub(crate) proof fn lemma_attribution_of_kept(
    before: Seq<QueueEntry>,
    kept: Seq<QueueEntry>,
    dropped: Seq<QueueEntry>,
    m: Map<u64, u64>,
)
    requires
        ids_distinct(before),
        attributed(before, m),
        before.to_multiset() == kept.to_multiset().add(dropped.to_multiset()),
    ensures
        attributed(kept, m.remove_keys(ids_of(dropped))),
{
    broadcast use vstd::seq_lib::to_multiset_contains;

    before.to_multiset_ensures();
    kept.to_multiset_ensures();
    dropped.to_multiset_ensures();
    let m2 = m.remove_keys(ids_of(dropped));
    assert(before.no_duplicates()) by {
        assert forall|i: int, j: int|
            0 <= i < before.len() && 0 <= j < before.len() && i != j implies before[i]
            != before[j] by {
            if i < j {
                assert(before[i].stable_id != before[j].stable_id);
            } else {
                assert(before[j].stable_id != before[i].stable_id);
            }
        }
    }
    before.lemma_multiset_has_no_duplicates();
    assert forall|i: int| 0 <= i < kept.len() implies m2.contains_key(
        (#[trigger] kept[i]).stable_id,
    ) && m2[kept[i].stable_id] == kept[i].requester_id by {
        let e = kept[i];
        assert(kept.contains(e));
        assert(kept.to_multiset().count(e) > 0);
        assert(before.to_multiset().count(e) > 0);
        assert(before.contains(e));
        let k = choose|k: int| 0 <= k < before.len() && before[k] == e;
        assert(m.contains_key(before[k].stable_id));
        if has_id(dropped, e.stable_id) {
            let j = choose|j: int| 0 <= j < dropped.len() && (#[trigger] dropped[j]).stable_id
                == e.stable_id;
            let d = dropped[j];
            assert(dropped.contains(d));
            assert(dropped.to_multiset().count(d) > 0);
            assert(before.to_multiset().count(d) > 0);
            assert(before.contains(d));
            let q = choose|q: int| 0 <= q < before.len() && before[q] == d;
            if k < q {
                assert(before[k].stable_id != before[q].stable_id);
            } else if q < k {
                assert(before[q].stable_id != before[k].stable_id);
            }
            assert(d == e);
            assert(before.to_multiset().count(e) >= 2);
            assert(false);
        }
    }
    assert forall|id: u64| #[trigger] m2.contains_key(id) implies has_id(kept, id) by {
        assert(m.contains_key(id));
        let k = choose|k: int| 0 <= k < before.len() && (#[trigger] before[k]).stable_id == id;
        let e = before[k];
        assert(before.contains(e));
        assert(before.to_multiset().count(e) > 0);
        if kept.to_multiset().count(e) > 0 {
            assert(kept.contains(e));
            let i = choose|i: int| 0 <= i < kept.len() && kept[i] == e;
            assert(kept[i].stable_id == id);
        } else {
            assert(dropped.to_multiset().count(e) > 0);
            assert(dropped.contains(e));
            let j = choose|j: int| 0 <= j < dropped.len() && dropped[j] == e;
            assert(dropped[j].stable_id == id);
            assert(has_id(dropped, id));
            assert(false);
        }
    }
}

/// A map that attributes exactly the entries `before` attributes exactly
/// any rearrangement of them.
pub(crate) proof fn lemma_attribution_of_rearranged(
    before: Seq<QueueEntry>,
    after: Seq<QueueEntry>,
    m: Map<u64, u64>,
)
    requires
        attributed(before, m),
        before.to_multiset() == after.to_multiset(),
    ensures
        attributed(after, m),
{
    broadcast use vstd::seq_lib::to_multiset_contains;

    before.to_multiset_ensures();
    after.to_multiset_ensures();
    assert forall|i: int| 0 <= i < after.len() implies m.contains_key(
        (#[trigger] after[i]).stable_id,
    ) && m[after[i].stable_id] == after[i].requester_id by {
        let e = after[i];
        assert(after.contains(e));
        assert(before.to_multiset().count(e) > 0);
        assert(before.contains(e));
        let k = choose|k: int| 0 <= k < before.len() && before[k] == e;
        assert(m.contains_key(before[k].stable_id));
    }
    assert forall|id: u64| #[trigger] m.contains_key(id) implies has_id(after, id) by {
        let k = choose|k: int| 0 <= k < before.len() && (#[trigger] before[k]).stable_id == id;
        let e = before[k];
        assert(before.contains(e));
        assert(after.to_multiset().count(e) > 0);
        assert(after.contains(e));
        let i = choose|i: int| 0 <= i < after.len() && after[i] == e;
        assert(after[i].stable_id == id);
    }
}

/// The requesting user of each queue entry, by the entry's stable id.
pub struct AttributionMap {
    requesters: HashMap<u64, u64>,
}

impl View for AttributionMap {
    type V = Map<u64, u64>;

    closed spec fn view(&self) -> Map<u64, u64> {
        self.requesters@
    }
}

impl AttributionMap {
    /// No attributions.
    pub fn new() -> (m: AttributionMap)
        ensures
            m@ == Map::<u64, u64>::empty(),
    {
        AttributionMap { requesters: HashMap::new() }
    }

    /// Number of attributed entries.
    pub fn len(&self) -> (n: usize)
        ensures
            n == self@.len(),
    {
        self.requesters.len()
    }

    /// Notes that `user` asked for the entry `stable_id`.
    pub fn record(&mut self, stable_id: u64, user: u64)
        ensures
            final(self)@ == old(self)@.insert(stable_id, user),
    {
        self.requesters.insert(stable_id, user);
    }

    /// Forgets the entry `stable_id`.
    pub fn evict(&mut self, stable_id: u64)
        ensures
            final(self)@ == old(self)@.remove(stable_id),
    {
        self.requesters.remove(&stable_id);
    }

    /// The user who asked for the entry `stable_id`.
    pub fn requester_of(&self, stable_id: u64) -> (r: Option<u64>)
        ensures
            r == (if self@.contains_key(stable_id) {
                Some(self@[stable_id])
            } else {
                None
            }),
    {
        match self.requesters.get(&stable_id) {
            Some(user) => Some(*user),
            None => None,
        }
    }

    /// Forgets every entry of `entries`.
    pub fn evict_entries(&mut self, entries: &Vec<QueueEntry>)
        ensures
            final(self)@ == old(self)@.remove_keys(ids_of(entries@)),
    {
        let mut i: usize = 0;
        while i < entries.len()
            invariant
                i <= entries.len(),
                self@ == old(self)@.remove_keys(ids_of(entries@.take(i as int))),
            decreases entries.len() - i,
        {
            let ghost done = entries@.take(i as int);
            let ghost next = entries@.take(i + 1);
            self.evict(entries[i].stable_id);
            proof {
                assert forall|id: u64| has_id(next, id) <==> has_id(done, id) || id
                    == entries@[i as int].stable_id by {
                    if has_id(next, id) {
                        let k = choose|k: int| 0 <= k < next.len() && (#[trigger] next[k]).stable_id
                            == id;
                        if k < i {
                            assert(done[k].stable_id == id);
                        }
                    }
                    if has_id(done, id) {
                        let k = choose|k: int| 0 <= k < done.len() && (#[trigger] done[k]).stable_id
                            == id;
                        assert(next[k].stable_id == id);
                    }
                    if id == entries@[i as int].stable_id {
                        assert(next[i as int].stable_id == id);
                    }
                }
                assert(self@ =~= old(self)@.remove_keys(ids_of(next)));
            }
            i += 1;
        }
        assert(entries@.take(entries.len() as int) =~= entries@);
    }

    /// Forgets everything.
    pub fn clear(&mut self)
        ensures
            final(self)@ == Map::<u64, u64>::empty(),
    {
        self.requesters.clear()
    }
}

} // verus!
