//! In-place random permutation of anything that can report its length and
//! exchange two of its items.
use rand::Rng;
use std::collections::VecDeque;
use vstd::prelude::*;

verus! {

/// `rand::rngs::ThreadRng`: a random number generator, handed through as it is.
#[verifier::external_type_specification]
#[verifier::external_body]
pub struct ExThreadRng(rand::rngs::ThreadRng);

/// `s` with the items at `i` and `j` exchanged.
pub open spec fn swapped<A>(s: Seq<A>, i: int, j: int) -> Seq<A> {
    s.update(i, s[j]).update(j, s[i])
}

/// Exchanging two items of a sequence leaves the same items, each as often as before.
proof fn lemma_swapped_same_items<A>(s: Seq<A>, i: int, j: int)
    requires
        0 <= i < s.len(),
        0 <= j < s.len(),
    ensures
        swapped(s, i, j).to_multiset() == s.to_multiset(),
        swapped(s, i, j).len() == s.len(),
{
    broadcast use vstd::seq_lib::to_multiset_update;

    let mid = s.update(i, s[j]);
    assert(mid.to_multiset() == s.to_multiset().insert(s[j]).remove(s[i]));
    assert(mid[j] == s[j]);
    assert(swapped(s, i, j).to_multiset() == mid.to_multiset().insert(s[i]).remove(s[j]));
    s.to_multiset_ensures();
    assert(s.to_multiset().count(s[i]) > 0);
    assert(s.to_multiset().count(s[j]) > 0);
    assert(swapped(s, i, j).to_multiset() =~= s.to_multiset());
}

/// The real requirement for a shuffle: a length, and an exchange of two items.
pub trait LenAndSwap {
    type Item;

    /// The items, in order.
    spec fn items(&self) -> Seq<Self::Item>;

    fn len(&self) -> (n: usize)
        ensures
            n == self.items().len(),
    ;

    fn swap(&mut self, i: usize, j: usize)
        requires
            i < old(self).items().len(),
            j < old(self).items().len(),
        ensures
            final(self).items() == swapped(old(self).items(), i as int, j as int),
    ;
}

/// `VecDeque::swap`: exchanges the elements at `i` and `j`, which may be
/// equal. It panics when an index is out of bounds, so both must be in bounds.
#[verifier::external_body]
fn deque_swap<T>(values: &mut VecDeque<T>, i: usize, j: usize)
    requires
        i < old(values)@.len(),
        j < old(values)@.len(),
    ensures
        final(values)@ == swapped(old(values)@, i as int, j as int),
{
    values.swap(i, j)
}

impl<T> LenAndSwap for VecDeque<T> {
    type Item = T;

    open spec fn items(&self) -> Seq<T> {
        self@
    }

    fn len(&self) -> (n: usize) {
        VecDeque::len(self)
    }

    fn swap(&mut self, i: usize, j: usize) {
        deque_swap(self, i, j)
    }
}

/// `rand::thread_rng`: the generator of the calling thread.
#[verifier::external_body]
pub(crate) fn thread_generator() -> rand::rngs::ThreadRng {
    rand::thread_rng()
}

/// `rand::Rng::gen_range` over `0..bound`: some value of that range. The
/// call panics on an empty range, so `bound` must be positive.
#[verifier::external_body]
fn random_below(rng: &mut rand::rngs::ThreadRng, bound: usize) -> (r: usize)
    requires
        bound > 0,
    ensures
        r < bound,
{
    rng.gen_range(0..bound)
}

/// Shuffles `values` in place: from the back, each slot is exchanged with a
/// randomly chosen slot at or before it. Whatever the generator yields, the
/// result is what those exchanges give, and holds the same items as before.
pub fn shuffle<T: LenAndSwap>(values: &mut T, rng: rand::rngs::ThreadRng)
    ensures
        exists|draws: Seq<usize>| #[trigger]
            valid_draws(draws, old(values).items().len()) && final(values).items() == shuffled(
                old(values).items(),
                draws,
            ),
        final(values).items().to_multiset() == old(values).items().to_multiset(),
        final(values).items().len() == old(values).items().len(),
{
    let mut rng = rng;
    let n = values.len();
    let mut draws: Vec<usize> = Vec::new();
    let mut i = n;
    while i >= 2
        invariant
            i <= n,
            n >= 2 ==> i >= 1,
            n >= 2 ==> draws@.len() == n - i,
            n < 2 ==> draws@.len() == 0,
            forall|k: int| 0 <= k < draws@.len() ==> (#[trigger] draws@[k]) <= n - 1 - k,
        decreases i,
    {
        // Slots with an index of at least i are settled by the draws so far.
        i -= 1;
        let j = random_below(&mut rng, i + 1);
        draws.push(j);
    }
    assert(valid_draws(draws@, n as nat));
    shuffle_by(values, draws.as_slice());
}

/// Whether `draws` can steer a shuffle of `len` items: there is one draw
/// for each slot from the last down to the second, and each names a slot at
/// or before the one it is for.
pub open spec fn valid_draws(draws: Seq<usize>, len: nat) -> bool {
    &&& draws.len() == (if len == 0 {
        0
    } else {
        len - 1
    })
    &&& forall|k: int| 0 <= k < draws.len() ==> (#[trigger] draws[k]) <= len - 1 - k
}

/// `s` after the first `k` exchanges of a shuffle steered by `draws`: the
/// exchange number `k`, counted from 1, is that of the slot `k` places from
/// the end with the slot that its draw names.
pub open spec fn shuffled_by<A>(s: Seq<A>, draws: Seq<usize>, k: int) -> Seq<A>
    decreases k,
{
    if k <= 0 {
        s
    } else {
        swapped(shuffled_by(s, draws, k - 1), s.len() - k, draws[k - 1] as int)
    }
}

/// `s` after a shuffle steered by `draws`.
pub open spec fn shuffled<A>(s: Seq<A>, draws: Seq<usize>) -> Seq<A> {
    shuffled_by(s, draws, draws.len() as int)
}

/// A shuffle rearranges: after any number of its exchanges the items are
/// the same, each as often as before.
pub proof fn law_shuffled_same_items<A>(s: Seq<A>, draws: Seq<usize>, k: int)
    requires
        valid_draws(draws, s.len()),
        0 <= k <= draws.len(),
    ensures
        shuffled_by(s, draws, k).to_multiset() == s.to_multiset(),
        shuffled_by(s, draws, k).len() == s.len(),
    decreases k,
{
    if k > 0 {
        law_shuffled_same_items(s, draws, k - 1);
        lemma_swapped_same_items(shuffled_by(s, draws, k - 1), s.len() - k, draws[k - 1] as int);
    }
}

/// Shuffles `values` in place as `draws` say: from the back, each slot is
/// exchanged with the slot that its draw names, the first draw being that
/// for the last slot.
pub fn shuffle_by<T: LenAndSwap>(values: &mut T, draws: &[usize])
    requires
        valid_draws(draws@, old(values).items().len()),
    ensures
        final(values).items() == shuffled(old(values).items(), draws@),
        final(values).items().to_multiset() == old(values).items().to_multiset(),
        final(values).items().len() == old(values).items().len(),
{
    let n = values.len();
    let mut k: usize = 0;
    while k < draws.len()
        invariant
            k <= draws.len(),
            n == old(values).items().len(),
            valid_draws(draws@, n as nat),
            values.items() == shuffled_by(old(values).items(), draws@, k as int),
        decreases draws.len() - k,
    {
        proof {
            law_shuffled_same_items(old(values).items(), draws@, k as int);
        }
        let i = n - 1 - k;
        values.swap(i, draws[k]);
        k += 1;
    }
    proof {
        law_shuffled_same_items(old(values).items(), draws@, draws@.len() as int);
    }
}

} // verus!
