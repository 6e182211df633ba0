//! Vote-skip: who has voted against the now-playing entry, and how many
//! votes force a skip.
use std::collections::HashSet;
use vstd::prelude::*;

verus! {

broadcast use vstd::std_specs::hash::group_hash_axioms;

/// Half of `x`, rounded up.
pub open spec fn half_rounded_up(x: int) -> int {
    (x + 1) / 2
}

/// Votes needed with `members` users in the channel, the bot among them:
/// half of the others, rounded up, and never less than none.
pub open spec fn spec_quorum(members: int) -> int {
    let needed = half_rounded_up(members - 1);
    if needed < 0 {
        0
    } else {
        needed
    }
}

/// The quorum is the least count, not below zero, whose double reaches the
/// number of members other than the bot.
pub proof fn law_quorum_is_least_majority(members: int, q: int)
    ensures
        spec_quorum(members) >= 0,
        2 * spec_quorum(members) >= members - 1,
        0 <= q && 2 * q >= members - 1 ==> spec_quorum(members) <= q,
{
}

/// Votes needed to force a skip with `members_in_channel` users in the
/// voice channel, the bot counted among them.
pub fn quorum(members_in_channel: u64) -> (q: u64)
    ensures
        q == spec_quorum(members_in_channel as int),
{
    if members_in_channel <= 1 {
        0
    } else {
        members_in_channel / 2
    }
}

/// What one cast vote found.
#[derive(Clone, Copy, Debug, PartialEq, Eq, Structural)]
pub struct Tally {
    /// The voter had voted before; this vote added nothing.
    pub already_voted: bool,
    /// Distinct voters so far, this one included.
    pub votes: usize,
    /// Votes needed, from the membership at the time of this vote.
    pub quorum: u64,
}

impl Tally {
    /// Whether the votes reach the quorum.
    pub open spec fn spec_reached(self) -> bool {
        self.votes >= self.quorum
    }

    /// Whether the votes reach the quorum.
    pub fn reached(&self) -> (b: bool)
        ensures
            b == self.spec_reached(),
    {
        self.votes as u64 >= self.quorum
    }
}

/// The tally after `user` votes, given who had voted before.
pub open spec fn tally_after(voters: Set<u64>, user: u64, members: u64) -> Tally {
    Tally {
        already_voted: voters.contains(user),
        votes: voters.insert(user).len() as usize,
        quorum: spec_quorum(members as int) as u64,
    }
}

/// The users who have voted to skip the now-playing entry.
pub struct VoteSet {
    voters: HashSet<u64>,
}

impl View for VoteSet {
    type V = Set<u64>;

    closed spec fn view(&self) -> Set<u64> {
        self.voters@
    }
}

impl VoteSet {
    /// No votes.
    pub fn new() -> (v: VoteSet)
        ensures
            v@ == Set::<u64>::empty(),
    {
        VoteSet { voters: HashSet::new() }
    }

    /// Number of distinct voters.
    pub fn len(&self) -> (n: usize)
        ensures
            n == self@.len(),
    {
        self.voters.len()
    }

    /// Whether `user` has voted.
    pub fn contains(&self, user: u64) -> (b: bool)
        ensures
            b == self@.contains(user),
    {
        self.voters.contains(&user)
    }

    /// Forgets every vote.
    pub fn clear(&mut self)
        ensures
            final(self)@ == Set::<u64>::empty(),
    {
        self.voters.clear()
    }

    /// Records the vote of `user` and counts. A second vote of the same user
    /// adds nothing. The quorum is computed from `members_in_channel` as it
    /// is now, not from what it was at an earlier vote.
    pub fn cast(&mut self, user: u64, members_in_channel: u64) -> (t: Tally)
        ensures
            final(self)@ == old(self)@.insert(user),
            t == tally_after(old(self)@, user, members_in_channel),
    {
        let fresh = self.voters.insert(user);
        Tally { already_voted: !fresh, votes: self.voters.len(), quorum: quorum(members_in_channel) }
    }
}

} // verus!
