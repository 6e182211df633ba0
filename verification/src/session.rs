//! The session of one guild: its queue, who asked for what, who voted to
//! skip, and the state of its voice connection.
//!
//! Every command acts on the local state and says what to ask of the remote
//! player so that the player keeps holding what the local queue holds.
use crate::attribution::{
    attributed, has_id, ids_of, lemma_attribute_one, lemma_attribution_of_kept,
    lemma_attribution_of_rearranged, AttributionMap,
};
use crate::error::{ErrorClass, QueueError};
use crate::queue::{
    cleared, ids_below, ids_distinct, moved, spliced, stamped, start_position, tail_permuted,
    upcoming_len, valid_position, AppendMode, Queue,
};
use crate::remote::{
    after_skip, keeps_mirror, mirror, QueueOp, QueueOpView, RemotePlayer, RemoteUpdate,
    RemoteUpdateView,
};
use crate::resync::{
    after_action, agrees, snapshot_agrees, RemoteAction, RemoteActionView, RemoteReply,
    RemoteReplyView, RemoteSnapshotView, Resync, ResyncStep,
};
use crate::responses::DefaultMessage;
use crate::track::{QueueEntry, TrackMetadata};
use crate::votes::{tally_after, Tally, VoteSet};
use vstd::prelude::*;

verus! {

/// The state of a session's voice connection.
#[derive(Clone, Copy, Debug, PartialEq, Eq, Structural)]
pub enum ConnectionState {
    Disconnected,
    Connecting,
    /// Connected to the voice channel with this id.
    Connected(u64),
    /// The voice gateway is moving the bot; the remote player is being rebuilt.
    Migrating,
    /// A connection attempt or a resync failed. Only a new connection
    /// attempt leaves this state.
    Failed,
}

/// Why a session refused a command. A refused command changes nothing.
#[derive(Clone, Copy, Debug, PartialEq, Eq, Structural)]
pub enum SessionError {
    /// The session is not connected to a voice channel.
    NotConnected,
    /// The session is connected, or busy connecting or migrating.
    AlreadyConnected,
    /// There was no track to play.
    NoTracks,
    /// The queue has no page of that number.
    InvalidPage,
    /// The queue refused.
    Queue(QueueError),
}

impl SessionError {
    pub open spec fn spec_class(self) -> ErrorClass {
        match self {
            SessionError::Queue(e) => e.spec_class(),
            _ => ErrorClass::UserInput,
        }
    }

    /// The family this error belongs to.
    pub fn class(self) -> (c: ErrorClass)
        ensures
            c == self.spec_class(),
    {
        match self {
            SessionError::Queue(e) => e.class(),
            _ => ErrorClass::UserInput,
        }
    }
}

/// A session as specifications see it.
#[verifier::ext_equal]
pub struct SessionView {
    pub guild_id: u64,
    pub connection_state: ConnectionState,
    /// The queue, head first.
    pub entries: Seq<QueueEntry>,
    /// The stable id that the next queued entry gets.
    pub next_id: u64,
    pub attribution: Map<u64, u64>,
    pub voters: Set<u64>,
    pub dj_role_ref: Option<u64>,
    /// Since when, in seconds, the session has had nobody to play for and nothing to play.
    pub idle_since: Option<u64>,
    pub resync: Option<Resync>,
}

impl SessionView {
    /// The entry that is playing: the head of the queue of a connected session.
    pub open spec fn now_playing(self) -> Option<QueueEntry> {
        if self.connection_state is Connected && self.entries.len() > 0 {
            Some(self.entries[0])
        } else {
            None
        }
    }

    /// The stable id of the head of the queue.
    pub open spec fn head_id(self) -> Option<u64> {
        if self.entries.len() > 0 {
            Some(self.entries[0].stable_id)
        } else {
            None
        }
    }

    /// What holds of every session between two commands.
    pub open spec fn wf(self) -> bool {
        &&& ids_distinct(self.entries)
        &&& ids_below(self.entries, self.next_id as int)
        &&& attributed(self.entries, self.attribution)
        &&& self.voters.finite()
        &&& self.entries.len() == 0 ==> self.voters.len() == 0
        &&& self.connection_state is Migrating <==> self.resync is Some
    }

    /// A session without connection, tracks or votes.
    pub open spec fn fresh(guild_id: u64, dj_role_ref: Option<u64>) -> SessionView {
        SessionView {
            guild_id,
            connection_state: ConnectionState::Disconnected,
            entries: Seq::empty(),
            next_id: 0,
            attribution: Map::empty(),
            voters: Set::empty(),
            dj_role_ref,
            idle_since: None,
            resync: None,
        }
    }
}

/// Votes are for one now-playing entry: where the head of the queue is
/// another entry after a command than before, or none, no vote is left.
pub open spec fn votes_follow_head(before: SessionView, after: SessionView) -> bool {
    after.head_id() != before.head_id() ==> after.voters.len() == 0
}

/// Only the queue, and with it attribution and votes, may differ between
/// `before` and `after`.
pub open spec fn same_connection(before: SessionView, after: SessionView) -> bool {
    &&& after.guild_id == before.guild_id
    &&& after.connection_state == before.connection_state
    &&& after.dj_role_ref == before.dj_role_ref
    &&& after.idle_since == before.idle_since
    &&& after.resync == before.resync
}

/// What `play` reports.
#[derive(Clone, Copy, Debug, PartialEq, Eq, Structural)]
pub struct Played {
    /// Position of the first new entry; 0 means that it started playing.
    pub position: usize,
    /// Number of entries added.
    pub count: usize,
}

/// Seconds a session may stay idle before it is reaped, unless configured otherwise.
pub const DEFAULT_GRACE_SECONDS: u64 = 600;

/// `v` with nothing queued, attributed or voted for, and disconnected.
pub open spec fn torn_down(v: SessionView) -> SessionView {
    SessionView {
        connection_state: ConnectionState::Disconnected,
        entries: Seq::empty(),
        attribution: Map::empty(),
        voters: Set::empty(),
        idle_since: None,
        resync: None,
        ..v
    }
}

/// `v` after a request to the remote node failed.
pub open spec fn remote_failed(v: SessionView) -> SessionView {
    if v.connection_state is Disconnected {
        v
    } else {
        SessionView { connection_state: ConnectionState::Failed, resync: None, ..v }
    }
}

/// `v` after a connection attempt ended.
pub open spec fn connect_finished(v: SessionView, channel_id: Option<u64>) -> SessionView {
    if v.connection_state is Connecting {
        SessionView {
            connection_state: match channel_id {
                Some(channel) => ConnectionState::Connected(channel),
                None => ConnectionState::Failed,
            },
            ..v
        }
    } else {
        v
    }
}

/// `v` after the voice gateway announced a move to another voice server.
pub open spec fn migrating(v: SessionView) -> SessionView {
    match v.connection_state {
        ConnectionState::Connected(channel_id) => SessionView {
            connection_state: ConnectionState::Migrating,
            resync: Some(Resync { step: ResyncStep::Snapshot, channel_id, position: 0 }),
            ..v
        },
        _ => v,
    }
}

/// `v` with the local queue given up: nothing queued, attributed or voted for.
pub open spec fn emptied(v: SessionView) -> SessionView {
    SessionView { entries: Seq::empty(), attribution: Map::empty(), voters: Set::empty(), ..v }
}

/// `v` waiting for the answer to the request `step` of its resync.
pub open spec fn awaiting(v: SessionView, run: Resync, step: ResyncStep) -> SessionView {
    SessionView { resync: Some(Resync { step, ..run }), ..v }
}

/// `v` connected again at the end of its resync.
pub open spec fn reconnected(v: SessionView, run: Resync) -> SessionView {
    SessionView {
        connection_state: ConnectionState::Connected(run.channel_id),
        resync: None,
        ..v
    }
}

/// How a resync goes on after an answer of the remote node.
pub enum ResyncProgress {
    /// No resync is in progress; the answer was ignored.
    Ignored,
    /// The next request to make.
    Continue(RemoteAction),
    /// The remote player did not hold what the local queue held. The local
    /// queue was emptied rather than guessed at; the next request to make.
    Reset(RemoteAction),
    /// The session is connected again.
    Finished,
    /// The resync failed. The queue is as it was.
    Failed,
}

impl ResyncProgress {
    /// The family of the failure that this step reports, if it reports one:
    /// a disagreement between the remote player and the local queue, or a
    /// request that failed.
    pub fn error_class(&self) -> (c: Option<ErrorClass>)
        ensures
            c == (match self@ {
                ResyncProgressView::Reset(_) => Some(ErrorClass::Consistency),
                ResyncProgressView::Failed => Some(ErrorClass::ExternalService),
                _ => None,
            }),
    {
        match self {
            ResyncProgress::Reset(_) => Some(ErrorClass::Consistency),
            ResyncProgress::Failed => Some(ErrorClass::ExternalService),
            _ => None,
        }
    }
}

/// A `ResyncProgress` as specifications see it.
pub enum ResyncProgressView {
    Ignored,
    Continue(RemoteActionView),
    Reset(RemoteActionView),
    Finished,
    Failed,
}

impl View for ResyncProgress {
    type V = ResyncProgressView;

    open spec fn view(&self) -> ResyncProgressView {
        match self {
            ResyncProgress::Ignored => ResyncProgressView::Ignored,
            ResyncProgress::Continue(action) => ResyncProgressView::Continue(action@),
            ResyncProgress::Reset(action) => ResyncProgressView::Reset(action@),
            ResyncProgress::Finished => ResyncProgressView::Finished,
            ResyncProgress::Failed => ResyncProgressView::Failed,
        }
    }
}

/// The session after an answer of the remote node.
pub open spec fn after_reply(v: SessionView, reply: RemoteReplyView) -> SessionView {
    match v.resync {
        None => v,
        Some(run) => match (run.step, reply) {
            (ResyncStep::Snapshot, RemoteReplyView::Snapshot(snapshot)) => {
                let kept = if snapshot_agrees(snapshot, v.entries) {
                    v
                } else {
                    emptied(v)
                };
                SessionView {
                    resync: Some(
                        Resync {
                            step: ResyncStep::Delete,
                            channel_id: run.channel_id,
                            position: snapshot.position,
                        },
                    ),
                    ..kept
                }
            },
            (ResyncStep::Delete, RemoteReplyView::Done) => awaiting(v, run, ResyncStep::Create),
            (ResyncStep::Create, RemoteReplyView::Done) => if v.entries.len() > 0 {
                awaiting(v, run, ResyncStep::Resume)
            } else {
                reconnected(v, run)
            },
            (ResyncStep::Resume, RemoteReplyView::Done) => awaiting(v, run, ResyncStep::Restore),
            (ResyncStep::Restore, RemoteReplyView::Done) => reconnected(v, run),
            _ => SessionView { connection_state: ConnectionState::Failed, resync: None, ..v },
        },
    }
}

/// What the session asks for, or reports, after an answer of the remote node.
pub open spec fn progress_of(v: SessionView, reply: RemoteReplyView) -> ResyncProgressView {
    match v.resync {
        None => ResyncProgressView::Ignored,
        Some(run) => match (run.step, reply) {
            (ResyncStep::Snapshot, RemoteReplyView::Snapshot(snapshot)) => if snapshot_agrees(
                snapshot,
                v.entries,
            ) {
                ResyncProgressView::Continue(RemoteActionView::DeletePlayer)
            } else {
                ResyncProgressView::Reset(RemoteActionView::DeletePlayer)
            },
            (ResyncStep::Delete, RemoteReplyView::Done) => ResyncProgressView::Continue(
                RemoteActionView::CreatePlayer,
            ),
            (ResyncStep::Create, RemoteReplyView::Done) => if v.entries.len() > 0 {
                ResyncProgressView::Continue(
                    RemoteActionView::Resume { entry: v.entries[0], position: run.position },
                )
            } else {
                ResyncProgressView::Finished
            },
            (ResyncStep::Resume, RemoteReplyView::Done) => ResyncProgressView::Continue(
                RemoteActionView::SetQueue(QueueOpView::Replace(behind_head(v.entries))),
            ),
            (ResyncStep::Restore, RemoteReplyView::Done) => ResyncProgressView::Finished,
            _ => ResyncProgressView::Failed,
        },
    }
}

/// Since when the session is idle, after a look at who is in its channel.
pub open spec fn idle_since_after(v: SessionView, non_bot_members: u64, now: u64) -> Option<u64> {
    if non_bot_members != 0 || v.entries.len() > 0 {
        None
    } else if v.idle_since is Some {
        v.idle_since
    } else {
        Some(now)
    }
}

/// Whether the session has been idle for `grace` seconds at `now`.
pub open spec fn reap_due(v: SessionView, non_bot_members: u64, now: u64, grace: u64) -> bool {
    match idle_since_after(v, non_bot_members, now) {
        Some(since) => now - since >= grace,
        None => false,
    }
}

/// What `play` asks of the remote player. A player that plays nothing is
/// given the new entries and told to go on to the first of them. A player
/// that plays is left to play: at the end the new entries are appended to
/// its queue, behind the head its queue is replaced by the new entries and,
/// after them, what it had queued.
pub open spec fn play_update(before: Seq<QueueEntry>, fresh: Seq<QueueEntry>, mode: AppendMode) -> RemoteUpdateView {
    if before.len() == 0 {
        RemoteUpdateView { queue: Some(QueueOpView::Append(fresh)), skip: true }
    } else {
        match mode {
            AppendMode::Tail => RemoteUpdateView {
                queue: Some(QueueOpView::Append(fresh)),
                skip: false,
            },
            AppendMode::Head => RemoteUpdateView {
                queue: Some(QueueOpView::Replace(fresh + before.skip(1))),
                skip: false,
            },
        }
    }
}

/// What `play_skip` asks of the remote player: to queue the whole new
/// queue `after` in place of what it had queued, and then to go on to the
/// first entry of it.
pub open spec fn play_skip_update(after: Seq<QueueEntry>) -> RemoteUpdateView {
    RemoteUpdateView { queue: Some(QueueOpView::Replace(after)), skip: true }
}

/// The update that makes the remote player queue what is behind the head of `entries`.
pub open spec fn replace_behind_head(entries: Seq<QueueEntry>) -> RemoteUpdateView {
    RemoteUpdateView { queue: Some(QueueOpView::Replace(behind_head(entries))), skip: false }
}

/// Why a command on the entry at `position` is refused, if it is; `invalid`
/// is the refusal for a position that names no entry.
pub open spec fn positional_error(v: SessionView, position: usize, invalid: QueueError) -> Option<
    SessionError,
> {
    if !(v.connection_state is Connected) {
        Some(SessionError::NotConnected)
    } else if v.entries.len() == 0 {
        Some(SessionError::Queue(QueueError::EmptyQueue))
    } else if !valid_position(v.entries, position as int) {
        Some(SessionError::Queue(invalid))
    } else {
        None
    }
}

/// Why a move is refused, if it is.
pub open spec fn reorder_error(v: SessionView, from: usize, to: usize) -> Option<SessionError> {
    if !(v.connection_state is Connected) {
        Some(SessionError::NotConnected)
    } else if v.entries.len() == 0 {
        Some(SessionError::Queue(QueueError::EmptyQueue))
    } else if from == to || !valid_position(v.entries, from as int) || !valid_position(
        v.entries,
        to as int,
    ) {
        Some(SessionError::Queue(QueueError::InvalidMove))
    } else {
        None
    }
}

/// Why a shuffle is refused, if it is.
pub open spec fn shuffle_error(v: SessionView) -> Option<SessionError> {
    if !(v.connection_state is Connected) {
        Some(SessionError::NotConnected)
    } else if v.entries.len() == 0 {
        Some(SessionError::Queue(QueueError::EmptyQueue))
    } else if upcoming_len(v.entries) < 2 {
        Some(SessionError::Queue(QueueError::CannotShuffle))
    } else {
        None
    }
}

/// A sequence is made of any one of its entries and the others.
proof fn lemma_removed_items(s: Seq<QueueEntry>, p: int)
    requires
        0 <= p < s.len(),
    ensures
        s.to_multiset() == s.remove(p).to_multiset().add(seq![s[p]].to_multiset()),
{
    broadcast use vstd::seq_lib::lemma_multiset_commutative;

    let one = seq![s[p]];
    assert(s =~= s.take(p) + one + s.skip(p + 1));
    assert(s.remove(p) =~= s.take(p) + s.skip(p + 1));
    assert(s.to_multiset() =~= s.remove(p).to_multiset().add(one.to_multiset()));
}

/// What is queued behind the head of `s`.
pub open spec fn behind_head(s: Seq<QueueEntry>) -> Seq<QueueEntry> {
    if s.len() == 0 {
        Seq::empty()
    } else {
        s.skip(1)
    }
}

/// What a vote led to.
#[derive(Clone, Copy, Debug, PartialEq, Eq, Structural)]
pub enum VoteOutcome {
    /// The votes reached the quorum and the now-playing entry was skipped.
    Skipped,
    /// The vote was counted; the quorum is not reached.
    Progress { votes: usize, quorum: u64 },
    /// The user had voted before; the quorum is not reached.
    AlreadyVoted { votes: usize, quorum: u64 },
}

/// The outcome that a tally calls for.
pub open spec fn vote_outcome(tally: Tally) -> VoteOutcome {
    if tally.spec_reached() {
        VoteOutcome::Skipped
    } else if tally.already_voted {
        VoteOutcome::AlreadyVoted { votes: tally.votes, quorum: tally.quorum }
    } else {
        VoteOutcome::Progress { votes: tally.votes, quorum: tally.quorum }
    }
}

/// How many entries a forced skip drops from the front.
pub open spec fn skip_count(position: Option<usize>) -> int {
    match position {
        Some(p) => p as int,
        None => 1,
    }
}

/// Why a forced skip is refused, if it is.
pub open spec fn force_skip_error(v: SessionView, position: Option<usize>) -> Option<SessionError> {
    if !(v.connection_state is Connected) {
        Some(SessionError::NotConnected)
    } else if v.entries.len() == 0 {
        Some(SessionError::Queue(QueueError::EmptyQueue))
    } else if position is Some && !valid_position(v.entries, position->0 as int) {
        Some(SessionError::Queue(QueueError::IndexOutOfRange))
    } else {
        None
    }
}

/// A sequence is made of its first `n` entries and the rest.
proof fn lemma_split_items(s: Seq<QueueEntry>, n: int)
    requires
        0 <= n <= s.len(),
    ensures
        s.to_multiset() == s.skip(n).to_multiset().add(s.take(n).to_multiset()),
{
    broadcast use vstd::seq_lib::lemma_multiset_commutative;

    assert(s =~= s.take(n) + s.skip(n));
    assert(s.to_multiset() =~= s.skip(n).to_multiset().add(s.take(n).to_multiset()));
}

/// Splicing entries into a queue yields the old and the new entries together.
proof fn lemma_spliced_same_items(before: Seq<QueueEntry>, fresh: Seq<QueueEntry>, mode: AppendMode)
    ensures
        spliced(before, fresh, mode).to_multiset() == (before + fresh).to_multiset(),
{
    broadcast use vstd::seq_lib::lemma_multiset_commutative;

    if before.len() == 0 {
        assert(before + fresh =~= fresh);
    } else {
        match mode {
            AppendMode::Tail => {},
            AppendMode::Head => {
                let head = before.take(1);
                let rest = before.skip(1);
                assert(before =~= head + rest);
                assert((head + fresh + rest).to_multiset() =~= (head + rest + fresh).to_multiset());
            },
        }
    }
}

/// The session of one guild.
pub struct Session {
    guild_id: u64,
    connection_state: ConnectionState,
    queue: Queue,
    attribution: AttributionMap,
    voters: VoteSet,
    dj_role_ref: Option<u64>,
    idle_since: Option<u64>,
    resync: Option<Resync>,
}

impl View for Session {
    type V = SessionView;

    closed spec fn view(&self) -> SessionView {
        SessionView {
            guild_id: self.guild_id,
            connection_state: self.connection_state,
            entries: self.queue@,
            next_id: self.queue.next_id(),
            attribution: self.attribution@,
            voters: self.voters@,
            dj_role_ref: self.dj_role_ref,
            idle_since: self.idle_since,
            resync: self.resync,
        }
    }
}

impl Session {
    /// What holds of every session between two commands.
    pub open spec fn wf(&self) -> bool {
        self@.wf()
    }

    /// A session for `guild_id`, not connected, with nothing queued.
    pub fn new(guild_id: u64, dj_role_ref: Option<u64>) -> (s: Session)
        ensures
            s@ == SessionView::fresh(guild_id, dj_role_ref),
            s.wf(),
    {
        Session {
            guild_id,
            connection_state: ConnectionState::Disconnected,
            queue: Queue::new(),
            attribution: AttributionMap::new(),
            voters: VoteSet::new(),
            dj_role_ref,
            idle_since: None,
            resync: None,
        }
    }

    /// Whether the session is connected to a voice channel.
    pub fn is_connected(&self) -> (b: bool)
        ensures
            b == (self@.connection_state is Connected),
    {
        match self.connection_state {
            ConnectionState::Connected(_) => true,
            _ => false,
        }
    }

    /// Queues `tracks` for `requester_id`, behind the head or at the end.
    /// Where nothing was playing, the first of them starts to play.
    pub fn play(&mut self, tracks: Vec<TrackMetadata>, requester_id: u64, mode: AppendMode) -> (r:
        Result<(Played, RemoteUpdate), SessionError>)
        requires
            old(self).wf(),
        ensures
            final(self).wf(),
            same_connection(old(self)@, final(self)@),
            votes_follow_head(old(self)@, final(self)@),
            final(self)@.voters == old(self)@.voters,
            match r {
                Ok((played, update)) => {
                    &&& old(self)@.connection_state is Connected
                    &&& tracks@.len() > 0
                    &&& old(self)@.next_id + tracks@.len() <= u64::MAX
                    &&& final(self)@.entries == spliced(
                        old(self)@.entries,
                        stamped(tracks@, requester_id, old(self)@.next_id as int),
                        mode,
                    )
                    &&& final(self)@.next_id == old(self)@.next_id + tracks@.len()
                    &&& played.position == start_position(old(self)@.entries, mode)
                    &&& played.count == tracks@.len()
                    &&& update@ == play_update(
                        old(self)@.entries,
                        stamped(tracks@, requester_id, old(self)@.next_id as int),
                        mode,
                    )
                    &&& keeps_mirror(old(self)@.entries, update@, final(self)@.entries)
                },
                Err(e) => {
                    &&& final(self)@ == old(self)@
                    &&& e == (if !(old(self)@.connection_state is Connected) {
                        SessionError::NotConnected
                    } else if tracks@.len() == 0 {
                        SessionError::NoTracks
                    } else {
                        SessionError::Queue(QueueError::IdsExhausted)
                    })
                    &&& e == SessionError::Queue(QueueError::IdsExhausted) ==> old(self)@.next_id
                        + tracks@.len() > u64::MAX
                },
            },
    {
        if !self.is_connected() {
            return Err(SessionError::NotConnected);
        }
        let count = tracks.len();
        if count == 0 {
            return Err(SessionError::NoTracks);
        }
        let ghost before = self.queue@;
        let ghost fresh = stamped(tracks@, requester_id, self.queue.next_id() as int);
        let was_idle = self.queue.is_empty();
        let first_id = self.queue.next_stable_id();
        match self.queue.append(tracks, requester_id, mode) {
            Err(e) => Err(SessionError::Queue(e)),
            Ok(position) => {
                let mut i: usize = 0;
                while i < count
                    invariant
                        i <= count,
                        count == fresh.len(),
                        first_id + count <= u64::MAX,
                        ids_below(before, first_id as int),
                        forall|k: int|
                            0 <= k < fresh.len() ==> (#[trigger] fresh[k]).stable_id == first_id
                                + k && fresh[k].requester_id == requester_id,
                        attributed(before + fresh.take(i as int), self.attribution@),
                        self.queue@ == spliced(before, fresh, mode),
                        self.queue.next_id() == first_id + count,
                        self.queue.wf(),
                        same_connection(old(self)@, self@),
                        self@.voters == old(self)@.voters,
                    decreases count - i,
                {
                    proof {
                        let sofar = before + fresh.take(i as int);
                        let e = fresh[i as int];
                        assert(!has_id(sofar, e.stable_id)) by {
                            if has_id(sofar, e.stable_id) {
                                let k = choose|k: int|
                                    0 <= k < sofar.len() && (#[trigger] sofar[k]).stable_id
                                        == e.stable_id;
                                if k < before.len() {
                                    assert(sofar[k] == before[k]);
                                } else {
                                    assert(sofar[k] == fresh[k - before.len()]);
                                }
                            }
                        }
                        lemma_attribute_one(sofar, e, self.attribution@);
                        assert(sofar.push(e) =~= before + fresh.take(i + 1));
                    }
                    self.attribution.record(first_id + i as u64, requester_id);
                    i += 1;
                }
                proof {
                    assert(fresh.take(count as int) =~= fresh);
                    lemma_spliced_same_items(before, fresh, mode);
                    lemma_attribution_of_rearranged(
                        before + fresh,
                        self.queue@,
                        self.attribution@,
                    );
                }
                let update = if was_idle {
                    let added = self.queue.entries_from(0);
                    assert(added@ =~= fresh);
                    RemoteUpdate { queue: Some(QueueOp::Append(added)), skip: true }
                } else {
                    match mode {
                        AppendMode::Tail => {
                            let added = self.queue.entries_from(position);
                            assert(added@ =~= fresh);
                            RemoteUpdate { queue: Some(QueueOp::Append(added)), skip: false }
                        },
                        AppendMode::Head => {
                            let queued = self.queue.entries_from(1);
                            assert(queued@ =~= fresh + before.skip(1));
                            RemoteUpdate { queue: Some(QueueOp::Replace(queued)), skip: false }
                        },
                    }
                };
                Ok((Played { position, count }, update))
            },
        }
    }

    /// Drops the first `n` entries of the queue, with their attribution, and every vote.
    fn advance(&mut self, n: usize) -> (dropped: Vec<QueueEntry>)
        requires
            old(self).wf(),
            1 <= n <= old(self)@.entries.len(),
        ensures
            final(self).wf(),
            same_connection(old(self)@, final(self)@),
            final(self)@.next_id == old(self)@.next_id,
            final(self)@.entries == old(self)@.entries.skip(n as int),
            dropped@ == old(self)@.entries.take(n as int),
            final(self)@.voters.len() == 0,
    {
        let ghost before = self.queue@;
        match self.queue.skip(n) {
            Ok(dropped) => {
                self.attribution.evict_entries(&dropped);
                self.voters.clear();
                proof {
                    lemma_split_items(before, n as int);
                    lemma_attribution_of_kept(
                        before,
                        self.queue@,
                        dropped@,
                        old(self).attribution@,
                    );
                }
                dropped
            },
            Err(_) => Vec::new(),
        }
    }

    /// Replaces the now-playing entry by `tracks`: the first of them starts
    /// to play, the others follow, and what was queued comes after them.
    pub fn play_skip(&mut self, tracks: Vec<TrackMetadata>, requester_id: u64) -> (r: Result<
        (Played, RemoteUpdate),
        SessionError,
    >)
        requires
            old(self).wf(),
        ensures
            final(self).wf(),
            same_connection(old(self)@, final(self)@),
            votes_follow_head(old(self)@, final(self)@),
            match r {
                Ok((played, update)) => {
                    &&& old(self)@.connection_state is Connected
                    &&& tracks@.len() > 0
                    &&& old(self)@.next_id + tracks@.len() <= u64::MAX
                    &&& final(self)@.entries == stamped(
                        tracks@,
                        requester_id,
                        old(self)@.next_id as int,
                    ) + behind_head(old(self)@.entries)
                    &&& final(self)@.next_id == old(self)@.next_id + tracks@.len()
                    &&& final(self)@.voters.len() == 0
                    &&& played.position == 0
                    &&& played.count == tracks@.len()
                    &&& update@ == play_skip_update(final(self)@.entries)
                    &&& keeps_mirror(old(self)@.entries, update@, final(self)@.entries)
                },
                Err(e) => {
                    &&& final(self)@ == old(self)@
                    &&& e == (if !(old(self)@.connection_state is Connected) {
                        SessionError::NotConnected
                    } else if tracks@.len() == 0 {
                        SessionError::NoTracks
                    } else {
                        SessionError::Queue(QueueError::IdsExhausted)
                    })
                    &&& e == SessionError::Queue(QueueError::IdsExhausted) ==> old(self)@.next_id
                        + tracks@.len() > u64::MAX
                },
            },
    {
        let was_playing = !self.queue.is_empty();
        let ghost before = self.queue@;
        let ghost fresh = stamped(tracks@, requester_id, self.queue.next_id() as int);
        match self.play(tracks, requester_id, AppendMode::Head) {
            Err(e) => Err(e),
            Ok((played, _)) => {
                if was_playing {
                    let _ = self.advance(1);
                    assert(self.queue@ =~= fresh + before.skip(1));
                } else {
                    assert(self.queue@ =~= fresh + Seq::<QueueEntry>::empty());
                }
                self.voters.clear();
                let queued = self.queue.entries_from(0);
                assert(queued@ =~= self.queue@);
                let update = RemoteUpdate { queue: Some(QueueOp::Replace(queued)), skip: true };
                Ok((Played { position: 0, count: played.count }, update))
            },
        }
    }

    /// Counts the vote of `user` to skip the now-playing entry. Where the
    /// votes reach the quorum for `members_in_channel`, the entry is skipped
    /// and the votes are forgotten.
    pub fn cast_vote(&mut self, user: u64, members_in_channel: u64) -> (r: Result<
        (VoteOutcome, RemoteUpdate),
        SessionError,
    >)
        requires
            old(self).wf(),
        ensures
            final(self).wf(),
            same_connection(old(self)@, final(self)@),
            votes_follow_head(old(self)@, final(self)@),
            final(self)@.next_id == old(self)@.next_id,
            match r {
                Ok((outcome, update)) => {
                    let tally = tally_after(old(self)@.voters, user, members_in_channel);
                    &&& old(self)@.connection_state is Connected
                    &&& old(self)@.entries.len() > 0
                    &&& outcome == vote_outcome(tally)
                    &&& update@.queue is None
                    &&& update@.skip == tally.spec_reached()
                    &&& tally.spec_reached() ==> final(self)@.entries == old(self)@.entries.skip(1)
                        && final(self)@.voters.len() == 0
                    &&& !tally.spec_reached() ==> final(self)@.entries == old(self)@.entries
                        && final(self)@.voters == old(self)@.voters.insert(user)
                    &&& keeps_mirror(old(self)@.entries, update@, final(self)@.entries)
                },
                Err(e) => {
                    &&& final(self)@ == old(self)@
                    &&& e == (if !(old(self)@.connection_state is Connected) {
                        SessionError::NotConnected
                    } else {
                        SessionError::Queue(QueueError::EmptyQueue)
                    })
                    &&& e == SessionError::Queue(QueueError::EmptyQueue) ==> old(
                        self,
                    )@.entries.len() == 0
                },
            },
    {
        if !self.is_connected() {
            return Err(SessionError::NotConnected);
        }
        if self.queue.is_empty() {
            return Err(SessionError::Queue(QueueError::EmptyQueue));
        }
        let tally = self.voters.cast(user, members_in_channel);
        if tally.reached() {
            let _ = self.advance(1);
            Ok((VoteOutcome::Skipped, RemoteUpdate { queue: None, skip: true }))
        } else if tally.already_voted {
            Ok(
                (
                    VoteOutcome::AlreadyVoted { votes: tally.votes, quorum: tally.quorum },
                    RemoteUpdate { queue: None, skip: false },
                ),
            )
        } else {
            Ok(
                (
                    VoteOutcome::Progress { votes: tally.votes, quorum: tally.quorum },
                    RemoteUpdate { queue: None, skip: false },
                ),
            )
        }
    }

    /// Skips without a vote: the now-playing entry where `position` is
    /// `None`, else everything before the entry at `position`.
    pub fn force_skip(&mut self, position: Option<usize>) -> (r: Result<
        (DefaultMessage, RemoteUpdate),
        SessionError,
    >)
        requires
            old(self).wf(),
        ensures
            final(self).wf(),
            same_connection(old(self)@, final(self)@),
            votes_follow_head(old(self)@, final(self)@),
            final(self)@.next_id == old(self)@.next_id,
            match r {
                Ok((message, update)) => {
                    let n = skip_count(position);
                    &&& force_skip_error(old(self)@, position) is None
                    &&& final(self)@.entries == old(self)@.entries.skip(n)
                    &&& final(self)@.voters.len() == 0
                    &&& message == (match position {
                        Some(p) => DefaultMessage::SkippedTo(p),
                        None => DefaultMessage::Skipped,
                    })
                    &&& update@.skip
                    &&& update@.queue == (match position {
                        Some(p) => Some(QueueOpView::Replace(old(self)@.entries.skip(p as int))),
                        None => None,
                    })
                    &&& keeps_mirror(old(self)@.entries, update@, final(self)@.entries)
                },
                Err(e) => {
                    &&& final(self)@ == old(self)@
                    &&& force_skip_error(old(self)@, position) == Some(e)
                },
            },
    {
        if !self.is_connected() {
            return Err(SessionError::NotConnected);
        }
        if self.queue.is_empty() {
            return Err(SessionError::Queue(QueueError::EmptyQueue));
        }
        match position {
            None => {
                let _ = self.advance(1);
                Ok((DefaultMessage::Skipped, RemoteUpdate { queue: None, skip: true }))
            },
            Some(p) => {
                if p < 1 || p > self.queue.len() {
                    return Err(SessionError::Queue(QueueError::IndexOutOfRange));
                }
                let rest = self.queue.entries_from(p);
                let _ = self.advance(p);
                assert(self.queue@.skip(1) =~= rest@.skip(1));
                Ok(
                    (
                        DefaultMessage::SkippedTo(p),
                        RemoteUpdate { queue: Some(QueueOp::Replace(rest)), skip: true },
                    ),
                )
            },
        }
    }

    /// Takes the entry at `position` out of the queue and returns it.
    pub fn remove(&mut self, position: usize) -> (r: Result<(QueueEntry, RemoteUpdate), SessionError>)
        requires
            old(self).wf(),
        ensures
            final(self).wf(),
            same_connection(old(self)@, final(self)@),
            votes_follow_head(old(self)@, final(self)@),
            final(self)@.next_id == old(self)@.next_id,
            final(self)@.voters == old(self)@.voters,
            match r {
                Ok((entry, update)) => {
                    &&& positional_error(old(self)@, position, QueueError::IndexOutOfRange) is None
                    &&& entry == old(self)@.entries[position as int]
                    &&& final(self)@.entries == old(self)@.entries.remove(position as int)
                    &&& update@ == replace_behind_head(final(self)@.entries)
                    &&& keeps_mirror(old(self)@.entries, update@, final(self)@.entries)
                },
                Err(e) => {
                    &&& final(self)@ == old(self)@
                    &&& positional_error(old(self)@, position, QueueError::IndexOutOfRange) == Some(
                        e,
                    )
                },
            },
    {
        if !self.is_connected() {
            return Err(SessionError::NotConnected);
        }
        if self.queue.is_empty() {
            return Err(SessionError::Queue(QueueError::EmptyQueue));
        }
        let ghost before = self.queue@;
        match self.queue.remove_at(position) {
            Err(e) => Err(SessionError::Queue(e)),
            Ok(entry) => {
                self.attribution.evict(entry.stable_id);
                proof {
                    lemma_removed_items(before, position as int);
                    lemma_attribution_of_kept(
                        before,
                        self.queue@,
                        seq![entry],
                        old(self).attribution@,
                    );
                    assert(ids_of(seq![entry]) =~= set![entry.stable_id]) by {
                        assert(seq![entry][0].stable_id == entry.stable_id);
                    }
                    assert(old(self).attribution@.remove_keys(set![entry.stable_id])
                        =~= old(self).attribution@.remove(entry.stable_id));
                }
                let update = RemoteUpdate {
                    queue: Some(QueueOp::Replace(self.queue.entries_from(1))),
                    skip: false,
                };
                Ok((entry, update))
            },
        }
    }

    /// Moves the entry at position `from` to position `to`, counted in the
    /// queue without that entry, and returns a copy of it.
    pub fn reorder(&mut self, from: usize, to: usize) -> (r: Result<
        (QueueEntry, RemoteUpdate),
        SessionError,
    >)
        requires
            old(self).wf(),
        ensures
            final(self).wf(),
            same_connection(old(self)@, final(self)@),
            votes_follow_head(old(self)@, final(self)@),
            final(self)@.next_id == old(self)@.next_id,
            final(self)@.voters == old(self)@.voters,
            match r {
                Ok((entry, update)) => {
                    &&& reorder_error(old(self)@, from, to) is None
                    &&& entry == old(self)@.entries[from as int]
                    &&& final(self)@.entries == moved(old(self)@.entries, from as int, to as int)
                    &&& update@ == replace_behind_head(final(self)@.entries)
                    &&& keeps_mirror(old(self)@.entries, update@, final(self)@.entries)
                },
                Err(e) => {
                    &&& final(self)@ == old(self)@
                    &&& reorder_error(old(self)@, from, to) == Some(e)
                },
            },
    {
        if !self.is_connected() {
            return Err(SessionError::NotConnected);
        }
        if self.queue.is_empty() {
            return Err(SessionError::Queue(QueueError::EmptyQueue));
        }
        let ghost before = self.queue@;
        match self.queue.move_entry(from, to) {
            Err(e) => Err(SessionError::Queue(e)),
            Ok(entry) => {
                proof {
                    crate::queue::lemma_moved_same_items(before, from as int, to as int);
                    lemma_attribution_of_rearranged(before, self.queue@, self.attribution@);
                }
                let update = RemoteUpdate {
                    queue: Some(QueueOp::Replace(self.queue.entries_from(1))),
                    skip: false,
                };
                Ok((entry, update))
            },
        }
    }

    /// Drops every queued entry; where `now_playing` is `Some(true)`, the
    /// now-playing entry is stopped and dropped too.
    pub fn clear(&mut self, now_playing: Option<bool>) -> (r: Result<RemoteUpdate, SessionError>)
        requires
            old(self).wf(),
        ensures
            final(self).wf(),
            same_connection(old(self)@, final(self)@),
            votes_follow_head(old(self)@, final(self)@),
            final(self)@.next_id == old(self)@.next_id,
            match r {
                Ok(update) => {
                    let include_current = now_playing == Some(true);
                    &&& old(self)@.connection_state is Connected
                    &&& final(self)@.entries == cleared(old(self)@.entries, include_current)
                    &&& final(self)@.voters == (if include_current {
                        Set::<u64>::empty()
                    } else {
                        old(self)@.voters
                    })
                    &&& update@ == (RemoteUpdateView {
                        queue: Some(QueueOpView::Clear),
                        skip: include_current,
                    })
                    &&& keeps_mirror(old(self)@.entries, update@, final(self)@.entries)
                },
                Err(e) => {
                    &&& final(self)@ == old(self)@
                    &&& e == SessionError::NotConnected
                    &&& !(old(self)@.connection_state is Connected)
                },
            },
    {
        if !self.is_connected() {
            return Err(SessionError::NotConnected);
        }
        let include_current = match now_playing {
            Some(b) => b,
            None => false,
        };
        self.empty_queue(include_current);
        Ok(RemoteUpdate { queue: Some(QueueOp::Clear), skip: include_current })
    }

    /// Randomly rearranges what is queued behind the now-playing entry.
    pub fn shuffle(&mut self) -> (r: Result<RemoteUpdate, SessionError>)
        requires
            old(self).wf(),
        ensures
            final(self).wf(),
            same_connection(old(self)@, final(self)@),
            votes_follow_head(old(self)@, final(self)@),
            final(self)@.next_id == old(self)@.next_id,
            final(self)@.voters == old(self)@.voters,
            match r {
                Ok(update) => {
                    &&& shuffle_error(old(self)@) is None
                    &&& tail_permuted(old(self)@.entries, final(self)@.entries)
                    &&& update@ == replace_behind_head(final(self)@.entries)
                    &&& keeps_mirror(old(self)@.entries, update@, final(self)@.entries)
                },
                Err(e) => {
                    &&& final(self)@ == old(self)@
                    &&& shuffle_error(old(self)@) == Some(e)
                },
            },
    {
        if !self.is_connected() {
            return Err(SessionError::NotConnected);
        }
        if self.queue.is_empty() {
            return Err(SessionError::Queue(QueueError::EmptyQueue));
        }
        let ghost before = self.queue@;
        match self.queue.shuffle_tail() {
            Err(e) => Err(SessionError::Queue(e)),
            Ok(_) => {
                proof {
                    let after = self.queue@;
                    assert(before =~= seq![before[0]] + before.skip(1));
                    assert(after =~= seq![before[0]] + after.skip(1));
                    crate::queue::lemma_same_items_behind(before[0], before.skip(1), after.skip(1));
                    lemma_attribution_of_rearranged(before, after, self.attribution@);
                }
                let update = RemoteUpdate {
                    queue: Some(QueueOp::Replace(self.queue.entries_from(1))),
                    skip: false,
                };
                Ok(update)
            },
        }
    }

    /// Drops what is queued, with its attribution; with `include_current`
    /// the head too, and then every vote.
    fn empty_queue(&mut self, include_current: bool)
        requires
            old(self).wf(),
        ensures
            final(self).wf(),
            same_connection(old(self)@, final(self)@),
            final(self)@.next_id == old(self)@.next_id,
            final(self)@.entries == cleared(old(self)@.entries, include_current),
            final(self)@.voters == (if include_current {
                Set::<u64>::empty()
            } else {
                old(self)@.voters
            }),
    {
        let ghost before = self.queue@;
        let dropped = self.queue.clear(include_current);
        self.attribution.evict_entries(&dropped);
        if include_current {
            self.voters.clear();
        }
        proof {
            broadcast use vstd::seq_lib::lemma_multiset_commutative;

            assert(before.to_multiset() =~= self.queue@.to_multiset().add(dropped@.to_multiset()));
            lemma_attribution_of_kept(before, self.queue@, dropped@, old(self).attribution@);
        }
    }

    /// Starts a connection attempt. A session that is disconnected, or whose
    /// last attempt or resync failed, is rebuilt from scratch: nothing stays
    /// queued.
    pub fn begin_connect(&mut self) -> (r: Result<(), SessionError>)
        requires
            old(self).wf(),
        ensures
            final(self).wf(),
            votes_follow_head(old(self)@, final(self)@),
            match r {
                Ok(_) => {
                    &&& old(self)@.connection_state is Disconnected
                        || old(self)@.connection_state is Failed
                    &&& final(self)@ =~= (SessionView {
                        connection_state: ConnectionState::Connecting,
                        ..torn_down(old(self)@)
                    })
                },
                Err(e) => {
                    &&& e == SessionError::AlreadyConnected
                    &&& !(old(self)@.connection_state is Disconnected
                        || old(self)@.connection_state is Failed)
                    &&& final(self)@ == old(self)@
                },
            },
    {
        match self.connection_state {
            ConnectionState::Disconnected | ConnectionState::Failed => {
                self.teardown();
                self.connection_state = ConnectionState::Connecting;
                Ok(())
            },
            _ => Err(SessionError::AlreadyConnected),
        }
    }

    /// Ends a connection attempt: with `Some(channel_id)` the session is
    /// connected to that channel, with `None` the attempt has failed. A
    /// session that is not connecting stays as it is.
    pub fn finish_connect(&mut self, channel_id: Option<u64>)
        requires
            old(self).wf(),
        ensures
            final(self).wf(),
            votes_follow_head(old(self)@, final(self)@),
            final(self)@ =~= connect_finished(old(self)@, channel_id),
    {
        match self.connection_state {
            ConnectionState::Connecting => {
                self.connection_state = match channel_id {
                    Some(channel) => ConnectionState::Connected(channel),
                    None => ConnectionState::Failed,
                };
            },
            _ => {},
        }
    }

    /// Ends the session's life in its voice channel: nothing stays queued,
    /// attributed or voted for, and the session is disconnected. This is
    /// the one path for an explicit leave, the bot's removal from its
    /// channel, and the reaping of an idle session.
    pub fn teardown(&mut self)
        requires
            old(self).wf(),
        ensures
            final(self).wf(),
            votes_follow_head(old(self)@, final(self)@),
            final(self)@ =~= torn_down(old(self)@),
    {
        self.empty_queue(true);
        self.connection_state = ConnectionState::Disconnected;
        self.idle_since = None;
        self.resync = None;
        proof {
            assert forall|id: u64| !(#[trigger] self.attribution@.contains_key(id)) by {
                if self.attribution@.contains_key(id) {
                    assert(has_id(self.queue@, id));
                }
            }
            assert(self.attribution@ =~= Map::<u64, u64>::empty());
        }
    }

    /// The voice gateway moves the bot to another voice server. A connected
    /// session starts to migrate and asks for the remote player's state;
    /// any other session stays as it is.
    pub fn on_voice_server_update(&mut self) -> (r: Option<RemoteAction>)
        requires
            old(self).wf(),
        ensures
            final(self).wf(),
            votes_follow_head(old(self)@, final(self)@),
            final(self)@ =~= migrating(old(self)@),
            match r {
                Some(action) => old(self)@.connection_state is Connected && action@
                    == RemoteActionView::GetState,
                None => !(old(self)@.connection_state is Connected),
            },
    {
        match self.connection_state {
            ConnectionState::Connected(channel_id) => {
                self.connection_state = ConnectionState::Migrating;
                self.resync = Some(Resync { step: ResyncStep::Snapshot, channel_id, position: 0 });
                Some(RemoteAction::GetState)
            },
            _ => None,
        }
    }

    /// Takes the remote node's answer to the last request of the resync in
    /// progress, and says how the resync goes on.
    pub fn on_remote_reply(&mut self, reply: RemoteReply) -> (progress: ResyncProgress)
        requires
            old(self).wf(),
        ensures
            final(self).wf(),
            votes_follow_head(old(self)@, final(self)@),
            final(self)@ =~= after_reply(old(self)@, reply@),
            progress@ == progress_of(old(self)@, reply@),
    {
        let run = match self.resync {
            Some(run) => run,
            None => {
                return ResyncProgress::Ignored;
            },
        };
        match (run.step, reply) {
            (ResyncStep::Snapshot, RemoteReply::Snapshot(snapshot)) => {
                let consistent = agrees(&snapshot, &self.queue);
                if !consistent {
                    self.empty_queue(true);
                    proof {
                        assert forall|id: u64| !(#[trigger] self.attribution@.contains_key(id)) by {
                            if self.attribution@.contains_key(id) {
                                assert(has_id(self.queue@, id));
                            }
                        }
                        assert(self.attribution@ =~= Map::<u64, u64>::empty());
                    }
                }
                self.resync = Some(
                    Resync {
                        step: ResyncStep::Delete,
                        channel_id: run.channel_id,
                        position: snapshot.position,
                    },
                );
                if consistent {
                    ResyncProgress::Continue(RemoteAction::DeletePlayer)
                } else {
                    ResyncProgress::Reset(RemoteAction::DeletePlayer)
                }
            },
            (ResyncStep::Delete, RemoteReply::Done) => {
                self.resync = Some(Resync { step: ResyncStep::Create, ..run });
                ResyncProgress::Continue(RemoteAction::CreatePlayer)
            },
            (ResyncStep::Create, RemoteReply::Done) => {
                match self.queue.now_playing() {
                    Some(head) => {
                        let entry = head.clone();
                        self.resync = Some(Resync { step: ResyncStep::Resume, ..run });
                        ResyncProgress::Continue(
                            RemoteAction::Resume { entry, position: run.position },
                        )
                    },
                    None => {
                        self.resync = None;
                        self.connection_state = ConnectionState::Connected(run.channel_id);
                        ResyncProgress::Finished
                    },
                }
            },
            (ResyncStep::Resume, RemoteReply::Done) => {
                self.resync = Some(Resync { step: ResyncStep::Restore, ..run });
                let rest = self.queue.entries_from(1);
                assert(rest@ =~= behind_head(self.queue@));
                ResyncProgress::Continue(RemoteAction::SetQueue(QueueOp::Replace(rest)))
            },
            (ResyncStep::Restore, RemoteReply::Done) => {
                self.resync = None;
                self.connection_state = ConnectionState::Connected(run.channel_id);
                ResyncProgress::Finished
            },
            _ => {
                self.resync = None;
                self.connection_state = ConnectionState::Failed;
                ResyncProgress::Failed
            },
        }
    }

    /// The now-playing entry has played to its end: the remote player goes
    /// on to what it has queued, and so does the session. Returns whether
    /// an entry was dropped.
    pub fn track_finished(&mut self) -> (advanced: bool)
        requires
            old(self).wf(),
        ensures
            final(self).wf(),
            same_connection(old(self)@, final(self)@),
            votes_follow_head(old(self)@, final(self)@),
            final(self)@.next_id == old(self)@.next_id,
            advanced == (old(self)@.now_playing() is Some),
            advanced ==> final(self)@.entries == old(self)@.entries.skip(1),
            advanced ==> final(self)@.voters.len() == 0,
            advanced ==> mirror(final(self)@.entries) == after_skip(mirror(old(self)@.entries)),
            !advanced ==> final(self)@ == old(self)@,
    {
        if self.is_connected() && !self.queue.is_empty() {
            let _ = self.advance(1);
            true
        } else {
            false
        }
    }

    /// A request to the remote node failed outside a resync. The session
    /// is marked as failed; its queue stays as it is. A session without a
    /// connection stays as it is.
    pub fn on_remote_failure(&mut self)
        requires
            old(self).wf(),
        ensures
            final(self).wf(),
            votes_follow_head(old(self)@, final(self)@),
            final(self)@ =~= remote_failed(old(self)@),
    {
        match self.connection_state {
            ConnectionState::Disconnected => {},
            _ => {
                self.connection_state = ConnectionState::Failed;
                self.resync = None;
            },
        }
    }

    /// Looks whether the session is idle, on a change of who is in its voice
    /// channel or when a check that it asked for is due. A session is idle
    /// while its channel holds no member but the bot and its queue is
    /// empty. Returns whether it has been idle for `grace` seconds and is to
    /// be reaped.
    pub fn watchdog(&mut self, non_bot_members: u64, now: u64, grace: u64) -> (reap: bool)
        requires
            old(self).wf(),
        ensures
            final(self).wf(),
            votes_follow_head(old(self)@, final(self)@),
            final(self)@ =~= (SessionView {
                idle_since: idle_since_after(old(self)@, non_bot_members, now),
                ..old(self)@
            }),
            reap == reap_due(old(self)@, non_bot_members, now, grace),
    {
        if non_bot_members != 0 || !self.queue.is_empty() {
            self.idle_since = None;
            return false;
        }
        match self.idle_since {
            Some(since) => now >= since && now - since >= grace,
            None => {
                self.idle_since = Some(now);
                grace == 0
            },
        }
    }

    /// The guild that this session belongs to.
    pub fn guild_id(&self) -> (id: u64)
        ensures
            id == self@.guild_id,
    {
        self.guild_id
    }

    /// The state of the voice connection.
    pub fn connection_state(&self) -> (state: ConnectionState)
        ensures
            state == self@.connection_state,
    {
        self.connection_state
    }

    /// The queue.
    pub fn queue(&self) -> (q: &Queue)
        ensures
            q@ == self@.entries,
            q.next_id() == self@.next_id,
            q.wf() == (ids_distinct(self@.entries) && ids_below(
                self@.entries,
                self@.next_id as int,
            )),
    {
        &self.queue
    }

    /// The entry that is playing, if the session is connected and has one.
    pub fn now_playing(&self) -> (r: Option<&QueueEntry>)
        ensures
            match r {
                Some(e) => Some(*e) == self@.now_playing(),
                None => self@.now_playing() is None,
            },
    {
        if self.is_connected() {
            self.queue.now_playing()
        } else {
            None
        }
    }

    /// The user who asked for the entry `stable_id`, if it is queued.
    pub fn requester_of(&self, stable_id: u64) -> (r: Option<u64>)
        ensures
            r == (if self@.attribution.contains_key(stable_id) {
                Some(self@.attribution[stable_id])
            } else {
                None
            }),
    {
        self.attribution.requester_of(stable_id)
    }

    /// Number of votes to skip the now-playing entry.
    pub fn votes(&self) -> (n: usize)
        ensures
            n == self@.voters.len(),
    {
        self.voters.len()
    }

    /// Whether `user` has voted to skip the now-playing entry.
    pub fn has_voted(&self, user: u64) -> (b: bool)
        ensures
            b == self@.voters.contains(user),
    {
        self.voters.contains(user)
    }

    /// The role that may use the DJ commands, as the session was last told.
    pub fn dj_role_ref(&self) -> (role: Option<u64>)
        ensures
            role == self@.dj_role_ref,
    {
        self.dj_role_ref
    }

    /// Tells the session which role may use the DJ commands.
    pub fn set_dj_role_ref(&mut self, role: Option<u64>)
        ensures
            final(self)@ =~= (SessionView { dj_role_ref: role, ..old(self)@ }),
            final(self).wf() == old(self).wf(),
            votes_follow_head(old(self)@, final(self)@),
    {
        self.dj_role_ref = role;
    }
}

/// The now-playing entry exists exactly when the session is connected and
/// its queue is not empty, and it is then the head of the queue: there is
/// never more than one.
pub proof fn law_now_playing_is_connected_head(v: SessionView)
    ensures
        v.now_playing() is Some <==> v.connection_state is Connected && v.entries.len() > 0,
        v.now_playing() is Some ==> v.now_playing() == Some(v.entries[0]),
{
}

/// A user who votes again adds nothing: the voters stay the same, the
/// count stays the same, and unless the quorum is reached the vote is
/// reported as already cast.
pub proof fn law_second_vote_adds_nothing(voters: Set<u64>, user: u64, members: u64)
    requires
        voters.finite(),
        voters.len() <= usize::MAX,
        voters.contains(user),
    ensures
        voters.insert(user) == voters,
        tally_after(voters, user, members).votes == voters.len(),
        !tally_after(voters, user, members).spec_reached() ==> vote_outcome(
            tally_after(voters, user, members),
        ) == (VoteOutcome::AlreadyVoted {
            votes: voters.len() as usize,
            quorum: crate::votes::spec_quorum(members as int) as u64,
        }),
{
    assert(voters.insert(user) =~= voters);
}

/// A resync whose requests all succeed, on a session whose remote player
/// held what the local queue holds: the player is deleted and created anew,
/// the entry that was playing is resumed at the captured position, the
/// entries behind it are queued again in their order, and the session ends
/// exactly as it was before the voice server changed. A player that
/// carries out these requests holds, at the end, what the queue holds: each
/// entry once, in the same order.
pub proof fn law_resync_restores_playback(
    v: SessionView,
    snapshot: RemoteSnapshotView,
    player: RemotePlayer,
)
    requires
        v.wf(),
        v.connection_state is Connected,
        v.entries.len() > 0,
        snapshot_agrees(snapshot, v.entries),
    ensures
        ({
            let delete = RemoteActionView::DeletePlayer;
            let create = RemoteActionView::CreatePlayer;
            let resume = RemoteActionView::Resume {
                entry: v.entries[0],
                position: snapshot.position,
            };
            let restore = RemoteActionView::SetQueue(QueueOpView::Replace(v.entries.skip(1)));
            let s0 = migrating(v);
            let s1 = after_reply(s0, RemoteReplyView::Snapshot(snapshot));
            let s2 = after_reply(s1, RemoteReplyView::Done);
            let s3 = after_reply(s2, RemoteReplyView::Done);
            let s4 = after_reply(s3, RemoteReplyView::Done);
            let s5 = after_reply(s4, RemoteReplyView::Done);
            &&& progress_of(s0, RemoteReplyView::Snapshot(snapshot))
                == ResyncProgressView::Continue(delete)
            &&& progress_of(s1, RemoteReplyView::Done) == ResyncProgressView::Continue(create)
            &&& progress_of(s2, RemoteReplyView::Done) == ResyncProgressView::Continue(resume)
            &&& progress_of(s3, RemoteReplyView::Done) == ResyncProgressView::Continue(restore)
            &&& progress_of(s4, RemoteReplyView::Done) == ResyncProgressView::Finished
            &&& s5 == v
            &&& after_action(
                after_action(after_action(after_action(player, delete), create), resume),
                restore,
            ) == mirror(v.entries)
        }),
{
    let s0 = migrating(v);
    let s1 = after_reply(s0, RemoteReplyView::Snapshot(snapshot));
    let s2 = after_reply(s1, RemoteReplyView::Done);
    let s3 = after_reply(s2, RemoteReplyView::Done);
    let s4 = after_reply(s3, RemoteReplyView::Done);
    let s5 = after_reply(s4, RemoteReplyView::Done);
    assert(s5 =~= v);
}

/// A session is due to be reaped only while nobody listens and nothing is
/// queued, and not before it has been so for the time of grace.
pub proof fn law_reap_needs_idle_grace(v: SessionView, non_bot_members: u64, now: u64, grace: u64)
    requires
        reap_due(v, non_bot_members, now, grace),
    ensures
        non_bot_members == 0,
        v.entries.len() == 0,
        match v.idle_since {
            Some(since) => now - since >= grace,
            None => grace == 0,
        },
{
}

/// A resync that fails, at whatever request, leaves the queue, its
/// attribution and the votes as they were, and the session marked as failed.
pub proof fn law_failed_resync_keeps_queue(v: SessionView, reply: RemoteReplyView)
    requires
        v.resync is Some,
    ensures
        reply is Failed ==> progress_of(v, reply) is Failed,
        progress_of(v, reply) is Failed ==> after_reply(v, reply) == (SessionView {
            connection_state: ConnectionState::Failed,
            resync: None,
            ..v
        }),
{
}

} // verus!
