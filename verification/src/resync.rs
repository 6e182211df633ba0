//! The exchange with the remote audio node that rebuilds its player after
//! the voice gateway has moved the bot to another voice server.
use crate::queue::Queue;
use crate::remote::{after_queue_op, QueueOp, QueueOpView, RemotePlayer};
use crate::text::texts;
use crate::track::QueueEntry;
use vstd::prelude::*;

verus! {

/// What the remote node reports of its player: the track it plays, by the
/// handle it knows it under, how far into it playback is, in milliseconds,
/// and the handles of the tracks it has queued, in order.
#[derive(Debug)]
pub struct RemoteSnapshot {
    pub now_playing: Option<String>,
    pub position: u64,
    pub remaining: Vec<String>,
}

/// A `RemoteSnapshot` as specifications see it.
pub struct RemoteSnapshotView {
    pub now_playing: Option<Seq<char>>,
    pub position: u64,
    pub remaining: Seq<Seq<char>>,
}

impl View for RemoteSnapshot {
    type V = RemoteSnapshotView;

    open spec fn view(&self) -> RemoteSnapshotView {
        RemoteSnapshotView {
            now_playing: match self.now_playing {
                Some(handle) => Some(handle@),
                None => None,
            },
            position: self.position,
            remaining: texts(self.remaining@),
        }
    }
}

/// The remote handles of the entries of `s`, in order.
pub open spec fn identifiers(s: Seq<QueueEntry>) -> Seq<Seq<char>> {
    s.map_values(|e: QueueEntry| e.track_metadata.identifier@)
}

/// The remote player holds exactly the tracks of the local queue `entries`:
/// it plays the head and has queued the rest, in order.
pub open spec fn snapshot_agrees(snapshot: RemoteSnapshotView, entries: Seq<QueueEntry>) -> bool {
    match snapshot.now_playing {
        Some(handle) => {
            &&& entries.len() > 0
            &&& handle == entries[0].track_metadata.identifier@
            &&& snapshot.remaining == identifiers(entries.skip(1))
        },
        None => entries.len() == 0 && snapshot.remaining.len() == 0,
    }
}

/// Whether the remote player holds exactly the tracks of `queue`.
pub fn agrees(snapshot: &RemoteSnapshot, queue: &Queue) -> (b: bool)
    ensures
        b == snapshot_agrees(snapshot@, queue@),
{
    match &snapshot.now_playing {
        None => queue.is_empty() && snapshot.remaining.len() == 0,
        Some(handle) => {
            match queue.now_playing() {
                None => false,
                Some(head) => {
                    if !(*handle == head.track_metadata.identifier) {
                        return false;
                    }
                    if snapshot.remaining.len() != queue.len() {
                        assert(snapshot@.remaining.len() != identifiers(queue@.skip(1)).len());
                        return false;
                    }
                    let mut i: usize = 0;
                    while i < snapshot.remaining.len()
                        invariant
                            i <= snapshot.remaining.len(),
                            snapshot.remaining.len() == queue@.len() - 1,
                            forall|k: int|
                                0 <= k < i ==> snapshot@.remaining[k] == identifiers(
                                    queue@.skip(1),
                                )[k],
                        decreases snapshot.remaining.len() - i,
                    {
                        match queue.get(i + 1) {
                            Some(entry) => {
                                if !(snapshot.remaining[i] == entry.track_metadata.identifier) {
                                    assert(snapshot@.remaining[i as int] != identifiers(
                                        queue@.skip(1),
                                    )[i as int]);
                                    return false;
                                }
                            },
                            None => {
                                return false;
                            },
                        }
                        i += 1;
                    }
                    assert(snapshot@.remaining =~= identifiers(queue@.skip(1)));
                    true
                },
            }
        },
    }
}

/// What the remote node answered to the last request of a resync.
#[derive(Debug)]
pub enum RemoteReply {
    /// The state of the player, in answer to `GetState`.
    Snapshot(RemoteSnapshot),
    /// The request was carried out.
    Done,
    /// The request failed or timed out.
    Failed,
}

/// A `RemoteReply` as specifications see it.
pub enum RemoteReplyView {
    Snapshot(RemoteSnapshotView),
    Done,
    Failed,
}

impl View for RemoteReply {
    type V = RemoteReplyView;

    open spec fn view(&self) -> RemoteReplyView {
        match self {
            RemoteReply::Snapshot(snapshot) => RemoteReplyView::Snapshot(snapshot@),
            RemoteReply::Done => RemoteReplyView::Done,
            RemoteReply::Failed => RemoteReplyView::Failed,
        }
    }
}

/// A request to the remote node during a resync.
#[derive(Debug)]
pub enum RemoteAction {
    /// Read the player's track, position and queue.
    GetState,
    /// Delete the player.
    DeletePlayer,
    /// Create a player bound to the new connection.
    CreatePlayer,
    /// Play `entry` from `position` milliseconds in.
    Resume { entry: QueueEntry, position: u64 },
    /// Change the player's queue.
    SetQueue(QueueOp),
}

/// A `RemoteAction` as specifications see it.
pub enum RemoteActionView {
    GetState,
    DeletePlayer,
    CreatePlayer,
    Resume { entry: QueueEntry, position: u64 },
    SetQueue(QueueOpView),
}

impl View for RemoteAction {
    type V = RemoteActionView;

    open spec fn view(&self) -> RemoteActionView {
        match self {
            RemoteAction::GetState => RemoteActionView::GetState,
            RemoteAction::DeletePlayer => RemoteActionView::DeletePlayer,
            RemoteAction::CreatePlayer => RemoteActionView::CreatePlayer,
            RemoteAction::Resume { entry, position } => RemoteActionView::Resume {
                entry: *entry,
                position: *position,
            },
            RemoteAction::SetQueue(op) => RemoteActionView::SetQueue(op@),
        }
    }
}

/// The remote player after a request of a resync: reading changes
/// nothing, a deleted or newly created player plays nothing and has nothing
/// queued, and a resumed entry is the track that plays.
pub open spec fn after_action(player: RemotePlayer, action: RemoteActionView) -> RemotePlayer {
    match action {
        RemoteActionView::GetState => player,
        RemoteActionView::DeletePlayer => RemotePlayer { track: None, queue: Seq::empty() },
        RemoteActionView::CreatePlayer => RemotePlayer { track: None, queue: Seq::empty() },
        RemoteActionView::Resume { entry, position } => RemotePlayer {
            track: Some(entry),
            queue: player.queue,
        },
        RemoteActionView::SetQueue(op) => after_queue_op(player, op),
    }
}

/// The request of a resync whose answer is awaited.
#[derive(Clone, Copy, Debug, PartialEq, Eq, Structural)]
pub enum ResyncStep {
    Snapshot,
    Delete,
    Create,
    Resume,
    Restore,
}

/// A resync in progress.
#[derive(Clone, Copy, Debug, PartialEq, Eq, Structural)]
pub struct Resync {
    pub step: ResyncStep,
    /// The voice channel to be connected to again.
    pub channel_id: u64,
    /// Playback position captured from the old player, in milliseconds.
    pub position: u64,
}

} // verus!
