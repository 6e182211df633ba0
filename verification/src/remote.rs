//! What the coordinator asks of the remote audio node, and a model of how
//! the node's player answers, against which every command is checked.
use crate::track::QueueEntry;
use vstd::prelude::*;

verus! {

/// A change to the queue that the remote player holds.
#[derive(Debug)]
pub enum QueueOp {
    /// Put these entries behind what the player has queued.
    Append(Vec<QueueEntry>),
    /// Drop what the player has queued and queue these entries.
    Replace(Vec<QueueEntry>),
    /// Drop what the player has queued.
    Clear,
}

/// A `QueueOp` as specifications see it.
pub enum QueueOpView {
    Append(Seq<QueueEntry>),
    Replace(Seq<QueueEntry>),
    Clear,
}

impl View for QueueOp {
    type V = QueueOpView;

    open spec fn view(&self) -> QueueOpView {
        match self {
            QueueOp::Append(entries) => QueueOpView::Append(entries@),
            QueueOp::Replace(entries) => QueueOpView::Replace(entries@),
            QueueOp::Clear => QueueOpView::Clear,
        }
    }
}

/// What a command asks of the remote player: first the queue change, if
/// there is one, then a skip, if `skip` is set.
#[derive(Debug)]
pub struct RemoteUpdate {
    pub queue: Option<QueueOp>,
    pub skip: bool,
}

/// A `RemoteUpdate` as specifications see it.
pub struct RemoteUpdateView {
    pub queue: Option<QueueOpView>,
    pub skip: bool,
}

impl View for RemoteUpdate {
    type V = RemoteUpdateView;

    open spec fn view(&self) -> RemoteUpdateView {
        RemoteUpdateView {
            queue: match self.queue {
                Some(op) => Some(op@),
                None => None,
            },
            skip: self.skip,
        }
    }
}

/// The remote player as far as queueing goes: the track it plays, and the
/// tracks it will play after that.
pub struct RemotePlayer {
    pub track: Option<QueueEntry>,
    pub queue: Seq<QueueEntry>,
}

/// The remote player that holds exactly what the local queue `entries` holds.
pub open spec fn mirror(entries: Seq<QueueEntry>) -> RemotePlayer {
    if entries.len() == 0 {
        RemotePlayer { track: None, queue: Seq::empty() }
    } else {
        RemotePlayer { track: Some(entries[0]), queue: entries.skip(1) }
    }
}

/// The remote player after a queue change.
pub open spec fn after_queue_op(player: RemotePlayer, op: QueueOpView) -> RemotePlayer {
    match op {
        QueueOpView::Append(entries) => RemotePlayer {
            track: player.track,
            queue: player.queue + entries,
        },
        QueueOpView::Replace(entries) => RemotePlayer { track: player.track, queue: entries },
        QueueOpView::Clear => RemotePlayer { track: player.track, queue: Seq::empty() },
    }
}

/// The remote player after a skip: it plays the first queued track, or
/// nothing when none is queued.
pub open spec fn after_skip(player: RemotePlayer) -> RemotePlayer {
    mirror(player.queue)
}

/// The remote player after a whole update.
pub open spec fn after_update(player: RemotePlayer, update: RemoteUpdateView) -> RemotePlayer {
    let queued = match update.queue {
        Some(op) => after_queue_op(player, op),
        None => player,
    };
    if update.skip {
        after_skip(queued)
    } else {
        queued
    }
}

/// `update` takes a remote player that mirrors `before` to one that mirrors `after`.
pub open spec fn keeps_mirror(
    before: Seq<QueueEntry>,
    update: RemoteUpdateView,
    after: Seq<QueueEntry>,
) -> bool {
    let reached = after_update(mirror(before), update);
    &&& reached.track == mirror(after).track
    &&& reached.queue =~= mirror(after).queue
}

} // verus!
