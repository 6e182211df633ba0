//! Tracks as the queue holds them.
use vstd::prelude::*;

verus! {

/// What is known of a track: the handle by which the remote audio node
/// recognises it, and the fields shown to listeners.
#[derive(Debug)]
pub struct TrackMetadata {
    /// Opaque handle under which the remote audio node knows the track.
    pub identifier: String,
    pub title: String,
    pub author: String,
    pub uri: Option<String>,
    /// Duration in milliseconds.
    pub length: u64,
}

impl Clone for TrackMetadata {
    fn clone(&self) -> (r: Self)
        ensures
            r == *self,
    {
        let uri = match &self.uri {
            Some(u) => Some(u.clone()),
            None => None,
        };
        TrackMetadata {
            identifier: self.identifier.clone(),
            title: self.title.clone(),
            author: self.author.clone(),
            uri,
            length: self.length,
        }
    }
}

/// One track in a queue, with the identity it keeps for as long as it stays
/// there and the user who asked for it.
#[derive(Debug)]
pub struct QueueEntry {
    pub stable_id: u64,
    pub track_metadata: TrackMetadata,
    pub requester_id: u64,
}

impl Clone for QueueEntry {
    fn clone(&self) -> (r: Self)
        ensures
            r == *self,
    {
        QueueEntry {
            stable_id: self.stable_id,
            track_metadata: self.track_metadata.clone(),
            requester_id: self.requester_id,
        }
    }
}

} // verus!
