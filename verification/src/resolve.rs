//! From what a user typed to the tracks to queue.
use crate::error::ErrorClass;
use crate::responses::PlaylistSummary;
use crate::text::chars_of;
use crate::track::TrackMetadata;
use vstd::prelude::*;

verus! {

/// `lavalink_rs::error::LavalinkError`: why a call into the node's client
/// failed. Nothing is read from it.
#[verifier::external_type_specification]
#[verifier::external_body]
pub struct ExLavalinkError(lavalink_rs::error::LavalinkError);

/// Why nothing was found to play.
#[derive(Clone, Copy, Debug, PartialEq, Eq, Structural)]
pub enum ResolveError {
    /// The user typed nothing.
    EmptyQuery,
    /// The search engine's query could not be made.
    Engine,
    /// The remote node found no track.
    NoResults,
}

impl ResolveError {
    pub open spec fn spec_class(self) -> ErrorClass {
        match self {
            ResolveError::EmptyQuery => ErrorClass::UserInput,
            _ => ErrorClass::ExternalService,
        }
    }

    /// The family this error belongs to.
    pub fn class(self) -> (c: ErrorClass)
        ensures
            c == self.spec_class(),
    {
        match self {
            ResolveError::EmptyQuery => ErrorClass::UserInput,
            _ => ErrorClass::ExternalService,
        }
    }
}

/// Whether `s` starts with `prefix`.
pub open spec fn has_prefix(s: Seq<char>, prefix: Seq<char>) -> bool {
    prefix.len() <= s.len() && s.take(prefix.len() as int) == prefix
}

/// Whether `s` starts with `prefix`.
pub fn starts_with(s: &Vec<char>, prefix: &Vec<char>) -> (b: bool)
    ensures
        b == has_prefix(s@, prefix@),
{
    if prefix.len() > s.len() {
        return false;
    }
    let mut i: usize = 0;
    while i < prefix.len()
        invariant
            i <= prefix.len() <= s.len(),
            forall|k: int| 0 <= k < i ==> s@[k] == prefix@[k],
        decreases prefix.len() - i,
    {
        if s[i] != prefix[i] {
            assert(s@.take(prefix.len() as int)[i as int] != prefix@[i as int]);
            return false;
        }
        i += 1;
    }
    assert(s@.take(prefix.len() as int) =~= prefix@);
    true
}

/// `lavalink_rs::model::search::SearchEngines::to_query` of the engine
/// `YouTube`: the engine's prefix `ytsearch`, a colon, and the query. For
/// this engine the call does not fail.
#[verifier::external_body]
fn youtube_query(base_query: &str) -> (r: Result<String, lavalink_rs::error::LavalinkError>)
    ensures
        r is Ok,
        r->Ok_0@ == "ytsearch:"@ + base_query@,
{
    lavalink_rs::model::search::SearchEngines::YouTube.to_query(base_query)
}

/// What the remote node is asked to load for `query`.
pub open spec fn load_text(query: Seq<char>) -> Seq<char> {
    if has_prefix(query, "http"@) {
        query
    } else {
        "ytsearch:"@ + query
    }
}

/// What to ask the remote node to load for what the user typed: an
/// address as it is, anything else as a search on YouTube.
pub fn search_query(query: &str) -> (r: Result<String, ResolveError>)
    ensures
        match r {
            Ok(load) => query@.len() > 0 && load@ == load_text(query@),
            Err(e) => e == ResolveError::EmptyQuery && query@.len() == 0,
        },
{
    let chars = chars_of(query);
    if chars.len() == 0 {
        return Err(ResolveError::EmptyQuery);
    }
    let http = chars_of("http");
    if starts_with(&chars, &http) {
        let mut load = String::new();
        crate::text::push_text(&mut load, query);
        assert(load@ =~= query@);
        Ok(load)
    } else {
        match youtube_query(query) {
            Ok(load) => Ok(load),
            Err(_) => Err(ResolveError::Engine),
        }
    }
}

/// What the remote node loaded for a query.
#[derive(Debug)]
pub enum LoadResult {
    /// One track.
    Track(TrackMetadata),
    /// The results of a search, the best first.
    Search(Vec<TrackMetadata>),
    /// A playlist.
    Playlist { name: String, tracks: Vec<TrackMetadata> },
    /// Nothing, or an error.
    Nothing,
}

/// The tracks to queue for a query, and the playlist they come from, if any.
#[derive(Debug)]
pub struct Selection {
    pub tracks: Vec<TrackMetadata>,
    pub playlist: Option<PlaylistSummary>,
}

/// The tracks to queue for what was loaded: the one track, the best
/// result of a search, or every track of a playlist.
pub open spec fn selected(loaded: LoadResult) -> Option<Seq<TrackMetadata>> {
    match loaded {
        LoadResult::Track(track) => Some(seq![track]),
        LoadResult::Search(results) => if results@.len() > 0 {
            Some(seq![results@[0]])
        } else {
            None
        },
        LoadResult::Playlist { name, tracks } => if tracks@.len() > 0 {
            Some(tracks@)
        } else {
            None
        },
        LoadResult::Nothing => None,
    }
}

/// Picks the tracks to queue from what the remote node loaded.
pub fn select_tracks(loaded: LoadResult) -> (r: Result<Selection, ResolveError>)
    ensures
        match r {
            Ok(selection) => {
                &&& selected(loaded) == Some(selection.tracks@)
                &&& selection.tracks@.len() > 0
                &&& match selection.playlist {
                    Some(summary) => loaded matches LoadResult::Playlist { name, tracks }
                        && summary.name == name && summary.count == tracks@.len(),
                    None => !(loaded is Playlist),
                }
            },
            Err(e) => e == ResolveError::NoResults && selected(loaded) is None,
        },
{
    match loaded {
        LoadResult::Track(track) => {
            let mut tracks: Vec<TrackMetadata> = Vec::new();
            tracks.push(track);
            assert(tracks@ =~= seq![track]);
            Ok(Selection { tracks, playlist: None })
        },
        LoadResult::Search(results) => {
            if results.len() == 0 {
                return Err(ResolveError::NoResults);
            }
            let mut tracks: Vec<TrackMetadata> = Vec::new();
            tracks.push(results[0].clone());
            assert(tracks@ =~= seq![results@[0]]);
            Ok(Selection { tracks, playlist: None })
        },
        LoadResult::Playlist { name, tracks } => {
            if tracks.len() == 0 {
                return Err(ResolveError::NoResults);
            }
            let count = tracks.len();
            Ok(Selection { tracks, playlist: Some(PlaylistSummary { name, count }) })
        },
        LoadResult::Nothing => Err(ResolveError::NoResults),
    }
}

} // verus!
