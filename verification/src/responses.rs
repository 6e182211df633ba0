//! What the bot says in reply to a command.
use crate::session::VoteOutcome;
use crate::text::{decimal, push_decimal, push_text};
use crate::timestamp::{millis_text, millis_to_string};
use crate::track::TrackMetadata;
use vstd::prelude::*;

verus! {

/// The colour of a reply.
#[derive(Clone, Copy, Debug, PartialEq, Eq, Structural)]
pub enum Color {
    Default,
    Error,
    Setting,
}

impl Color {
    /// Red, green and blue of this colour.
    pub open spec fn spec_to_color(self) -> (u8, u8, u8) {
        match self {
            Color::Default => (149u8, 165u8, 166u8),
            Color::Error => (231u8, 76u8, 60u8),
            Color::Setting => (13u8, 71u8, 161u8),
        }
    }

    /// Red, green and blue of this colour.
    pub fn to_color(&self) -> (rgb: (u8, u8, u8))
        ensures
            rgb == self.spec_to_color(),
    {
        match self {
            Color::Default => (149, 165, 166),
            Color::Error => (231, 76, 60),
            Color::Setting => (13, 71, 161),
        }
    }
}

/// A reply that reports success.
#[derive(Clone, Copy, Debug, PartialEq, Eq, Structural)]
pub enum DefaultMessage {
    Skipped,
    SkippedTo(usize),
}

impl DefaultMessage {
    /// The words of this reply.
    pub open spec fn spec_text(self) -> Seq<char> {
        match self {
            DefaultMessage::Skipped => "Skipped track."@,
            DefaultMessage::SkippedTo(position) => "Skipped to track "@ + decimal(position as nat)
                + "."@,
        }
    }

    /// The words of this reply.
    pub fn text(&self) -> (words: String)
        ensures
            words@ == self.spec_text(),
    {
        let mut words = String::new();
        match self {
            DefaultMessage::Skipped => {
                push_text(&mut words, "Skipped track.");
                assert(words@ =~= self.spec_text());
            },
            DefaultMessage::SkippedTo(position) => {
                push_text(&mut words, "Skipped to track ");
                push_decimal(&mut words, *position as u64);
                push_text(&mut words, ".");
                assert(words@ =~= self.spec_text());
            },
        }
        words
    }

    /// Replies that report success have the default colour.
    pub fn color(&self) -> (c: Color)
        ensures
            c == Color::Default,
    {
        Color::Default
    }
}

/// A reply that reports a failure.
#[derive(Debug)]
pub enum ErrorMessage {
    UserMissingFromVC,
    /// The voice gateway refused the bot, for the reason given.
    BotCannotJoinVC(String),
    BotNotInVC,
    BotNotPlaying,
    InvalidSkip,
    InvalidMove,
}

impl ErrorMessage {
    /// The words of this reply.
    pub open spec fn spec_text(self) -> Seq<char> {
        match self {
            ErrorMessage::UserMissingFromVC => "You need to be in a voice channel to use this command."@,
            ErrorMessage::BotCannotJoinVC(why) => "Could not join the voice channel. "@ + why@,
            ErrorMessage::BotNotInVC => "You need to be in a voice channel to use this command."@,
            ErrorMessage::BotNotPlaying => "There are no tracks currently playing."@,
            ErrorMessage::InvalidSkip => "Tried to skip to an invaild position in the queue."@,
            ErrorMessage::InvalidMove => "Tried to move a track to/from an invaid position."@,
        }
    }

    /// The words of this reply.
    pub fn text(&self) -> (words: String)
        ensures
            words@ == self.spec_text(),
    {
        let mut words = String::new();
        match self {
            ErrorMessage::UserMissingFromVC => {
                push_text(&mut words, "You need to be in a voice channel to use this command.");
            },
            ErrorMessage::BotCannotJoinVC(why) => {
                push_text(&mut words, "Could not join the voice channel. ");
                push_text(&mut words, why.as_str());
            },
            ErrorMessage::BotNotInVC => {
                push_text(&mut words, "You need to be in a voice channel to use this command.");
            },
            ErrorMessage::BotNotPlaying => {
                push_text(&mut words, "There are no tracks currently playing.");
            },
            ErrorMessage::InvalidSkip => {
                push_text(&mut words, "Tried to skip to an invaild position in the queue.");
            },
            ErrorMessage::InvalidMove => {
                push_text(&mut words, "Tried to move a track to/from an invaid position.");
            },
        }
        assert(words@ =~= self.spec_text());
        words
    }

    /// Replies that report a failure have the error colour.
    pub fn color(&self) -> (c: Color)
        ensures
            c == Color::Error,
    {
        Color::Error
    }
}

/// The reply to a vote to skip.
pub open spec fn vote_text(outcome: VoteOutcome) -> Seq<char> {
    match outcome {
        VoteOutcome::Skipped => "Song skipped."@,
        VoteOutcome::Progress { votes, quorum } => "`Placeholder` Skipping "@ + decimal(
            votes as nat,
        ) + "/"@ + decimal(quorum as nat) + " People"@,
        VoteOutcome::AlreadyVoted { votes, quorum } => "`Placeholder` You already voted "@
            + decimal(votes as nat) + "/"@ + decimal(quorum as nat) + " People"@,
    }
}

/// The reply to a vote to skip: that the song was skipped, or how many
/// of the votes needed are in.
pub fn vote_message(outcome: VoteOutcome) -> (words: String)
    ensures
        words@ == vote_text(outcome),
{
    let mut words = String::new();
    match outcome {
        VoteOutcome::Skipped => {
            push_text(&mut words, "Song skipped.");
        },
        VoteOutcome::Progress { votes, quorum } => {
            push_text(&mut words, "`Placeholder` Skipping ");
            push_decimal(&mut words, votes as u64);
            push_text(&mut words, "/");
            push_decimal(&mut words, quorum);
            push_text(&mut words, " People");
        },
        VoteOutcome::AlreadyVoted { votes, quorum } => {
            push_text(&mut words, "`Placeholder` You already voted ");
            push_decimal(&mut words, votes as u64);
            push_text(&mut words, "/");
            push_decimal(&mut words, quorum);
            push_text(&mut words, " People");
        },
    }
    assert(words@ =~= vote_text(outcome));
    words
}

/// The playlist that a query resolved to.
#[derive(Debug)]
pub struct PlaylistSummary {
    pub name: String,
    /// Number of tracks in the playlist.
    pub count: usize,
}

/// A track with its title as a link, where it has an address.
pub open spec fn linked_title(track: TrackMetadata) -> Seq<char> {
    match track.uri {
        Some(uri) => "["@ + track.title@ + "]("@ + uri@ + ")"@,
        None => track.title@,
    }
}

/// Appends the title of `track`, as a link where it has an address.
fn push_linked_title(out: &mut String, track: &TrackMetadata)
    ensures
        final(out)@ == old(out)@ + linked_title(*track),
{
    match &track.uri {
        Some(uri) => {
            push_text(out, "[");
            push_text(out, track.title.as_str());
            push_text(out, "](");
            push_text(out, uri.as_str());
            push_text(out, ")");
            assert(out@ =~= old(out)@ + linked_title(*track));
        },
        None => {
            push_text(out, track.title.as_str());
        },
    }
}

/// The reply to a query that resolved to a playlist.
pub open spec fn playlist_text(playlist: PlaylistSummary, query: Seq<char>) -> Seq<char> {
    "Queued **"@ + decimal(playlist.count as nat) + "** tracks from playlist: ["@ + playlist.name@
        + "]("@ + query + ")"@
}

/// The reply to a query that resolved to one track, which started to play.
pub open spec fn started_text(track: TrackMetadata, requester_id: u64) -> Seq<char> {
    "Started playing `"@ + millis_text(track.length) + "` "@ + linked_title(track) + " - <@"@
        + decimal(requester_id as nat) + ">"@
}

/// The reply to a query that resolved to one track, which was queued at `position`.
pub open spec fn queued_text(track: TrackMetadata, position: usize, requester_id: u64) -> Seq<char> {
    "Queued at position "@ + decimal(position as nat) + " `"@ + millis_text(track.length) + "` "@
        + linked_title(track) + " - <@"@ + decimal(requester_id as nat) + ">"@
}

/// The reply to `play`: for a playlist, how many tracks were queued from
/// it; for one track, that it started to play, where `position` is 0, or
/// where it was queued.
pub open spec fn played_text(
    playlist: Option<PlaylistSummary>,
    query: Seq<char>,
    track: TrackMetadata,
    position: usize,
    requester_id: u64,
) -> Seq<char> {
    match playlist {
        Some(summary) => playlist_text(summary, query),
        None => if position == 0 {
            started_text(track, requester_id)
        } else {
            queued_text(track, position, requester_id)
        },
    }
}

/// Appends the reply to a query that resolved to a playlist.
fn push_playlist_text(out: &mut String, playlist: &PlaylistSummary, query: &str)
    ensures
        final(out)@ == old(out)@ + playlist_text(*playlist, query@),
{
    push_text(out, "Queued **");
    push_decimal(out, playlist.count as u64);
    push_text(out, "** tracks from playlist: [");
    push_text(out, playlist.name.as_str());
    push_text(out, "](");
    push_text(out, query);
    push_text(out, ")");
    assert(out@ =~= old(out)@ + playlist_text(*playlist, query@));
}

/// Appends the reply for one track that started to play.
fn push_started_text(out: &mut String, track: &TrackMetadata, requester_id: u64)
    ensures
        final(out)@ == old(out)@ + started_text(*track, requester_id),
{
    let duration = millis_to_string(track.length);
    push_text(out, "Started playing `");
    push_text(out, duration.as_str());
    push_text(out, "` ");
    push_linked_title(out, track);
    push_text(out, " - <@");
    push_decimal(out, requester_id);
    push_text(out, ">");
    assert(out@ =~= old(out)@ + started_text(*track, requester_id));
}

/// The reply to `play`, for the first of the tracks that the query
/// resolved to, queued at `position` for `requester_id`.
pub fn played_message(
    playlist: &Option<PlaylistSummary>,
    query: &str,
    track: &TrackMetadata,
    position: usize,
    requester_id: u64,
) -> (words: String)
    ensures
        words@ == played_text(*playlist, query@, *track, position, requester_id),
{
    let mut words = String::new();
    match playlist {
        Some(summary) => {
            push_playlist_text(&mut words, summary, query);
        },
        None => {
            if position == 0 {
                push_started_text(&mut words, track, requester_id);
            } else {
                let duration = millis_to_string(track.length);
                push_text(&mut words, "Queued at position ");
                push_decimal(&mut words, position as u64);
                push_text(&mut words, " `");
                push_text(&mut words, duration.as_str());
                push_text(&mut words, "` ");
                push_linked_title(&mut words, track);
                push_text(&mut words, " - <@");
                push_decimal(&mut words, requester_id);
                push_text(&mut words, ">");
                assert(words@ =~= queued_text(*track, position, requester_id));
            }
        },
    }
    assert(words@ =~= played_text(*playlist, query@, *track, position, requester_id));
    words
}

/// The reply to `play_skip`: for a playlist, how many tracks were queued
/// from it; for one track, that it started to play.
pub fn play_skip_message(
    playlist: &Option<PlaylistSummary>,
    query: &str,
    track: &TrackMetadata,
    requester_id: u64,
) -> (words: String)
    ensures
        words@ == played_text(*playlist, query@, *track, 0, requester_id),
{
    played_message(playlist, query, track, 0, requester_id)
}

/// The reply to `remove`.
pub open spec fn removed_text(track: TrackMetadata) -> Seq<char> {
    "Removed "@ + linked_title(track) + " from the queue."@
}

/// The reply to `remove`, for the track that was removed.
pub fn removed_message(track: &TrackMetadata) -> (words: String)
    ensures
        words@ == removed_text(*track),
{
    let mut words = String::new();
    push_text(&mut words, "Removed ");
    push_linked_title(&mut words, track);
    push_text(&mut words, " from the queue.");
    assert(words@ =~= removed_text(*track));
    words
}

/// The reply to `reorder`.
pub open spec fn moved_text(track: TrackMetadata, from: usize, to: usize) -> Seq<char> {
    let named = match track.uri {
        Some(uri) => "["@ + track.author@ + " - "@ + track.title@ + "]("@ + uri@ + ")"@,
        None => track.author@ + " - "@ + track.title@,
    };
    "Moved "@ + named + " from position "@ + decimal(from as nat) + " to position "@ + decimal(
        to as nat,
    ) + "."@
}

/// The reply to `reorder`, for the track that was moved.
pub fn moved_message(track: &TrackMetadata, from: usize, to: usize) -> (words: String)
    ensures
        words@ == moved_text(*track, from, to),
{
    let mut words = String::new();
    push_text(&mut words, "Moved ");
    match &track.uri {
        Some(uri) => {
            push_text(&mut words, "[");
            push_text(&mut words, track.author.as_str());
            push_text(&mut words, " - ");
            push_text(&mut words, track.title.as_str());
            push_text(&mut words, "](");
            push_text(&mut words, uri.as_str());
            push_text(&mut words, ")");
        },
        None => {
            push_text(&mut words, track.author.as_str());
            push_text(&mut words, " - ");
            push_text(&mut words, track.title.as_str());
        },
    }
    push_text(&mut words, " from position ");
    push_decimal(&mut words, from as u64);
    push_text(&mut words, " to position ");
    push_decimal(&mut words, to as u64);
    push_text(&mut words, ".");
    assert(words@ =~= moved_text(*track, from, to));
    words
}

} // verus!
