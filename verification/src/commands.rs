//! The commands that only look at a session, or decide before one is touched.
use crate::error::{ErrorClass, QueueError};
use crate::queue::{upcoming_len, Queue};
use crate::registry::SessionRegistry;
use crate::session::{torn_down, ConnectionState, Session, SessionError, SessionView};
use crate::text::{decimal, push_decimal, push_text};
use crate::timestamp::{millis_text, millis_to_string};
use crate::track::{QueueEntry, TrackMetadata};
use vstd::prelude::*;
use vstd::utf8::encode_utf8;

verus! {

/// Entries shown on one page of the queue.
pub const PAGE_SIZE: usize = 10;

/// A description of exactly this many bytes is not added to.
pub const DESCRIPTION_STOP: usize = 2000;

/// One page of the queue, as shown to a user.
#[derive(Debug)]
pub struct QueuePage {
    pub description: String,
    pub footer: String,
}

/// Number of pages of a queue with `queue_length` entries behind the head.
pub open spec fn page_count(queue_length: int) -> int {
    if queue_length == 0 {
        1
    } else {
        (queue_length + PAGE_SIZE - 1) / (PAGE_SIZE as int)
    }
}

/// The first position shown on `page`.
pub open spec fn page_first(page: int) -> int {
    (page - 1) * PAGE_SIZE + 1
}

/// The position behind the last one shown on `page`.
pub open spec fn page_stop(page: int, queue_length: int) -> int {
    if queue_length > page * PAGE_SIZE {
        page * PAGE_SIZE + 1
    } else {
        queue_length + 1
    }
}

/// The line for the now-playing track.
pub open spec fn now_playing_line(track: TrackMetadata) -> Seq<char> {
    match track.uri {
        Some(uri) => "**Now Playing**: ["@ + track.title@ + "]("@ + uri@ + ") `"@ + millis_text(
            track.length,
        ) + "`\n\n"@,
        None => "**Now Playing**: "@ + track.title@ + " `"@ + millis_text(track.length) + "`\n\n"@,
    }
}

/// The line for the track at `position`.
pub open spec fn up_next_line(position: int, track: TrackMetadata) -> Seq<char> {
    match track.uri {
        Some(uri) => "**"@ + decimal(position as nat) + ".** ["@ + track.title@ + "]("@ + uri@
            + ") `"@ + millis_text(track.length) + "`\n"@,
        None => "**"@ + decimal(position as nat) + ".** "@ + track.title@ + " `"@ + millis_text(
            track.length,
        ) + "`\n"@,
    }
}

/// A description under construction, with the durations of its tracks added up.
pub struct Listing {
    pub text: Seq<char>,
    pub total: int,
}

/// `listing` with the lines for the positions from `from` up to, not
/// including, `to`. No line is added behind one that brought the text to
/// exactly `DESCRIPTION_STOP` bytes.
pub open spec fn listed(entries: Seq<QueueEntry>, from: int, to: int, listing: Listing) -> Listing
    decreases to - from,
{
    if from >= to {
        listing
    } else {
        let track = entries[from].track_metadata;
        let next = Listing {
            text: listing.text + up_next_line(from, track),
            total: listing.total + track.length,
        };
        if encode_utf8(next.text).len() as usize == DESCRIPTION_STOP {
            next
        } else {
            listed(entries, from + 1, to, next)
        }
    }
}

/// Sum of the durations of the entries at the positions from `from` up to,
/// not including, `to`.
pub open spec fn durations(entries: Seq<QueueEntry>, from: int, to: int) -> int
    decreases to - from,
{
    if from >= to {
        0
    } else {
        entries[from].track_metadata.length + durations(entries, from + 1, to)
    }
}

/// The now-playing line, and behind it the heading and the lines of `page`
/// where anything is queued.
pub open spec fn page_listing(entries: Seq<QueueEntry>, page: int) -> Listing {
    let head = entries[0].track_metadata;
    let start = Listing { text: now_playing_line(head), total: head.length as int };
    if upcoming_len(entries) >= 1 {
        listed(
            entries,
            page_first(page),
            page_stop(page, upcoming_len(entries)),
            Listing { text: start.text + "**Up Next**\n"@, total: start.total },
        )
    } else {
        start
    }
}

/// The line under a page.
pub open spec fn page_footer(page: int, pages: int, queue_length: int, total: u64) -> Seq<char> {
    "Page "@ + decimal(page as nat) + "/"@ + decimal(pages as nat) + " | "@ + decimal(
        queue_length as nat,
    ) + " song(s) in queue | "@ + millis_text(total) + " total duration"@
}

/// Whether `page` is a page of a queue with `queue_length` entries behind the head.
pub open spec fn valid_page(page: int, queue_length: int) -> bool {
    1 <= page <= page_count(queue_length)
}

/// The page that is meant where `page` is asked for: the first by default.
pub open spec fn page_or_first(page: Option<usize>) -> int {
    match page {
        Some(p) => p as int,
        None => 1,
    }
}

/// Why a page of the queue is not shown, if it is not.
pub open spec fn queue_error(v: SessionView, page: Option<usize>) -> Option<SessionError> {
    if !(v.connection_state is Connected) {
        Some(SessionError::NotConnected)
    } else if v.entries.len() == 0 {
        Some(SessionError::Queue(QueueError::EmptyQueue))
    } else if !valid_page(page_or_first(page), upcoming_len(v.entries)) {
        Some(SessionError::InvalidPage)
    } else {
        None
    }
}

/// The durations of the now-playing track and of the tracks of `page`
/// add up to a count of milliseconds that fits 64 bits.
pub open spec fn page_fits(entries: Seq<QueueEntry>, page: int) -> bool {
    entries[0].track_metadata.length + durations(
        entries,
        page_first(page),
        page_stop(page, upcoming_len(entries)),
    ) <= u64::MAX
}

/// Appends the now-playing line for `track`.
fn push_now_playing_line(out: &mut String, track: &TrackMetadata)
    ensures
        final(out)@ == old(out)@ + now_playing_line(*track),
{
    let duration = millis_to_string(track.length);
    match &track.uri {
        Some(uri) => {
            push_text(out, "**Now Playing**: [");
            push_text(out, track.title.as_str());
            push_text(out, "](");
            push_text(out, uri.as_str());
            push_text(out, ") `");
            push_text(out, duration.as_str());
            push_text(out, "`\n\n");
            assert(out@ =~= old(out)@ + now_playing_line(*track));
        },
        None => {
            push_text(out, "**Now Playing**: ");
            push_text(out, track.title.as_str());
            push_text(out, " `");
            push_text(out, duration.as_str());
            push_text(out, "`\n\n");
            assert(out@ =~= old(out)@ + now_playing_line(*track));
        },
    }
}

/// Appends the line for `track` at `position`.
fn push_up_next_line(out: &mut String, position: usize, track: &TrackMetadata)
    ensures
        final(out)@ == old(out)@ + up_next_line(position as int, *track),
{
    let duration = millis_to_string(track.length);
    push_text(out, "**");
    push_decimal(out, position as u64);
    match &track.uri {
        Some(uri) => {
            push_text(out, ".** [");
            push_text(out, track.title.as_str());
            push_text(out, "](");
            push_text(out, uri.as_str());
            push_text(out, ") `");
            push_text(out, duration.as_str());
            push_text(out, "`\n");
            assert(out@ =~= old(out)@ + up_next_line(position as int, *track));
        },
        None => {
            push_text(out, ".** ");
            push_text(out, track.title.as_str());
            push_text(out, " `");
            push_text(out, duration.as_str());
            push_text(out, "`\n");
            assert(out@ =~= old(out)@ + up_next_line(position as int, *track));
        },
    }
}

/// Each duration is part of the sum of the durations from its position on.
proof fn lemma_durations_step(entries: Seq<QueueEntry>, from: int, to: int)
    requires
        0 <= from < to <= entries.len(),
    ensures
        durations(entries, from, to) == entries[from].track_metadata.length + durations(
            entries,
            from + 1,
            to,
        ),
        durations(entries, from + 1, to) >= 0,
    decreases to - from,
{
    if from + 1 < to {
        lemma_durations_step(entries, from + 1, to);
    }
}

/// Shows one page of the queue of a session: the now-playing track, then
/// up to ten of the queued tracks with their positions and durations, and
/// a footer with the page, the number of pages, the number of queued
/// tracks, and the total duration of the tracks shown.
pub fn queue(session: &Session, page: Option<usize>) -> (r: Result<QueuePage, SessionError>)
    requires
        session.wf(),
        queue_error(session@, page) is None ==> page_fits(session@.entries, page_or_first(page)),
    ensures
        match r {
            Ok(shown) => {
                let entries = session@.entries;
                let listing = page_listing(entries, page_or_first(page));
                &&& queue_error(session@, page) is None
                &&& shown.description@ == listing.text
                &&& shown.footer@ == page_footer(
                    page_or_first(page),
                    page_count(upcoming_len(entries)),
                    upcoming_len(entries),
                    listing.total as u64,
                )
            },
            Err(e) => queue_error(session@, page) == Some(e),
        },
{
    if !session.is_connected() {
        return Err(SessionError::NotConnected);
    }
    let queue: &Queue = session.queue();
    let head = match queue.now_playing() {
        Some(head) => head,
        None => {
            return Err(SessionError::Queue(QueueError::EmptyQueue));
        },
    };
    let queue_length = queue.len();
    let page: usize = match page {
        Some(p) => p,
        None => 1,
    };
    let pages: usize = if queue_length == 0 {
        1
    } else {
        (queue_length - 1) / PAGE_SIZE + 1
    };
    if page < 1 || page > pages {
        return Err(SessionError::InvalidPage);
    }
    let first: usize = (page - 1) * PAGE_SIZE + 1;
    let stop: usize = if queue_length > 0 && queue_length - (page - 1) * PAGE_SIZE > PAGE_SIZE {
        page * PAGE_SIZE + 1
    } else {
        queue_length + 1
    };
    let ghost entries = session@.entries;
    proof {
        assert(first == page_first(page as int));
        assert(stop == page_stop(page as int, queue_length as int));
        if first < stop {
            lemma_durations_step(entries, first as int, stop as int);
        }
    }
    let mut description = String::new();
    push_now_playing_line(&mut description, &head.track_metadata);
    let mut total: u64 = head.track_metadata.length;
    if queue_length >= 1 {
        push_text(&mut description, "**Up Next**\n");
        let ghost wanted = page_listing(entries, page as int);
        let mut position: usize = first;
        while position < stop
            invariant
                1 <= position <= stop <= entries.len(),
                queue@ == entries,
                total + durations(entries, position as int, stop as int) <= u64::MAX,
                listed(
                    entries,
                    position as int,
                    stop as int,
                    Listing { text: description@, total: total as int },
                ) == wanted,
            decreases stop - position,
        {
            let entry = queue.entry(position);
            proof {
                lemma_durations_step(entries, position as int, stop as int);
            }
            total = total + entry.track_metadata.length;
            push_up_next_line(&mut description, position, &entry.track_metadata);
            if description.as_str().len() == DESCRIPTION_STOP {
                position = stop;
            } else {
                position += 1;
            }
        }
        assert(description@ == wanted.text && total == wanted.total);
    } else {
        assert(description@ =~= page_listing(entries, page as int).text);
    }
    let mut footer = String::new();
    let duration = millis_to_string(total);
    push_text(&mut footer, "Page ");
    push_decimal(&mut footer, page as u64);
    push_text(&mut footer, "/");
    push_decimal(&mut footer, pages as u64);
    push_text(&mut footer, " | ");
    push_decimal(&mut footer, queue_length as u64);
    push_text(&mut footer, " song(s) in queue | ");
    push_text(&mut footer, duration.as_str());
    push_text(&mut footer, " total duration");
    assert(footer@ =~= page_footer(
        page as int,
        pages as int,
        queue_length as int,
        total,
    ));
    Ok(QueuePage { description, footer })
}

/// The sum of durations is never negative.
proof fn lemma_durations_not_negative(entries: Seq<QueueEntry>, from: int, to: int)
    requires
        0 <= from,
        to <= entries.len(),
    ensures
        durations(entries, from, to) >= 0,
    decreases to - from,
{
    if from < to {
        lemma_durations_not_negative(entries, from + 1, to);
    }
}

/// Whether `queue` can show `page` of the session: it can, unless the
/// durations of the tracks on the page add up to more than 64 bits hold.
#[verifier::loop_isolation(false)]
pub fn queue_page_fits(session: &Session, page: Option<usize>) -> (b: bool)
    requires
        session.wf(),
    ensures
        b == (queue_error(session@, page) is None ==> page_fits(
            session@.entries,
            page_or_first(page),
        )),
{
    if !session.is_connected() {
        return true;
    }
    let queue: &Queue = session.queue();
    let head = match queue.now_playing() {
        Some(head) => head,
        None => {
            return true;
        },
    };
    let queue_length = queue.len();
    let page: usize = match page {
        Some(p) => p,
        None => 1,
    };
    let pages: usize = if queue_length == 0 {
        1
    } else {
        (queue_length - 1) / PAGE_SIZE + 1
    };
    if page < 1 || page > pages {
        return true;
    }
    let first: usize = (page - 1) * PAGE_SIZE + 1;
    let stop: usize = if queue_length > 0 && queue_length - (page - 1) * PAGE_SIZE > PAGE_SIZE {
        page * PAGE_SIZE + 1
    } else {
        queue_length + 1
    };
    let ghost entries = session@.entries;
    let ghost whole = head.track_metadata.length + durations(entries, first as int, stop as int);
    proof {
        lemma_durations_not_negative(entries, first as int, stop as int);
    }
    let mut total: u64 = head.track_metadata.length;
    let mut position: usize = first;
    while position < stop
        invariant
            1 <= first <= stop <= entries.len(),
            first <= position,
            queue@ == entries,
            position <= stop ==> total + durations(entries, position as int, stop as int) == whole,
            position > stop ==> total == whole,
        decreases stop - position,
    {
        let length = queue.entry(position).track_metadata.length;
        proof {
            lemma_durations_step(entries, position as int, stop as int);
            lemma_durations_not_negative(entries, position + 1, stop as int);
        }
        if length > u64::MAX - total {
            return false;
        }
        total = total + length;
        position += 1;
    }
    true
}

/// Why the bot does not join a voice channel.
#[derive(Clone, Copy, Debug, PartialEq, Eq, Structural)]
pub enum JoinRefusal {
    /// The session is connected, or busy connecting or migrating.
    AlreadyInVoice,
    /// The user who asks is in no voice channel.
    UserMissing,
}

/// Decides whether the bot joins the voice channel of the user who asks,
/// and starts the connection attempt where it does. Returns the channel to join.
pub fn join_fn(session: &mut Session, user_channel: Option<u64>) -> (r: Result<u64, JoinRefusal>)
    requires
        old(session).wf(),
    ensures
        final(session).wf(),
        match r {
            Ok(channel) => {
                &&& user_channel == Some(channel)
                &&& old(session)@.connection_state is Disconnected
                    || old(session)@.connection_state is Failed
                &&& final(session)@ == (SessionView {
                    connection_state: ConnectionState::Connecting,
                    ..torn_down(old(session)@)
                })
            },
            Err(refusal) => {
                &&& final(session)@ == old(session)@
                &&& refusal == (if !(old(session)@.connection_state is Disconnected || old(
                    session,
                )@.connection_state is Failed) {
                    JoinRefusal::AlreadyInVoice
                } else {
                    JoinRefusal::UserMissing
                })
                &&& refusal == JoinRefusal::UserMissing ==> user_channel is None
            },
        },
{
    match session.connection_state() {
        ConnectionState::Disconnected | ConnectionState::Failed => {},
        _ => {
            return Err(JoinRefusal::AlreadyInVoice);
        },
    }
    match user_channel {
        None => Err(JoinRefusal::UserMissing),
        Some(channel) => {
            match session.begin_connect() {
                Ok(_) => Ok(channel),
                Err(_) => Err(JoinRefusal::AlreadyInVoice),
            }
        },
    }
}

/// Why a user may not use a DJ command.
#[derive(Clone, Copy, Debug, PartialEq, Eq, Structural)]
pub enum PermissionError {
    /// The user lacks the DJ role, which is this one.
    NeedDj(u64),
    /// No DJ role is configured.
    NoDj,
    /// Whether the user has the DJ role could not be found out.
    Unknown,
}

impl PermissionError {
    /// Every such error is a matter of permission.
    pub fn class(self) -> (c: ErrorClass)
        ensures
            c == ErrorClass::Permission,
    {
        ErrorClass::Permission
    }
}

/// The verdict on a user, given the configured DJ role and, where it
/// could be found out, whether the user has it.
pub open spec fn dj_verdict(dj_role: Option<u64>, has_role: Option<bool>) -> Result<
    (),
    PermissionError,
> {
    match dj_role {
        None => Err(PermissionError::NoDj),
        Some(role) => match has_role {
            Some(true) => Ok(()),
            Some(false) => Err(PermissionError::NeedDj(role)),
            None => Err(PermissionError::Unknown),
        },
    }
}

/// Decides whether a user may use a DJ command: `dj_role` is the
/// configured role, read for this check, and `has_role` says whether the
/// user has it, or is `None` where that could not be found out.
pub fn has_dj(dj_role: Option<u64>, has_role: Option<bool>) -> (r: Result<(), PermissionError>)
    ensures
        r == dj_verdict(dj_role, has_role),
{
    match dj_role {
        None => Err(PermissionError::NoDj),
        Some(role) => match has_role {
            Some(true) => Ok(()),
            Some(false) => Err(PermissionError::NeedDj(role)),
            None => Err(PermissionError::Unknown),
        },
    }
}

/// Makes the bot leave the voice channel of `guild`: its session ends
/// and is forgotten. Returns whether the guild had a session, and so
/// whether there is a remote player to delete and a channel to leave.
pub fn leave(registry: &mut SessionRegistry, guild: u64) -> (r: Result<(), SessionError>)
    requires
        old(registry).wf(),
    ensures
        final(registry).wf(),
        final(registry)@ == old(registry)@.remove(guild),
        match r {
            Ok(_) => old(registry)@.contains_key(guild),
            Err(e) => e == SessionError::NotConnected && !old(registry)@.contains_key(guild),
        },
{
    if registry.destroy(guild) {
        Ok(())
    } else {
        Err(SessionError::NotConnected)
    }
}

} // verus!
