//! The words of the embeds: what the bot says of a song, and its notices.
use crate::responses::Color;
use crate::text::{decimal, push_char, push_decimal, push_text};
use crate::timestamp::{seconds_text, seconds_to_string};
use crate::title::{can_be_cut, clean_title, clean_title_text};
use vstd::prelude::*;

verus! {

/// Shown for a song without a title.
pub open spec fn missing_title() -> Seq<char> {
    "N/A"@
}

/// Linked to for a song without an address.
pub open spec fn missing_url() -> Seq<char> {
    "https://www.zombo.com/"@
}

/// The title to show for a song.
pub open spec fn shown_title(title: Option<String>) -> Seq<char> {
    match title {
        Some(t) => clean_title_text(t@),
        None => missing_title(),
    }
}

/// The address to link a song to.
pub open spec fn shown_url(url: Option<String>) -> Seq<char> {
    match url {
        Some(u) => u@,
        None => missing_url(),
    }
}

/// A song as a link, with a mention of the user who asked for it.
pub open spec fn song_text(title: Option<String>, url: Option<String>, user: u64) -> Seq<char> {
    "["@ + shown_title(title) + "]("@ + shown_url(url) + ") [<@"@ + decimal(user as nat) + ">]"@
}

/// Whether the title to show can be cut where it has to be.
pub open spec fn title_fits(title: Option<String>) -> bool {
    match title {
        Some(t) => can_be_cut(t@),
        None => true,
    }
}

/// The title to show for a song.
fn shown_title_of(title: &Option<String>) -> (shown: String)
    requires
        title_fits(*title),
    ensures
        shown@ == shown_title(*title),
{
    match title {
        Some(t) => clean_title(t.clone()),
        None => {
            let mut missing = String::new();
            push_text(&mut missing, "N/A");
            assert(missing@ =~= missing_title());
            missing
        },
    }
}

/// Appends a song as a link, with a mention of the user who asked for it.
fn push_song(out: &mut String, title: &Option<String>, url: &Option<String>, user: u64)
    requires
        title_fits(*title),
    ensures
        final(out)@ == old(out)@ + song_text(*title, *url, user),
{
    let shown = shown_title_of(title);
    push_text(out, "[");
    push_text(out, shown.as_str());
    push_text(out, "](");
    match url {
        Some(u) => push_text(out, u.as_str()),
        None => push_text(out, "https://www.zombo.com/"),
    }
    push_text(out, ") [<@");
    push_decimal(out, user);
    push_text(out, ">]");
    assert(out@ =~= old(out)@ + song_text(*title, *url, user));
}

/// The words for a song that starts to play.
pub fn playing_song(title: &Option<String>, url: &Option<String>, user: u64) -> (words: String)
    requires
        title_fits(*title),
    ensures
        words@ == "Playing "@ + song_text(*title, *url, user),
{
    let mut words = String::new();
    push_text(&mut words, "Playing ");
    push_song(&mut words, title, url, user);
    assert(words@ =~= "Playing "@ + song_text(*title, *url, user));
    words
}

/// The words for a song queued to play next.
pub fn queued_top(title: &Option<String>, url: &Option<String>, user: u64) -> (words: String)
    requires
        title_fits(*title),
    ensures
        words@ == "Queued `Position 1` "@ + song_text(*title, *url, user),
{
    let mut words = String::new();
    push_text(&mut words, "Queued `Position 1` ");
    push_song(&mut words, title, url, user);
    assert(words@ =~= "Queued `Position 1` "@ + song_text(*title, *url, user));
    words
}

/// The words for a song queued at `position`.
pub fn queued(position: usize, title: &Option<String>, url: &Option<String>, user: u64) -> (words:
    String)
    requires
        title_fits(*title),
    ensures
        words@ == "Queued `Position "@ + decimal(position as nat) + "`  "@ + song_text(
            *title,
            *url,
            user,
        ),
{
    let mut words = String::new();
    push_text(&mut words, "Queued `Position ");
    push_decimal(&mut words, position as u64);
    push_text(&mut words, "`  ");
    push_song(&mut words, title, url, user);
    assert(words@ =~= "Queued `Position "@ + decimal(position as nat) + "`  "@ + song_text(
        *title,
        *url,
        user,
    ));
    words
}

/// Slots of the progress bar.
pub const BAR_SLOTS: usize = 20;

/// The progress bar with its dot in the slot `dot`.
pub open spec fn bar_text(dot: int) -> Seq<char> {
    Seq::new(
        BAR_SLOTS as nat,
        |i: int|
            if i == dot {
                '\u{1F535}'
            } else {
                '\u{25AC}'
            },
    )
}

/// The line under the now-playing song: the progress bar, and how far
/// into the song playback is, out of its duration.
pub open spec fn progress_text(dot: int, position_secs: u64, duration_secs: u64) -> Seq<char> {
    bar_text(dot) + " "@ + seconds_text(position_secs) + "/"@ + seconds_text(duration_secs)
}

/// The line under the now-playing song, with the dot of the progress bar
/// in the slot `dot`, which the bar has.
pub fn progress_line(dot: usize, position_secs: u64, duration_secs: u64) -> (words: String)
    requires
        dot < BAR_SLOTS,
    ensures
        words@ == progress_text(dot as int, position_secs, duration_secs),
{
    let mut words = String::new();
    let mut i: usize = 0;
    while i < BAR_SLOTS
        invariant
            i <= BAR_SLOTS,
            words@ == bar_text(dot as int).take(i as int),
        decreases BAR_SLOTS - i,
    {
        if i == dot {
            push_char(&mut words, '\u{1F535}');
        } else {
            push_char(&mut words, '\u{25AC}');
        }
        i += 1;
        assert(words@ =~= bar_text(dot as int).take(i as int));
    }
    assert(words@ =~= bar_text(dot as int));
    let position = seconds_to_string(position_secs);
    let duration = seconds_to_string(duration_secs);
    push_text(&mut words, " ");
    push_text(&mut words, position.as_str());
    push_text(&mut words, "/");
    push_text(&mut words, duration.as_str());
    assert(words@ =~= progress_text(dot as int, position_secs, duration_secs));
    words
}

/// The now-playing song as a link, with a mention of who asked for it, or
/// `N/A` where nobody is known to have.
pub open spec fn now_playing_text(title: Option<String>, url: Option<String>, user: Option<u64>) -> Seq<
    char,
> {
    let mention = match user {
        Some(id) => "<@"@ + decimal(id as nat) + ">"@,
        None => "N/A"@,
    };
    "["@ + shown_title(title) + "]("@ + shown_url(url) + ") ["@ + mention + "]"@
}

/// The words that name the now-playing song.
pub fn now_playing(title: &Option<String>, url: &Option<String>, user: Option<u64>) -> (words: String)
    requires
        title_fits(*title),
    ensures
        words@ == now_playing_text(*title, *url, user),
{
    let shown = shown_title_of(title);
    let mut words = String::new();
    push_text(&mut words, "[");
    push_text(&mut words, shown.as_str());
    push_text(&mut words, "](");
    match url {
        Some(u) => push_text(&mut words, u.as_str()),
        None => push_text(&mut words, "https://www.zombo.com/"),
    }
    push_text(&mut words, ") [");
    match user {
        Some(id) => {
            push_text(&mut words, "<@");
            push_decimal(&mut words, id);
            push_text(&mut words, ">");
        },
        None => {
            push_text(&mut words, "N/A");
        },
    }
    push_text(&mut words, "]");
    assert(words@ =~= now_playing_text(*title, *url, user));
    words
}

/// A notice to a user.
#[derive(Debug)]
pub enum Notice {
    Source,
    /// So many tracks were queued.
    QueuedMultiple(usize),
    /// The bot joined the voice channel with this id.
    Connected(u64),
    /// So many songs were skipped.
    SkippedTo(usize),
    Skipped,
    QueueCleared,
    BotLeft,
    Shuffled,
    /// The DJ role, with this id, is needed.
    NeedDj(u64),
    NoDj,
    BotMissing,
    NotPlaying,
    UserMissing,
    CannotJoin,
    IndexOor,
    InvalidIndex,
    UrlError,
    UrlMissing,
    SearchError,
    TrackError,
    AlreadyInVc,
    CantShuffle0,
    CantShuffle1,
    /// The command prefix was changed to this.
    ChangedPrefix(String),
    /// The command prefix is this.
    CurrentPrefix(String),
}

impl Notice {
    /// The words of this notice.
    pub open spec fn spec_text(self) -> Seq<char> {
        match self {
            Notice::Source => "[Stride on github](https://github.com/DontStarve72/stride)"@,
            Notice::QueuedMultiple(count) => "Queued **"@ + decimal(count as nat) + "** tracks."@,
            Notice::Connected(channel) => "Joined <#"@ + decimal(channel as nat) + ">"@,
            Notice::SkippedTo(amount) => "Skipped "@ + decimal(amount as nat) + " songs."@,
            Notice::Skipped => "Song skipped."@,
            Notice::QueueCleared => "Queue cleared."@,
            Notice::BotLeft => "Left the voice channel."@,
            Notice::Shuffled => "Shuffled the queue."@,
            Notice::NeedDj(role) => "You need the the <@&"@ + decimal(role as nat)
                + "> role to run this command."@,
            Notice::NoDj => "You need the a `DJ` role to run this command, but no such role has been configured."@,
            Notice::BotMissing => "The bot is not connected to a voice channel."@,
            Notice::NotPlaying => "The bot is not currently playing anything."@,
            Notice::UserMissing => "You are not in any voice channels."@,
            Notice::CannotJoin => "Could not join the voice channel. (Insufficient permissions?)."@,
            Notice::IndexOor => "Index out of range."@,
            Notice::InvalidIndex => "Invaid index."@,
            Notice::UrlError => "Issue retrieving content from url. (Invalid URL, Geo-Blocked, Age-Restricted content.)"@,
            Notice::UrlMissing => "Must provide a query or a url"@,
            Notice::SearchError => "Issue retrieving content from search. (Geo-Blocked, Age-Restricted content.)"@,
            Notice::TrackError => "Couldn't get the info of the currently playing track."@,
            Notice::AlreadyInVc => "Could not join voice channel (Already connected)."@,
            Notice::CantShuffle0 => "No songs in the queue to shuffle."@,
            Notice::CantShuffle1 => "Cannot shuffle 1 song."@,
            Notice::ChangedPrefix(prefix) => "Changed the command prefix to: "@ + prefix@,
            Notice::CurrentPrefix(prefix) => "Changed the command prefix to: "@ + prefix@,
        }
    }

    /// The colour of this notice: red for what went wrong, blue for settings.
    pub open spec fn spec_color(self) -> Color {
        match self {
            Notice::Source
            | Notice::QueuedMultiple(_)
            | Notice::Connected(_)
            | Notice::SkippedTo(_)
            | Notice::Skipped
            | Notice::QueueCleared
            | Notice::BotLeft
            | Notice::Shuffled => Color::Default,
            Notice::ChangedPrefix(_) | Notice::CurrentPrefix(_) => Color::Setting,
            _ => Color::Error,
        }
    }

    /// The words of this notice.
    pub fn text(&self) -> (words: String)
        ensures
            words@ == self.spec_text(),
    {
        let mut words = String::new();
        match self {
            Notice::Source => push_text(
                &mut words,
                "[Stride on github](https://github.com/DontStarve72/stride)",
            ),
            Notice::QueuedMultiple(count) => {
                push_text(&mut words, "Queued **");
                push_decimal(&mut words, *count as u64);
                push_text(&mut words, "** tracks.");
            },
            Notice::Connected(channel) => {
                push_text(&mut words, "Joined <#");
                push_decimal(&mut words, *channel);
                push_text(&mut words, ">");
            },
            Notice::SkippedTo(amount) => {
                push_text(&mut words, "Skipped ");
                push_decimal(&mut words, *amount as u64);
                push_text(&mut words, " songs.");
            },
            Notice::Skipped => push_text(&mut words, "Song skipped."),
            Notice::QueueCleared => push_text(&mut words, "Queue cleared."),
            Notice::BotLeft => push_text(&mut words, "Left the voice channel."),
            Notice::Shuffled => push_text(&mut words, "Shuffled the queue."),
            Notice::NeedDj(role) => {
                push_text(&mut words, "You need the the <@&");
                push_decimal(&mut words, *role);
                push_text(&mut words, "> role to run this command.");
            },
            Notice::NoDj => push_text(
                &mut words,
                "You need the a `DJ` role to run this command, but no such role has been configured.",
            ),
            Notice::BotMissing => push_text(
                &mut words,
                "The bot is not connected to a voice channel.",
            ),
            Notice::NotPlaying => push_text(&mut words, "The bot is not currently playing anything."),
            Notice::UserMissing => push_text(&mut words, "You are not in any voice channels."),
            Notice::CannotJoin => push_text(
                &mut words,
                "Could not join the voice channel. (Insufficient permissions?).",
            ),
            Notice::IndexOor => push_text(&mut words, "Index out of range."),
            Notice::InvalidIndex => push_text(&mut words, "Invaid index."),
            Notice::UrlError => push_text(
                &mut words,
                "Issue retrieving content from url. (Invalid URL, Geo-Blocked, Age-Restricted content.)",
            ),
            Notice::UrlMissing => push_text(&mut words, "Must provide a query or a url"),
            Notice::SearchError => push_text(
                &mut words,
                "Issue retrieving content from search. (Geo-Blocked, Age-Restricted content.)",
            ),
            Notice::TrackError => push_text(
                &mut words,
                "Couldn't get the info of the currently playing track.",
            ),
            Notice::AlreadyInVc => push_text(
                &mut words,
                "Could not join voice channel (Already connected).",
            ),
            Notice::CantShuffle0 => push_text(&mut words, "No songs in the queue to shuffle."),
            Notice::CantShuffle1 => push_text(&mut words, "Cannot shuffle 1 song."),
            Notice::ChangedPrefix(prefix) => {
                push_text(&mut words, "Changed the command prefix to: ");
                push_text(&mut words, prefix.as_str());
            },
            Notice::CurrentPrefix(prefix) => {
                push_text(&mut words, "Changed the command prefix to: ");
                push_text(&mut words, prefix.as_str());
            },
        }
        assert(words@ =~= self.spec_text());
        words
    }

    /// The colour of this notice.
    pub fn color(&self) -> (c: Color)
        ensures
            c == self.spec_color(),
    {
        match self {
            Notice::Source
            | Notice::QueuedMultiple(_)
            | Notice::Connected(_)
            | Notice::SkippedTo(_)
            | Notice::Skipped
            | Notice::QueueCleared
            | Notice::BotLeft
            | Notice::Shuffled => Color::Default,
            Notice::ChangedPrefix(_) | Notice::CurrentPrefix(_) => Color::Setting,
            _ => Color::Error,
        }
    }
}

} // verus!
