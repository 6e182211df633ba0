use stride::responses::{
    moved_message, play_skip_message, played_message, removed_message, vote_message, Color,
    DefaultMessage, ErrorMessage, PlaylistSummary,
};
use stride::session::VoteOutcome;
use stride::track::TrackMetadata;

fn song(uri: Option<&str>) -> TrackMetadata {
    TrackMetadata {
        identifier: "enc".to_string(),
        title: "Song".to_string(),
        author: "Band".to_string(),
        uri: uri.map(|u| u.to_string()),
        length: 61_000,
    }
}

#[test]
fn colors() {
    assert_eq!(Color::Default.to_color(), (149, 165, 166));
    assert_eq!(Color::Error.to_color(), (231, 76, 60));
    assert_eq!(Color::Setting.to_color(), (13, 71, 161));
}

#[test]
fn default_messages() {
    assert_eq!(DefaultMessage::Skipped.text(), "Skipped track.");
    assert_eq!(DefaultMessage::SkippedTo(3).text(), "Skipped to track 3.");
    assert_eq!(DefaultMessage::SkippedTo(120).text(), "Skipped to track 120.");
    assert_eq!(DefaultMessage::Skipped.color(), Color::Default);
}

#[test]
fn error_messages() {
    assert_eq!(
        ErrorMessage::UserMissingFromVC.text(),
        "You need to be in a voice channel to use this command."
    );
    assert_eq!(
        ErrorMessage::BotCannotJoinVC("timed out".to_string()).text(),
        "Could not join the voice channel. timed out"
    );
    assert_eq!(
        ErrorMessage::BotNotInVC.text(),
        "You need to be in a voice channel to use this command."
    );
    assert_eq!(ErrorMessage::BotNotPlaying.text(), "There are no tracks currently playing.");
    assert_eq!(
        ErrorMessage::InvalidSkip.text(),
        "Tried to skip to an invaild position in the queue."
    );
    assert_eq!(
        ErrorMessage::InvalidMove.text(),
        "Tried to move a track to/from an invaid position."
    );
    assert_eq!(ErrorMessage::InvalidMove.color(), Color::Error);
}

#[test]
fn played_message_for_playlist() {
    let playlist = Some(PlaylistSummary { name: "Mix".to_string(), count: 12 });
    assert_eq!(
        played_message(&playlist, "http://x/list", &song(None), 4, 9),
        "Queued **12** tracks from playlist: [Mix](http://x/list)"
    );
    assert_eq!(
        play_skip_message(&playlist, "http://x/list", &song(None), 9),
        "Queued **12** tracks from playlist: [Mix](http://x/list)"
    );
}

#[test]
fn played_message_for_started_track() {
    assert_eq!(
        played_message(&None, "q", &song(Some("http://a")), 0, 42),
        "Started playing `01:01` [Song](http://a) - <@42>"
    );
    assert_eq!(
        played_message(&None, "q", &song(None), 0, 42),
        "Started playing `01:01` Song - <@42>"
    );
    assert_eq!(
        play_skip_message(&None, "q", &song(Some("http://a")), 42),
        "Started playing `01:01` [Song](http://a) - <@42>"
    );
}

#[test]
fn played_message_for_queued_track() {
    assert_eq!(
        played_message(&None, "q", &song(Some("http://a")), 3, 42),
        "Queued at position 3 `01:01` [Song](http://a) - <@42>"
    );
    assert_eq!(
        played_message(&None, "q", &song(None), 11, 18446744073709551615),
        "Queued at position 11 `01:01` Song - <@18446744073709551615>"
    );
}

#[test]
fn removed_and_moved_messages() {
    assert_eq!(removed_message(&song(Some("http://a"))), "Removed [Song](http://a) from the queue.");
    assert_eq!(removed_message(&song(None)), "Removed Song from the queue.");
    assert_eq!(
        moved_message(&song(Some("http://a")), 2, 4),
        "Moved [Band - Song](http://a) from position 2 to position 4."
    );
    assert_eq!(
        moved_message(&song(None), 10, 1),
        "Moved Band - Song from position 10 to position 1."
    );
}

#[test]
fn vote_messages() {
    assert_eq!(vote_message(VoteOutcome::Skipped), "Song skipped.");
    assert_eq!(
        vote_message(VoteOutcome::Progress { votes: 1, quorum: 2 }),
        "`Placeholder` Skipping 1/2 People"
    );
    assert_eq!(
        vote_message(VoteOutcome::AlreadyVoted { votes: 1, quorum: 2 }),
        "`Placeholder` You already voted 1/2 People"
    );
}

#[test]
fn played_message_for_the_longest_track() {
    let mut long = song(None);
    long.length = u64::MAX;
    assert_eq!(
        played_message(&None, "q", &long, 0, 1),
        "Started playing `581,736,521,108,504,400,336,000:00:04:14:25:51` Song - <@1>"
    );
}
