use stride::commands::{
    has_dj, join_fn, leave, queue, queue_page_fits, JoinRefusal, PermissionError,
};
use stride::error::QueueError;
use stride::queue::AppendMode;
use stride::registry::SessionRegistry;
use stride::session::{ConnectionState, Session, SessionError};
use stride::track::TrackMetadata;

fn track(name: &str, uri: Option<&str>, length: u64) -> TrackMetadata {
    TrackMetadata {
        identifier: format!("id-{}", name),
        title: name.to_string(),
        author: "someone".to_string(),
        uri: uri.map(|u| u.to_string()),
        length,
    }
}

fn connected(tracks: Vec<TrackMetadata>) -> Session {
    let mut s = Session::new(1, None);
    s.begin_connect().unwrap();
    s.finish_connect(Some(55));
    if !tracks.is_empty() {
        s.play(tracks, 7, AppendMode::Tail).unwrap();
    }
    s
}

fn numbered(count: usize) -> Vec<TrackMetadata> {
    (0..count).map(|i| track(&format!("T{}", i), None, 1_000)).collect()
}

#[test]
fn queue_page_with_only_now_playing() {
    let s = connected(vec![track("A", Some("http://a"), 61_000)]);
    let page = queue(&s, None).unwrap();
    assert_eq!(page.description, "**Now Playing**: [A](http://a) `01:01`\n\n");
    assert_eq!(page.footer, "Page 1/1 | 0 song(s) in queue | 01:01 total duration");
}

#[test]
fn queue_page_lists_up_next() {
    let s = connected(vec![
        track("A", None, 61_000),
        track("B", Some("http://b"), 1_000),
        track("C", None, 3_600_000),
    ]);
    let page = queue(&s, Some(1)).unwrap();
    assert_eq!(
        page.description,
        "**Now Playing**: A `01:01`\n\n**Up Next**\n**1.** [B](http://b) `00:01`\n**2.** C `01:00:00`\n"
    );
    assert_eq!(page.footer, "Page 1/1 | 2 song(s) in queue | 01:01:02 total duration");
}

#[test]
fn queue_pages_hold_ten_entries() {
    let s = connected(numbered(26));
    let first = queue(&s, Some(1)).unwrap();
    assert!(first.description.contains("**1.** T1 `00:01`\n"));
    assert!(first.description.ends_with("**10.** T10 `00:01`\n"));
    assert!(!first.description.contains("**11.**"));
    assert_eq!(first.footer, "Page 1/3 | 25 song(s) in queue | 00:11 total duration");
    let second = queue(&s, Some(2)).unwrap();
    assert!(second.description.starts_with("**Now Playing**: T0 `00:01`\n\n**Up Next**\n**11.** T11 `00:01`\n"));
    assert!(second.description.ends_with("**20.** T20 `00:01`\n"));
    assert_eq!(second.footer, "Page 2/3 | 25 song(s) in queue | 00:11 total duration");
    let third = queue(&s, Some(3)).unwrap();
    assert!(third.description.starts_with("**Now Playing**: T0 `00:01`\n\n**Up Next**\n**21.** T21 `00:01`\n"));
    assert!(third.description.ends_with("**25.** T25 `00:01`\n"));
    assert_eq!(third.footer, "Page 3/3 | 25 song(s) in queue | 00:06 total duration");
}

#[test]
fn queue_page_with_exactly_ten() {
    let s = connected(numbered(11));
    let page = queue(&s, None).unwrap();
    assert!(page.description.ends_with("**10.** T10 `00:01`\n"));
    assert_eq!(page.footer, "Page 1/1 | 10 song(s) in queue | 00:11 total duration");
    assert_eq!(queue(&s, Some(2)).unwrap_err(), SessionError::InvalidPage);
}

#[test]
fn queue_page_errors() {
    let idle = Session::new(1, None);
    assert_eq!(queue(&idle, None).unwrap_err(), SessionError::NotConnected);
    let empty = connected(Vec::new());
    assert_eq!(queue(&empty, None).unwrap_err(), SessionError::Queue(QueueError::EmptyQueue));
    let s = connected(numbered(3));
    assert_eq!(queue(&s, Some(0)).unwrap_err(), SessionError::InvalidPage);
    assert_eq!(queue(&s, Some(2)).unwrap_err(), SessionError::InvalidPage);
    assert_eq!(queue(&s, Some(usize::MAX)).unwrap_err(), SessionError::InvalidPage);
}

#[test]
fn queue_page_stops_at_two_thousand_bytes() {
    // The now-playing line has 28 bytes, the heading 12, a line 16 and its title.
    let head = track("H", None, 1_000);
    let first_title = "x".repeat(2000 - 28 - 12 - 16);
    let s = connected(vec![head, track(&first_title, None, 1_000), track("B", None, 1_000)]);
    let page = queue(&s, None).unwrap();
    assert_eq!(page.description.len(), 2000);
    assert!(!page.description.contains("**2.**"));
    assert_eq!(page.footer, "Page 1/1 | 2 song(s) in queue | 00:02 total duration");
    let longer = "x".repeat(2000 - 28 - 12 - 16 + 1);
    let s = connected(vec![track("H", None, 1_000), track(&longer, None, 1_000), track("B", None, 1_000)]);
    let page = queue(&s, None).unwrap();
    assert!(page.description.ends_with("**2.** B `00:01`\n"));
    assert_eq!(page.footer, "Page 1/1 | 2 song(s) in queue | 00:03 total duration");
}

#[test]
fn queue_page_fits_checks_durations() {
    let s = connected(numbered(5));
    assert!(queue_page_fits(&s, None));
    assert!(queue_page_fits(&s, Some(9)));
    let long = connected(vec![track("A", None, u64::MAX), track("B", None, 1)]);
    assert!(!queue_page_fits(&long, None));
    let edge = connected(vec![track("A", None, u64::MAX - 1), track("B", None, 1)]);
    assert!(queue_page_fits(&edge, None));
    let page = queue(&edge, None).unwrap();
    assert_eq!(
        page.footer,
        "Page 1/1 | 1 song(s) in queue | 581,736,521,108,504,400,336,000:00:04:14:25:51 total duration"
    );
    let alone = connected(vec![track("A", None, u64::MAX)]);
    assert!(queue_page_fits(&alone, None));
    let huge = connected(vec![track("A", None, u64::MAX), track("B", None, u64::MAX)]);
    assert!(!queue_page_fits(&huge, None));
    let other_page = connected({
        let mut v = numbered(11);
        v.push(track("L", None, u64::MAX));
        v
    });
    assert!(queue_page_fits(&other_page, Some(1)));
    assert!(!queue_page_fits(&other_page, Some(2)));
    assert!(queue_page_fits(&Session::new(1, None), None));
}

#[test]
fn join_decisions() {
    let mut s = Session::new(1, None);
    assert_eq!(join_fn(&mut s, None), Err(JoinRefusal::UserMissing));
    assert_eq!(s.connection_state(), ConnectionState::Disconnected);
    assert_eq!(join_fn(&mut s, Some(8)), Ok(8));
    assert_eq!(s.connection_state(), ConnectionState::Connecting);
    assert_eq!(join_fn(&mut s, Some(8)), Err(JoinRefusal::AlreadyInVoice));
    s.finish_connect(Some(8));
    assert_eq!(join_fn(&mut s, None), Err(JoinRefusal::AlreadyInVoice));
    assert_eq!(s.connection_state(), ConnectionState::Connected(8));
}

#[test]
fn dj_checks() {
    assert_eq!(has_dj(None, Some(true)), Err(PermissionError::NoDj));
    assert_eq!(has_dj(None, None), Err(PermissionError::NoDj));
    assert_eq!(has_dj(Some(4), Some(true)), Ok(()));
    assert_eq!(has_dj(Some(4), Some(false)), Err(PermissionError::NeedDj(4)));
    assert_eq!(has_dj(Some(4), None), Err(PermissionError::Unknown));
}

#[test]
fn leave_forgets_the_session() {
    let mut r = SessionRegistry::new();
    assert_eq!(leave(&mut r, 5), Err(SessionError::NotConnected));
    r.get_or_create(5);
    assert_eq!(leave(&mut r, 5), Ok(()));
    assert!(!r.contains(5));
    assert_eq!(leave(&mut r, 5), Err(SessionError::NotConnected));
}
