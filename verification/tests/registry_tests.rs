use stride::queue::AppendMode;
use stride::registry::SessionRegistry;
use stride::session::ConnectionState;
use stride::track::TrackMetadata;

fn track(name: &str) -> TrackMetadata {
    TrackMetadata {
        identifier: format!("id-{}", name),
        title: name.to_string(),
        author: "someone".to_string(),
        uri: None,
        length: 1000,
    }
}

#[test]
fn get_or_create_makes_one_session_per_guild() {
    let mut r = SessionRegistry::new();
    assert_eq!(r.len(), 0);
    assert!(!r.contains(5));
    assert!(r.get(5).is_none());
    {
        let s = r.get_or_create(5);
        assert_eq!(s.guild_id(), 5);
        s.begin_connect().unwrap();
        s.finish_connect(Some(9));
        s.play(vec![track("A")], 1, AppendMode::Tail).unwrap();
    }
    assert_eq!(r.len(), 1);
    {
        let again = r.get_or_create(5);
        assert_eq!(again.connection_state(), ConnectionState::Connected(9));
        assert_eq!(again.queue().len(), 0);
        assert!(again.now_playing().is_some());
    }
    assert_eq!(r.len(), 1);
    r.get_or_create(6);
    assert_eq!(r.len(), 2);
    assert_eq!(r.get(6).unwrap().connection_state(), ConnectionState::Disconnected);
    assert!(r.get(5).unwrap().now_playing().is_some());
}

#[test]
fn destroy_forgets_the_session() {
    let mut r = SessionRegistry::new();
    r.get_or_create(5);
    r.get_or_create(6);
    assert!(r.destroy(5));
    assert!(!r.destroy(5));
    assert!(!r.contains(5));
    assert!(r.contains(6));
    assert_eq!(r.len(), 1);
    assert_eq!(r.get_or_create(5).queue().next_stable_id(), 0);
}

#[test]
fn idle_session_is_reaped_after_grace() {
    let mut r = SessionRegistry::new();
    {
        let s = r.get_or_create(5);
        s.begin_connect().unwrap();
        s.finish_connect(Some(9));
    }
    assert!(!r.reap_if_idle(5, 0, 100, 600));
    assert!(r.contains(5));
    assert!(!r.reap_if_idle(5, 0, 699, 600));
    assert!(r.reap_if_idle(5, 0, 700, 600));
    assert!(!r.contains(5));
    assert!(!r.reap_if_idle(5, 0, 9000, 600));
}

#[test]
fn busy_session_is_not_reaped() {
    let mut r = SessionRegistry::new();
    {
        let s = r.get_or_create(5);
        s.begin_connect().unwrap();
        s.finish_connect(Some(9));
        s.play(vec![track("A")], 1, AppendMode::Tail).unwrap();
    }
    assert!(!r.reap_if_idle(5, 0, 100, 600));
    assert!(!r.reap_if_idle(5, 0, 10_000, 600));
    assert!(!r.reap_if_idle(5, 2, 20_000, 600));
    assert!(r.contains(5));
    assert!(r.get(5).unwrap().now_playing().is_some());
}
