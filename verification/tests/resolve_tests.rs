use stride::resolve::{search_query, select_tracks, LoadResult, ResolveError};
use stride::track::TrackMetadata;

fn track(name: &str) -> TrackMetadata {
    TrackMetadata {
        identifier: format!("id-{}", name),
        title: name.to_string(),
        author: "someone".to_string(),
        uri: None,
        length: 1000,
    }
}

#[test]
fn addresses_are_loaded_as_they_are() {
    assert_eq!(search_query("http://example.org/a").unwrap(), "http://example.org/a");
    assert_eq!(search_query("https://example.org/a").unwrap(), "https://example.org/a");
    assert_eq!(search_query("http").unwrap(), "http");
}

#[test]
fn other_text_is_searched_on_youtube() {
    assert_eq!(search_query("never gonna").unwrap(), "ytsearch:never gonna");
    assert_eq!(search_query("htt").unwrap(), "ytsearch:htt");
    assert_eq!(search_query("HTTP://x").unwrap(), "ytsearch:HTTP://x");
    assert_eq!(search_query(" http://x").unwrap(), "ytsearch: http://x");
}

#[test]
fn empty_query_is_refused() {
    assert_eq!(search_query("").unwrap_err(), ResolveError::EmptyQuery);
}

#[test]
fn one_track_is_selected() {
    let s = select_tracks(LoadResult::Track(track("A"))).unwrap();
    assert_eq!(s.tracks.len(), 1);
    assert_eq!(s.tracks[0].title, "A");
    assert!(s.playlist.is_none());
}

#[test]
fn best_search_result_is_selected() {
    let s = select_tracks(LoadResult::Search(vec![track("A"), track("B")])).unwrap();
    assert_eq!(s.tracks.len(), 1);
    assert_eq!(s.tracks[0].title, "A");
    assert!(s.playlist.is_none());
}

#[test]
fn playlist_is_selected_whole() {
    let s = select_tracks(LoadResult::Playlist {
        name: "Mix".to_string(),
        tracks: vec![track("A"), track("B"), track("C")],
    })
    .unwrap();
    let titles: Vec<&str> = s.tracks.iter().map(|t| t.title.as_str()).collect();
    assert_eq!(titles, vec!["A", "B", "C"]);
    let summary = s.playlist.unwrap();
    assert_eq!(summary.name, "Mix");
    assert_eq!(summary.count, 3);
}

#[test]
fn nothing_loaded_is_an_error() {
    assert_eq!(select_tracks(LoadResult::Nothing).unwrap_err(), ResolveError::NoResults);
    assert_eq!(select_tracks(LoadResult::Search(Vec::new())).unwrap_err(), ResolveError::NoResults);
    assert_eq!(
        select_tracks(LoadResult::Playlist { name: "Mix".to_string(), tracks: Vec::new() })
            .unwrap_err(),
        ResolveError::NoResults
    );
}
