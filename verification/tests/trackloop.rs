use mpd_presence::presence::build_presence;
use mpd_presence::resolver::ArtworkResolver;
use mpd_presence::sync::{action_for, sync_step, SyncAction, SyncEvent, SyncState};
use mpd_presence::text::{has_http_prefix, join_path, replace_all, trimmed};
use mpd_presence::track::{album_from_tags, song_from_fields, SongInfo};

#[test]
fn missing_tags_surface_placeholders() {
    let s = song_from_fields(None, None, None, None);
    assert_eq!(s.title, "Unknown Title");
    assert_eq!(s.artist, "Unknown Artist");
    assert_eq!(s.album, "Unknown Album");
    assert_eq!(s.file_path, None);
}

#[test]
fn present_tags_pass_through() {
    let s = song_from_fields(
        Some("T".to_string()),
        Some("A".to_string()),
        Some("L".to_string()),
        Some("x/y.flac".to_string()),
    );
    assert_eq!(s.title, "T");
    assert_eq!(s.artist, "A");
    assert_eq!(s.album, "L");
    assert_eq!(s.file_path, Some("x/y.flac".to_string()));
}

#[test]
fn album_tag_lookup_takes_first_match() {
    let tags = vec![
        ("Genre".to_string(), "Rock".to_string()),
        ("Album".to_string(), "First".to_string()),
        ("Album".to_string(), "Second".to_string()),
    ];
    assert_eq!(album_from_tags(&tags), Some("First".to_string()));
    let none = vec![("Genre".to_string(), "Rock".to_string())];
    assert_eq!(album_from_tags(&none), None);
}

#[test]
fn join_path_inserts_one_separator() {
    assert_eq!(join_path("/music", "a/b.mp3"), "/music/a/b.mp3");
    assert_eq!(join_path("/music/", "a.mp3"), "/music/a.mp3");
    assert_eq!(join_path("/music", "/abs.mp3"), "/abs.mp3");
    assert_eq!(join_path("", "a.mp3"), "a.mp3");
}

#[test]
fn idle_daemon_pushes_nothing_and_touches_nothing() {
    let mut r = ArtworkResolver::new();
    let got = r.presence_for(&None, &"/music".to_string());
    assert!(got.is_none());
}

#[test]
fn stream_track_builds_payload_without_artwork() {
    let mut r = ArtworkResolver::new();
    let song = SongInfo {
        title: "T".to_string(),
        artist: "A".to_string(),
        album: "L".to_string(),
        file_path: None,
    };
    let got = r.presence_for(&Some(song), &"/music".to_string()).unwrap();
    assert_eq!(got.details, "T");
    assert_eq!(got.state, "A");
    assert_eq!(got.large_text, "L");
    assert_eq!(got.image_url, None);
}

#[test]
fn presence_payload_carries_track_fields() {
    let song = SongInfo {
        title: "Song".to_string(),
        artist: "Artist".to_string(),
        album: "Album".to_string(),
        file_path: None,
    };
    let p = build_presence(&song, Some("https://img".to_string()));
    assert_eq!(p.details, "Song");
    assert_eq!(p.state, "Artist");
    assert_eq!(p.large_text, "Album");
    assert_eq!(p.image_url, Some("https://img".to_string()));
}

#[test]
fn sync_transitions_follow_the_design() {
    assert_eq!(sync_step(SyncState::Connecting, SyncEvent::Connected), SyncState::Polling);
    assert_eq!(sync_step(SyncState::Connecting, SyncEvent::ConnectFailed), SyncState::Backoff);
    assert_eq!(sync_step(SyncState::Polling, SyncEvent::PolledIdle), SyncState::Waiting);
    assert_eq!(sync_step(SyncState::Polling, SyncEvent::PolledPushed), SyncState::Waiting);
    assert_eq!(sync_step(SyncState::Polling, SyncEvent::PollFailed), SyncState::Backoff);
    assert_eq!(sync_step(SyncState::Waiting, SyncEvent::Changed), SyncState::Polling);
    assert_eq!(sync_step(SyncState::Waiting, SyncEvent::WaitFailed), SyncState::Backoff);
    assert_eq!(sync_step(SyncState::Backoff, SyncEvent::Slept), SyncState::Connecting);
}

#[test]
fn each_state_asks_for_its_action() {
    assert_eq!(action_for(SyncState::Connecting), SyncAction::Connect);
    assert_eq!(action_for(SyncState::Polling), SyncAction::Poll);
    assert_eq!(action_for(SyncState::Waiting), SyncAction::Wait);
    assert_eq!(action_for(SyncState::Backoff), SyncAction::Sleep);
}

#[test]
fn text_helpers_behave() {
    assert_eq!(replace_all("abcabc", "b", "xy"), "axycaxyc");
    assert_eq!(replace_all("aaa", "aa", "b"), "ba");
    assert_eq!(trimmed(" \t hi \n"), "hi");
    assert_eq!(trimmed(""), "");
    assert!(has_http_prefix("http://x"));
    assert!(has_http_prefix("https://x"));
    assert!(!has_http_prefix("htt"));
    assert!(!has_http_prefix("ftp://x"));
}
