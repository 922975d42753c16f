use ncspot_mpris::dispatch::{dispatch, enqueue_plan, reversed, Command, EngineCall, QueueCall, Snapshot};
use ncspot_mpris::manager::MprisManager;
use ncspot_mpris::mapper::{
    complete_playable, full_track_lookup, get_playbackstatus, position_micros, loop_status, metadata, parse_loop_status,
    playback_status, status_name, track_id_path,
};
use ncspot_mpris::model::{Episode, LoopMode, Playable, PlaybackStatus, PlayerEvent, Track};
use ncspot_mpris::resolver::{canonical_from_groups, parse_canonical, resolve_uri, UriKind};
use ncspot_mpris::text::{contains, replace_colons, rfind_char, same_text, starts_with};

fn track(id: &str, cover: Option<&str>) -> Track {
    Track {
        id: Some(id.to_string()),
        title: "Song".to_string(),
        duration: 180_000,
        cover_url: cover.map(|c| c.to_string()),
        url: Some(format!("https://open.spotify.com/track/{}", id)),
        album: Some("Album".to_string()),
        album_artists: vec!["Band".to_string()],
        artists: vec!["Band".to_string(), "Guest".to_string()],
        disc_number: 1,
        track_number: 7,
    }
}

fn episode(id: &str) -> Episode {
    Episode {
        id: Some(id.to_string()),
        name: format!("Episode {}", id),
        duration: 60_000,
        cover_url: None,
        url: None,
    }
}

fn snap(progress_ms: u64, duration: Option<u32>) -> Snapshot {
    Snapshot { progress_ms, current_duration: duration }
}

fn episode_ids(items: &[Playable]) -> Vec<String> {
    items
        .iter()
        .map(|p| match p {
            Playable::Episode(e) => e.id.clone().unwrap(),
            Playable::Track(t) => t.id.clone().unwrap(),
        })
        .collect()
}

#[test]
fn status_of_each_event() {
    assert_eq!(playback_status(PlayerEvent::Playing), PlaybackStatus::Playing);
    assert_eq!(playback_status(PlayerEvent::FinishedTrack), PlaybackStatus::Playing);
    assert_eq!(playback_status(PlayerEvent::Paused), PlaybackStatus::Paused);
    assert_eq!(playback_status(PlayerEvent::Stopped), PlaybackStatus::Stopped);
    assert_eq!(get_playbackstatus(PlayerEvent::FinishedTrack), "Playing");
    assert_eq!(get_playbackstatus(PlayerEvent::Paused), "Paused");
    assert_eq!(status_name(PlaybackStatus::Stopped), "Stopped");
}

#[test]
fn loop_status_round_trips() {
    assert_eq!(loop_status(parse_loop_status("Track")), "Track");
    assert_eq!(loop_status(parse_loop_status("Playlist")), "Playlist");
    assert_eq!(loop_status(parse_loop_status("None")), "None");
    assert_eq!(parse_loop_status("Shuffle"), LoopMode::Off);
    assert_eq!(loop_status(parse_loop_status("Shuffle")), "None");
    assert_eq!(loop_status(parse_loop_status("")), "None");
}

#[test]
fn track_path_replaces_colons() {
    let p = Some(Playable::Track(track("abc", None)));
    assert_eq!(track_id_path(&p), "/org/ncspot/spotify/track/abc");
    let e = Some(Playable::Episode(episode("e1")));
    assert_eq!(track_id_path(&e), "/org/ncspot/spotify/episode/e1");
}

#[test]
fn track_path_sentinel_for_ids_no_path_can_hold() {
    for id in ["a-b", "", "x::y", "a b", "caf\u{e9}"] {
        let p = Some(Playable::Track(track(id, None)));
        assert_eq!(track_id_path(&p), "/org/ncspot/0", "id {:?}", id);
    }
    let p = Some(Playable::Track(track("Ab_09", None)));
    assert_eq!(track_id_path(&p), "/org/ncspot/spotify/track/Ab_09");
}

#[test]
fn numbers_beyond_int32_are_clamped() {
    let mut t = track("abc", Some("https://img/1"));
    t.disc_number = u32::MAX;
    t.track_number = (i32::MAX as u32) + 1;
    let m = metadata(Some(Playable::Track(t)), false);
    assert_eq!(m.disc_number, i32::MAX);
    assert_eq!(m.track_number, i32::MAX);
}

#[test]
fn position_in_microseconds() {
    assert_eq!(position_micros(0), 0);
    assert_eq!(position_micros(4_999), 4_999_000);
    assert_eq!(position_micros(u64::MAX), i64::MAX);
    assert_eq!(position_micros(i64::MAX as u64 / 1000), (i64::MAX / 1000) * 1000);
}

#[test]
fn track_path_sentinel_without_id() {
    assert_eq!(track_id_path(&None), "/org/ncspot/0");
    let mut t = track("abc", None);
    t.id = None;
    assert_eq!(track_id_path(&Some(Playable::Track(t))), "/org/ncspot/0");
}

#[test]
fn metadata_of_nothing_has_defaults() {
    let m = metadata(None, true);
    assert_eq!(m.track_id, "/org/ncspot/0");
    assert_eq!(m.length, 0);
    assert_eq!(m.art_url, "");
    assert_eq!(m.album, "");
    assert!(m.album_artists.is_empty());
    assert!(m.artists.is_empty());
    assert_eq!(m.disc_number, 0);
    assert_eq!(m.title, "");
    assert_eq!(m.track_number, 0);
    assert_eq!(m.url, "");
    assert!(!m.saved);
}

#[test]
fn metadata_of_track() {
    let m = metadata(Some(Playable::Track(track("abc", Some("https://img/1")))), true);
    assert_eq!(m.track_id, "/org/ncspot/spotify/track/abc");
    assert_eq!(m.length, 180_000_000);
    assert_eq!(m.art_url, "https://img/1");
    assert_eq!(m.album, "Album");
    assert_eq!(m.album_artists, vec!["Band".to_string()]);
    assert_eq!(m.artists, vec!["Band".to_string(), "Guest".to_string()]);
    assert_eq!(m.disc_number, 1);
    assert_eq!(m.title, "Song");
    assert_eq!(m.track_number, 7);
    assert_eq!(m.url, "https://open.spotify.com/track/abc");
    assert!(m.saved);
}

#[test]
fn metadata_of_episode() {
    let m = metadata(Some(Playable::Episode(episode("e1"))), true);
    assert_eq!(m.track_id, "/org/ncspot/spotify/episode/e1");
    assert_eq!(m.length, 60_000_000);
    assert_eq!(m.title, "Episode e1");
    assert_eq!(m.album, "");
    assert!(m.artists.is_empty());
    assert_eq!(m.art_url, "");
    assert!(!m.saved);
}

#[test]
fn cover_less_track_is_completed() {
    let bare = Some(Playable::Track(track("abc", None)));
    assert_eq!(full_track_lookup(&bare), Some("abc".to_string()));
    let full = track("abc", Some("https://img/2"));
    let done = complete_playable(bare.clone(), Some(full));
    assert_eq!(metadata(done, false).art_url, "https://img/2");
    let kept = complete_playable(bare, None);
    assert_eq!(metadata(kept, false).art_url, "");
    let covered = Some(Playable::Track(track("abc", Some("https://img/1"))));
    assert_eq!(full_track_lookup(&covered), None);
    assert_eq!(full_track_lookup(&Some(Playable::Episode(episode("e")))), None);
}

#[test]
fn share_link_for_playlist_resolves() {
    let r = resolve_uri("https://open.spotify.com/playlist/37i9dQZF1DX").unwrap();
    assert_eq!(r.kind, UriKind::Playlist);
    assert_eq!(r.id, "37i9dQZF1DX");
    let r = resolve_uri("http://open.spotify.com/user/someone/album/4aawyAB").unwrap();
    assert_eq!(r.kind, UriKind::Album);
    assert_eq!(r.id, "4aawyAB");
}

#[test]
fn share_link_query_is_not_part_of_id() {
    let r = resolve_uri("https://open.spotify.com/show/5CfCWKI?si=a1b2c3").unwrap();
    assert_eq!(r.kind, UriKind::Show);
    assert_eq!(r.id, "5CfCWKI");
}

#[test]
fn malformed_share_link_resolves_to_nothing() {
    assert!(resolve_uri("https://open.spotify.com/").is_none());
    assert!(resolve_uri("see open.spotify.com/artist/abc").is_none());
    assert!(resolve_uri("hello").is_none());
    assert!(resolve_uri("").is_none());
    assert!(resolve_uri("spotify:unknown:abc").is_none());
}

#[test]
fn canonical_uris_resolve() {
    let r = resolve_uri("spotify:artist:0OdUWJ").unwrap();
    assert_eq!(r.kind, UriKind::Artist);
    assert_eq!(r.id, "0OdUWJ");
    let r = parse_canonical("spotify:user:me:playlist:xyz").unwrap();
    assert_eq!(r.kind, UriKind::Playlist);
    assert_eq!(r.id, "xyz");
    assert_eq!(parse_canonical("spotify:show:s1").unwrap().kind, UriKind::Show);
    assert_eq!(parse_canonical("spotify:episode:e1").unwrap().kind, UriKind::Episode);
    assert_eq!(parse_canonical("spotify:track:t1").unwrap().kind, UriKind::Track);
}

#[test]
fn canonical_from_match_groups() {
    let g = vec![Some("whole".to_string()), None, Some("show".to_string()), Some("abc".to_string()), None];
    assert_eq!(canonical_from_groups(Some(g)), Some("spotify:show:abc".to_string()));
    let short = vec![Some("whole".to_string())];
    assert_eq!(canonical_from_groups(Some(short)), None);
    assert_eq!(canonical_from_groups(None), None);
}

#[test]
fn previous_below_threshold_skips_back() {
    assert_eq!(dispatch(Command::Previous, snap(4999, Some(200_000))), vec![EngineCall::Previous]);
    assert_eq!(dispatch(Command::Previous, snap(0, None)), vec![EngineCall::Previous]);
}

#[test]
fn previous_at_threshold_restarts() {
    assert_eq!(dispatch(Command::Previous, snap(5000, Some(200_000))), vec![EngineCall::Seek(0)]);
    assert_eq!(dispatch(Command::Previous, snap(120_000, Some(200_000))), vec![EngineCall::Seek(0)]);
}

#[test]
fn seek_within_and_past_the_end() {
    assert_eq!(dispatch(Command::Seek(3_000_000), snap(10_000, Some(60_000))), vec![EngineCall::Seek(13_000)]);
    assert_eq!(dispatch(Command::Seek(50_000_000), snap(10_000, Some(60_000))), vec![EngineCall::Next]);
    assert_eq!(dispatch(Command::Seek(-20_000_000), snap(10_000, Some(60_000))), vec![EngineCall::Seek(0)]);
    assert_eq!(dispatch(Command::Seek(-1_999), snap(10_000, Some(60_000))), vec![EngineCall::Seek(9_999)]);
    assert_eq!(dispatch(Command::Seek(i64::MIN), snap(10_000, Some(60_000))), vec![EngineCall::Seek(0)]);
    assert!(dispatch(Command::Seek(1_000_000), snap(10_000, None)).is_empty());
}

#[test]
fn set_position_past_end_is_ignored() {
    assert!(dispatch(Command::SetPosition(60_000_000), snap(10_000, Some(60_000))).is_empty());
    assert_eq!(dispatch(Command::SetPosition(59_999_000), snap(10_000, Some(60_000))), vec![EngineCall::Seek(59_999)]);
    assert_eq!(dispatch(Command::SetPosition(-5_000_000), snap(10_000, Some(60_000))), vec![EngineCall::Seek(0)]);
    assert!(dispatch(Command::SetPosition(1_000), snap(10_000, None)).is_empty());
}

#[test]
fn transport_commands() {
    let s = snap(0, Some(1));
    assert_eq!(dispatch(Command::PlayPause, s), vec![EngineCall::TogglePlayback]);
    assert_eq!(dispatch(Command::Play, s), vec![EngineCall::Play]);
    assert_eq!(dispatch(Command::Pause, s), vec![EngineCall::Pause]);
    assert_eq!(dispatch(Command::Stop, s), vec![EngineCall::Stop]);
    assert_eq!(dispatch(Command::Next, s), vec![EngineCall::Next]);
    assert_eq!(dispatch(Command::Forward, s), vec![EngineCall::SeekRelative(5000)]);
    assert_eq!(dispatch(Command::Rewind, s), vec![EngineCall::SeekRelative(-5000)]);
}

#[test]
fn volume_out_of_range_only_refreshes() {
    let s = snap(0, None);
    assert_eq!(dispatch(Command::SetVolume(None), s), vec![EngineCall::Refresh]);
    assert_eq!(dispatch(Command::SetVolume(Some(32750)), s), vec![EngineCall::SetVolume(32750), EngineCall::Refresh]);
}

#[test]
fn shuffle_and_loop_writes() {
    let s = snap(0, None);
    assert_eq!(dispatch(Command::SetShuffle(Some(true)), s), vec![EngineCall::SetShuffle(true), EngineCall::Refresh]);
    assert_eq!(dispatch(Command::SetShuffle(None), s), vec![EngineCall::Refresh]);
    assert_eq!(dispatch(Command::SetLoopStatus("Track".to_string()), s), vec![EngineCall::SetRepeat(LoopMode::Track)]);
    assert_eq!(dispatch(Command::SetLoopStatus("bogus".to_string()), s), vec![EngineCall::SetRepeat(LoopMode::Off)]);
}

#[test]
fn show_episodes_enqueue_reversed() {
    let eps = vec![
        Playable::Episode(episode("E1")),
        Playable::Episode(episode("E2")),
        Playable::Episode(episode("E3")),
    ];
    let plan = enqueue_plan(UriKind::Show, Some(eps), true);
    assert_eq!(plan.len(), 3);
    assert!(matches!(plan[0], QueueCall::Clear));
    match &plan[1] {
        QueueCall::AppendNext(items) => assert_eq!(episode_ids(items), vec!["E3", "E2", "E1"]),
        _ => panic!("expected an insertion"),
    }
    assert!(matches!(plan[2], QueueCall::Play { at_inserted: true, shuffle: true }));
}

#[test]
fn playlist_enqueues_in_catalog_order() {
    let tracks = vec![Playable::Track(track("t1", None)), Playable::Track(track("t2", None))];
    let plan = enqueue_plan(UriKind::Playlist, Some(tracks), false);
    assert_eq!(plan.len(), 3);
    assert!(matches!(plan[0], QueueCall::Clear));
    match &plan[1] {
        QueueCall::AppendNext(items) => assert_eq!(episode_ids(items), vec!["t1", "t2"]),
        _ => panic!("expected an insertion"),
    }
    assert!(matches!(plan[2], QueueCall::Play { at_inserted: true, shuffle: false }));
}

#[test]
fn single_track_enqueues_at_head() {
    let plan = enqueue_plan(UriKind::Track, Some(vec![Playable::Track(track("t1", None))]), true);
    assert_eq!(plan.len(), 3);
    assert!(matches!(plan[0], QueueCall::Clear));
    assert!(matches!(&plan[1], QueueCall::Append(v) if v.len() == 1));
    assert!(matches!(plan[2], QueueCall::Play { at_inserted: false, shuffle: false }));
}

#[test]
fn failed_fetch_leaves_queue_alone() {
    assert!(enqueue_plan(UriKind::Album, None, true).is_empty());
    assert!(enqueue_plan(UriKind::Episode, None, false).is_empty());
}

#[test]
fn reversed_of_empty_and_many() {
    assert!(reversed(Vec::new()).is_empty());
    let v = vec![Playable::Track(track("a", None)), Playable::Track(track("b", None))];
    assert_eq!(episode_ids(&reversed(v)), vec!["b", "a"]);
}

#[test]
fn manager_keeps_latest_change() {
    let mut m = MprisManager::new();
    assert!(m.take().is_none());
    m.update(PlayerEvent::Paused, None);
    m.update(PlayerEvent::FinishedTrack, Some(Playable::Episode(episode("e1"))));
    let s = m.take().unwrap();
    assert_eq!(s.status, PlaybackStatus::Playing);
    assert!(matches!(s.current, Some(Playable::Episode(_))));
    assert!(m.take().is_none());
}

#[test]
fn text_helpers() {
    assert_eq!(replace_colons("a:b::c"), "a/b//c");
    assert_eq!(replace_colons(""), "");
    assert_eq!(rfind_char("a:b:c", ':'), Some(3));
    assert_eq!(rfind_char("abc", ':'), None);
    assert!(contains("xx open.spotify.com yy", "open.spotify.com"));
    assert!(!contains("open.spotify.co", "open.spotify.com"));
    assert!(contains("abc", ""));
    assert!(starts_with("spotify:track:1", "spotify:"));
    assert!(!starts_with("spot", "spotify:"));
    assert!(same_text("Track", "Track"));
    assert!(!same_text("Track", "Tracks"));
}
