use spotiline::player::{
    item_info, play_first_step, playback_state, FoundItem, ItemKind, queue_step, search_kind, tracks_from_search, ApiCall, FoundTrack, PlaybackSnapshot,
    PlayerManager, PlayingItem, SearchKind, SearchOutcome, SearchStep, Step, SEARCH_LIMIT,
};
use spotiline::state::{IPCCommand, IPCResponse, PlaybackState, TrackInfo};

fn found(name: &str, artist: Option<&str>, id: Option<&str>, ms: i64) -> FoundTrack {
    FoundTrack {
        name: name.to_string(),
        first_artist: artist.map(|a| a.to_string()),
        id: id.map(|i| i.to_string()),
        duration_ms: ms,
    }
}

#[test]
fn new_player_is_stopped() {
    let p = PlayerManager::new();
    assert_eq!(p.state(), &PlaybackState::default());
    assert_eq!(p.state().state, "stopped");
    assert_eq!(p.state().track, "");
    assert_eq!(p.state().progress_ms, 0);
}

#[test]
fn simple_commands_map_to_requests() {
    let p = PlayerManager::new();
    assert_eq!(p.handle_command(&IPCCommand::Play), Step::Call(ApiCall::Resume));
    assert_eq!(p.handle_command(&IPCCommand::Pause), Step::Call(ApiCall::Pause));
    assert_eq!(p.handle_command(&IPCCommand::Next), Step::Call(ApiCall::Next));
    assert_eq!(p.handle_command(&IPCCommand::Prev), Step::Call(ApiCall::Previous));
    assert_eq!(p.handle_command(&IPCCommand::Volume(42)), Step::Call(ApiCall::Volume { percent: 42 }));
    assert_eq!(p.handle_command(&IPCCommand::Status), Step::Call(ApiCall::CurrentPlayback));
}

#[test]
fn seek_is_in_milliseconds_without_wrapping() {
    let p = PlayerManager::new();
    assert_eq!(
        p.handle_command(&IPCCommand::Seek(75)),
        Step::Call(ApiCall::Seek { position_ms: 75_000 })
    );
    assert_eq!(
        p.handle_command(&IPCCommand::Seek(4_294_968)),
        Step::Call(ApiCall::Seek { position_ms: 4_294_968_000 })
    );
    assert_eq!(
        p.handle_command(&IPCCommand::Seek(u32::MAX)),
        Step::Call(ApiCall::Seek { position_ms: u32::MAX as u64 * 1000 })
    );
}

#[test]
fn queue_reads_the_track_id() {
    let p = PlayerManager::new();
    assert_eq!(
        p.handle_command(&IPCCommand::Queue("spotify:track:4y4VO05kYgUTo2bzbox1an".to_string())),
        Step::Call(ApiCall::AddToQueue { track_id: "4y4VO05kYgUTo2bzbox1an".to_string() })
    );
    assert_eq!(
        p.handle_command(&IPCCommand::Queue("spotify/track/abc".to_string())),
        Step::Call(ApiCall::AddToQueue { track_id: "abc".to_string() })
    );
    assert_eq!(
        p.handle_command(&IPCCommand::Queue("6rqhFgbbKwnb9MLmUQDhG6".to_string())),
        Step::Call(ApiCall::AddToQueue { track_id: "6rqhFgbbKwnb9MLmUQDhG6".to_string() })
    );
}

#[test]
fn queue_with_a_bad_uri_is_answered_at_once() {
    let p = PlayerManager::new();
    match p.handle_command(&IPCCommand::Queue("not a track!".to_string())) {
        Step::Reply(IPCResponse::Error(e)) => assert_eq!(e, "InvalidId"),
        other => panic!("unexpected {:?}", other),
    }
    match p.handle_command(&IPCCommand::Queue("spotify:album:6IcGNaXFRf5Y1jc7QsE9O2".to_string())) {
        Step::Reply(IPCResponse::Error(e)) => assert_eq!(e, "InvalidType"),
        other => panic!("unexpected {:?}", other),
    }
    match p.handle_command(&IPCCommand::Queue("spotify:nothing".to_string())) {
        Step::Reply(IPCResponse::Error(e)) => assert_eq!(e, "InvalidFormat"),
        other => panic!("unexpected {:?}", other),
    }
    match p.handle_command(&IPCCommand::Queue("spotify:track:ab-c".to_string())) {
        Step::Reply(IPCResponse::Error(e)) => assert_eq!(e, "InvalidId"),
        other => panic!("unexpected {:?}", other),
    }
    match p.handle_command(&IPCCommand::Queue("spotify".to_string())) {
        Step::Call(ApiCall::AddToQueue { track_id }) => assert_eq!(track_id, "spotify"),
        other => panic!("unexpected {:?}", other),
    }
}

#[test]
fn search_kinds() {
    assert_eq!(search_kind(&Some("album".to_string())), SearchKind::Album);
    assert_eq!(search_kind(&Some("artist".to_string())), SearchKind::Artist);
    assert_eq!(search_kind(&Some("playlist".to_string())), SearchKind::Playlist);
    assert_eq!(search_kind(&Some("track".to_string())), SearchKind::Track);
    assert_eq!(search_kind(&Some("Album".to_string())), SearchKind::Track);
    assert_eq!(search_kind(&None), SearchKind::Track);
    let p = PlayerManager::new();
    assert_eq!(
        p.handle_command(&IPCCommand::Search {
            query: "lofi".to_string(),
            search_type: Some("artist".to_string()),
            play: true,
        }),
        Step::Call(ApiCall::Search { query: "lofi".to_string(), kind: SearchKind::Artist, limit: 10 })
    );
    assert_eq!(SEARCH_LIMIT, 10);
}

#[test]
fn play_and_pause_update_the_state_only_on_success() {
    let mut p = PlayerManager::new();
    assert_eq!(p.command_done(&IPCCommand::Play, Ok(())), IPCResponse::Done);
    assert_eq!(p.state().state, "playing");
    assert_eq!(
        p.command_done(&IPCCommand::Pause, Err("no device".to_string())),
        IPCResponse::Error("no device".to_string())
    );
    assert_eq!(p.state().state, "playing");
    assert_eq!(p.command_done(&IPCCommand::Pause, Ok(())), IPCResponse::Done);
    assert_eq!(p.state().state, "paused");
    assert_eq!(p.command_done(&IPCCommand::Next, Ok(())), IPCResponse::Done);
    assert_eq!(p.state().state, "paused");
}

#[test]
fn status_of_a_track() {
    let p = PlayerManager::new();
    let snap = PlaybackSnapshot {
        is_playing: true,
        progress_ms: Some(75_000),
        item: Some(PlayingItem::Track {
            name: "Starboy".to_string(),
            first_artist: Some("The Weeknd".to_string()),
            duration_ms: 230_000,
        }),
    };
    assert_eq!(
        p.status_received(Ok(Some(snap))),
        IPCResponse::State(PlaybackState {
            state: "playing".to_string(),
            track: "Starboy".to_string(),
            artist: "The Weeknd".to_string(),
            progress_ms: 75_000,
            duration_ms: 230_000,
        })
    );
}

#[test]
fn status_of_an_episode_and_of_nothing() {
    let p = PlayerManager::new();
    let snap = PlaybackSnapshot {
        is_playing: false,
        progress_ms: None,
        item: Some(PlayingItem::Episode {
            name: "Ep 1".to_string(),
            show_name: "Show".to_string(),
            duration_ms: 1000,
        }),
    };
    let s = playback_state(&Some(snap));
    assert_eq!(s.state, "paused");
    assert_eq!(s.artist, "Show");
    assert_eq!(s.progress_ms, 0);
    assert_eq!(s.duration_ms, 1000);
    let other = PlaybackSnapshot { is_playing: true, progress_ms: Some(5), item: Some(PlayingItem::Other) };
    let s = playback_state(&Some(other));
    assert_eq!((s.track.as_str(), s.artist.as_str(), s.duration_ms), ("", "", 0));
    assert_eq!(p.status_received(Ok(None)), IPCResponse::State(PlaybackState::default()));
    assert_eq!(
        p.status_received(Err("offline".to_string())),
        IPCResponse::Error("offline".to_string())
    );
}

#[test]
fn found_tracks_are_reported_with_uris() {
    let outcome = SearchOutcome::Tracks(vec![
        found("A", Some("X"), Some("id1"), 1000),
        found("B", None, None, -1),
    ]);
    let tracks = tracks_from_search(&outcome);
    assert_eq!(
        tracks,
        vec![
            TrackInfo { name: "A".into(), artist: "X".into(), uri: "spotify:track:id1".into(), duration_ms: 1000 },
            TrackInfo { name: "B".into(), artist: "".into(), uri: "".into(), duration_ms: u64::MAX },
        ]
    );
    assert_eq!(tracks_from_search(&SearchOutcome::Other), Vec::<TrackInfo>::new());
}

#[test]
fn search_without_play_replies_with_results() {
    let p = PlayerManager::new();
    let outcome = SearchOutcome::Tracks(vec![found("A", Some("X"), Some("id1"), 1000)]);
    match p.search_received(false, Ok(outcome)) {
        SearchStep::Reply(IPCResponse::SearchResults(t)) => assert_eq!(t[0].uri, "spotify:track:id1"),
        other => panic!("unexpected {:?}", other),
    }
    assert_eq!(
        p.search_received(true, Ok(SearchOutcome::Tracks(vec![]))),
        SearchStep::Reply(IPCResponse::SearchResults(vec![]))
    );
    assert_eq!(
        p.search_received(true, Err("rate limited".to_string())),
        SearchStep::Reply(IPCResponse::Error("rate limited".to_string()))
    );
}

#[test]
fn search_with_play_plays_the_first_result() {
    let p = PlayerManager::new();
    let outcome = SearchOutcome::Tracks(vec![
        found("A", Some("X"), Some("first1"), 1000),
        found("B", Some("Y"), Some("second2"), 2000),
    ]);
    match p.search_received(true, Ok(outcome)) {
        SearchStep::PlayFirst { call, results } => {
            assert_eq!(call, ApiCall::PlayTrack { track_id: "first1".to_string() });
            assert_eq!(results.len(), 2);
            assert_eq!(
                PlayerManager::first_result_played(results.clone(), Ok(())),
                IPCResponse::SearchResults(results.clone())
            );
            assert_eq!(
                PlayerManager::first_result_played(results, Err("no device".to_string())),
                IPCResponse::Error("no device".to_string())
            );
        }
        other => panic!("unexpected {:?}", other),
    }
}

#[test]
fn steps_after_reading_a_track_id() {
    assert_eq!(
        queue_step(Ok("abc".to_string())),
        Step::Call(ApiCall::AddToQueue { track_id: "abc".to_string() })
    );
    assert_eq!(queue_step(Err("InvalidId".to_string())), Step::Reply(IPCResponse::Error("InvalidId".to_string())));
    let results = vec![TrackInfo { name: "A".into(), artist: "".into(), uri: "spotify:track:x".into(), duration_ms: 0 }];
    assert_eq!(
        play_first_step(Ok("x".to_string()), results.clone()),
        SearchStep::PlayFirst { call: ApiCall::PlayTrack { track_id: "x".to_string() }, results }
    );
    assert_eq!(
        play_first_step(Err("InvalidType".to_string()), vec![]),
        SearchStep::Reply(IPCResponse::Error("InvalidType".to_string()))
    );
}

fn item(name: &str, by: Option<&str>, id: Option<&str>) -> FoundItem {
    FoundItem { name: name.to_string(), by: by.map(|b| b.to_string()), id: id.map(|i| i.to_string()) }
}

#[test]
fn albums_artists_and_playlists_are_listed() {
    let artists = SearchOutcome::Items {
        kind: ItemKind::Artist,
        items: vec![item("Daft Punk", None, Some("4tZwfgrHOc3mvqYlEYSvVi")), item("Punk", None, None)],
    };
    assert_eq!(
        tracks_from_search(&artists),
        vec![
            TrackInfo {
                name: "Daft Punk".into(),
                artist: "".into(),
                uri: "spotify:artist:4tZwfgrHOc3mvqYlEYSvVi".into(),
                duration_ms: 0
            },
            TrackInfo { name: "Punk".into(), artist: "".into(), uri: "".into(), duration_ms: 0 },
        ]
    );
    assert_eq!(
        item_info(ItemKind::Album, &item("Discovery", Some("Daft Punk"), Some("2noRn2Aes5aoNVsU6iWThc"))),
        TrackInfo {
            name: "Discovery".into(),
            artist: "Daft Punk".into(),
            uri: "spotify:album:2noRn2Aes5aoNVsU6iWThc".into(),
            duration_ms: 0
        }
    );
    assert_eq!(
        item_info(ItemKind::Playlist, &item("Mix", Some("me"), Some("37i9"))).uri,
        "spotify:playlist:37i9"
    );
    let p = PlayerManager::new();
    match p.search_received(true, Ok(artists)) {
        SearchStep::Reply(IPCResponse::SearchResults(t)) => assert_eq!(t.len(), 2),
        other => panic!("unexpected {:?}", other),
    }
}
