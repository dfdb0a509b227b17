use spotiline::state::{IPCCommand, IPCResponse, PlaybackState, TrackInfo};
use spotiline::tui::{
    handle_key_event, move_selection_down, move_selection_up, App, FocusPane, InputMode, KeyCode,
    KeyEvent, KeyEventKind, KeyOutcome, Request, EMPTY_LIST_HINT,
};

fn press(code: KeyCode) -> KeyEvent {
    KeyEvent { code, kind: KeyEventKind::Press }
}

fn track(n: &str, uri: &str) -> TrackInfo {
    TrackInfo { name: n.into(), artist: "Art".into(), uri: uri.into(), duration_ms: 1 }
}

#[test]
fn start_up_state() {
    let app = App::new(47836);
    assert_eq!(app.port(), 47836);
    assert_eq!(app.input_mode, InputMode::Navigation);
    assert_eq!(app.focus, FocusPane::Playlists);
    assert_eq!(app.playlists, vec!["Liked Songs".to_string(), "Discover Weekly".to_string()]);
    assert_eq!(app.playlist_state.selected(), Some(0));
    assert_eq!(app.track_state.selected(), None);
    assert_eq!(app.status_msg, "Daemon Active");
    assert!(!app.is_playing);
}

#[test]
fn status_replies_refresh_the_display() {
    let mut app = App::new(1);
    app.tick(Some(IPCResponse::State(PlaybackState {
        state: "playing".into(),
        track: "T".into(),
        artist: "A".into(),
        progress_ms: 61_000,
        duration_ms: 200_000,
    })));
    assert!(app.is_playing);
    assert_eq!(app.current_track, "T");
    assert_eq!(app.progress_ms, 61_000);
    app.tick(Some(IPCResponse::Done));
    assert!(app.is_playing);
    app.tick(None);
    assert_eq!(app.current_artist, "A");
    app.tick(Some(IPCResponse::State(PlaybackState::default())));
    assert!(!app.is_playing);
}

#[test]
fn space_toggles_through_the_daemon() {
    let mut app = App::new(1);
    assert_eq!(
        handle_key_event(&mut app, press(KeyCode::Char(' '))),
        KeyOutcome::Send(Request::TogglePlayPause(IPCCommand::Play))
    );
    app.toggle_play_pause(true);
    assert!(app.is_playing);
    assert_eq!(app.play_pause_command(), IPCCommand::Pause);
    app.toggle_play_pause(false);
    assert!(app.is_playing);
}

#[test]
fn quit_skip_and_seek_keys() {
    let mut app = App::new(1);
    assert_eq!(handle_key_event(&mut app, press(KeyCode::Char('q'))), KeyOutcome::Quit);
    assert_eq!(
        handle_key_event(&mut app, press(KeyCode::Char('n'))),
        KeyOutcome::Send(Request::SendAndRefresh(vec![IPCCommand::Next]))
    );
    assert_eq!(
        handle_key_event(&mut app, press(KeyCode::Char('p'))),
        KeyOutcome::Send(Request::SendAndRefresh(vec![IPCCommand::Prev]))
    );
    app.progress_ms = 65_432;
    assert_eq!(
        handle_key_event(&mut app, press(KeyCode::Right)),
        KeyOutcome::Send(Request::SendAndRefresh(vec![IPCCommand::Seek(75)]))
    );
    assert_eq!(
        handle_key_event(&mut app, press(KeyCode::Left)),
        KeyOutcome::Send(Request::SendAndRefresh(vec![IPCCommand::Seek(55)]))
    );
    app.progress_ms = 3_000;
    assert_eq!(
        handle_key_event(&mut app, press(KeyCode::Left)),
        KeyOutcome::Send(Request::SendAndRefresh(vec![IPCCommand::Seek(0)]))
    );
    assert_eq!(app.seek(-1_000_000), Request::SendAndRefresh(vec![IPCCommand::Seek(0)]));
    assert_eq!(app.seek(i64::MIN), Request::SendAndRefresh(vec![IPCCommand::Seek(0)]));
    app.progress_ms = u64::MAX;
    assert_eq!(app.seek(10), Request::SendAndRefresh(vec![IPCCommand::Seek(u32::MAX)]));
    assert_eq!(app.seek(i64::MAX), Request::SendAndRefresh(vec![IPCCommand::Seek(u32::MAX)]));
}

#[test]
fn releases_are_ignored() {
    let mut app = App::new(1);
    let k = KeyEvent { code: KeyCode::Char('q'), kind: KeyEventKind::Release };
    assert_eq!(handle_key_event(&mut app, k), KeyOutcome::Stay);
    let k = KeyEvent { code: KeyCode::Char('/'), kind: KeyEventKind::Repeat };
    assert_eq!(handle_key_event(&mut app, k), KeyOutcome::Stay);
    assert_eq!(app.input_mode, InputMode::Navigation);
}

#[test]
fn arrows_stay_inside_the_list() {
    let mut app = App::new(1);
    move_selection_up(&mut app);
    assert_eq!(app.playlist_state.selected(), Some(0));
    move_selection_down(&mut app);
    assert_eq!(app.playlist_state.selected(), Some(1));
    move_selection_down(&mut app);
    assert_eq!(app.playlist_state.selected(), Some(1));
    move_selection_up(&mut app);
    assert_eq!(app.playlist_state.selected(), Some(0));
    handle_key_event(&mut app, press(KeyCode::Tab));
    assert_eq!(app.focus, FocusPane::Tracks);
    move_selection_down(&mut app);
    assert_eq!(app.track_state.selected(), None);
    handle_key_event(&mut app, press(KeyCode::Tab));
    assert_eq!(app.focus, FocusPane::Playlists);
}

#[test]
fn typing_searches_live() {
    let mut app = App::new(1);
    handle_key_event(&mut app, press(KeyCode::Char('/')));
    assert_eq!(app.input_mode, InputMode::Search);
    let out = handle_key_event(&mut app, press(KeyCode::Char('a')));
    assert_eq!(
        out,
        KeyOutcome::Send(Request::Search(IPCCommand::Search {
            query: "a".into(),
            search_type: Some("track".into()),
            play: false
        }))
    );
    app.receive_search_results(Some(IPCResponse::SearchResults(vec![
        track("One", "spotify:track:1"),
        track("Two", "spotify:track:2"),
    ])));
    assert_eq!(app.track_state.selected(), Some(0));
    assert_eq!(app.track_list_title(), "Search Results");
    handle_key_event(&mut app, press(KeyCode::Down));
    assert_eq!(app.track_state.selected(), Some(0));
    app.focus = FocusPane::Tracks;
    handle_key_event(&mut app, press(KeyCode::Down));
    assert_eq!(app.track_state.selected(), Some(1));
    assert_eq!(handle_key_event(&mut app, press(KeyCode::Backspace)), KeyOutcome::Stay);
    assert_eq!(app.search_input, "");
    assert!(app.search_results.is_empty());
}

#[test]
fn enter_plays_the_selected_result() {
    let mut app = App::new(1);
    app.input_mode = InputMode::Search;
    app.search_input = "x".into();
    app.receive_search_results(Some(IPCResponse::SearchResults(vec![
        track("One", "spotify:track:1"),
        track("Two", "spotify:track:2"),
    ])));
    app.track_state.select(Some(1));
    assert_eq!(
        handle_key_event(&mut app, press(KeyCode::Enter)),
        KeyOutcome::Send(Request::SendAndRefresh(vec![
            IPCCommand::Queue("spotify:track:2".into()),
            IPCCommand::Play
        ]))
    );
    assert_eq!(app.input_mode, InputMode::Navigation);
    app.track_state.select(Some(7));
    assert_eq!(app.play_selected(), None);
}

#[test]
fn escape_leaves_and_clears_search() {
    let mut app = App::new(1);
    handle_key_event(&mut app, press(KeyCode::Char('/')));
    handle_key_event(&mut app, press(KeyCode::Char('z')));
    app.receive_search_results(Some(IPCResponse::SearchResults(vec![track("One", "u")])));
    assert_eq!(handle_key_event(&mut app, press(KeyCode::Esc)), KeyOutcome::Stay);
    assert_eq!(app.input_mode, InputMode::Navigation);
    assert_eq!(app.search_input, "");
    assert!(app.search_results.is_empty());
}

#[test]
fn type_then_erase_restores_the_query() {
    let mut app = App::new(1);
    app.input_mode = InputMode::Search;
    app.search_input = "ab".into();
    handle_key_event(&mut app, press(KeyCode::Char('c')));
    assert_eq!(app.search_input, "abc");
    handle_key_event(&mut app, press(KeyCode::Backspace));
    assert_eq!(app.search_input, "ab");
}

#[test]
fn clock_and_display_texts() {
    assert_eq!(App::format_time(0), "0:00");
    assert_eq!(App::format_time(75_000), "1:15");
    assert_eq!(App::format_time(230_999), "3:50");
    assert_eq!(App::format_time(3_605_000), "60:05");
    let mut app = App::new(1);
    app.progress_ms = 75_000;
    app.duration_ms = 230_000;
    app.current_track = "Starboy".into();
    app.current_artist = "The Weeknd".into();
    assert_eq!(app.progress_text(), "1:15 / 3:50");
    assert_eq!(app.now_playing_text(), "\u{25b6} Starboy - The Weeknd");
    app.is_playing = true;
    assert_eq!(app.now_playing_text(), "\u{23f8} Starboy - The Weeknd");
    assert_eq!(app.search_text(), "/ Search...");
    assert_eq!(
        app.header_texts(),
        vec![
            "\u{1f7e2} Spotiline  ".to_string(),
            "| Mode: TUI ".to_string(),
            "| Status: Daemon Active ".to_string(),
            "| / Search...".to_string()
        ]
    );
    app.input_mode = InputMode::Search;
    app.search_input = "lo".into();
    assert_eq!(app.search_text(), "/ lo_");
    assert_eq!(app.track_rows(), None);
    assert_eq!(EMPTY_LIST_HINT, "Press / to search");
    app.tracks = vec![track("A", "u")];
    assert_eq!(app.track_rows(), Some(vec![("1. ".to_string(), "A - Art".to_string())]));
    assert_eq!(app.track_list_title(), "Tracks");
}
