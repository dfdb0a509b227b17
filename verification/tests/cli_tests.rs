use spotiline::cli::{
    already_running_message, daemon_mode_port, existing_pid_check, exit_status, daemon_status_lines, diagnose_end_line,
    diagnose_lines, execute, failure_output, json_error_line, json_mode, parse_pid,
    print_response, send_failure_message, start_check, stop_lines, CliAction, Commands,
    DaemonAction, DaemonHealth, Output, SecretProbe,
};
use spotiline::state::{IPCCommand, IPCResponse, PlaybackState, TrackInfo};

fn lines(v: &[&str]) -> Vec<String> {
    v.iter().map(|s| s.to_string()).collect()
}

#[test]
fn commands_become_requests() {
    assert_eq!(execute(Commands::Play, false), Ok(CliAction::Send { command: IPCCommand::Play, json: false }));
    assert_eq!(execute(Commands::Prev, true), Ok(CliAction::Send { command: IPCCommand::Prev, json: true }));
    assert_eq!(
        execute(Commands::Seek { seconds: 30 }, false),
        Ok(CliAction::Send { command: IPCCommand::Seek(30), json: false })
    );
    assert_eq!(
        execute(Commands::Queue { uri: "spotify:track:x".to_string() }, false),
        Ok(CliAction::Send { command: IPCCommand::Queue("spotify:track:x".to_string()), json: false })
    );
    assert_eq!(
        execute(
            Commands::Search { query: "lofi".to_string(), search_type: Some("album".to_string()), play: true },
            false
        ),
        Ok(CliAction::Send {
            command: IPCCommand::Search {
                query: "lofi".to_string(),
                search_type: Some("album".to_string()),
                play: true
            },
            json: false
        })
    );
    assert_eq!(
        execute(Commands::Daemon { action: DaemonAction::Diagnose }, true),
        Ok(CliAction::Daemon(DaemonAction::Diagnose))
    );
}

#[test]
fn volume_above_one_hundred_is_refused() {
    assert_eq!(execute(Commands::Volume { level: 101 }, false), Err("Volume must be 0-100".to_string()));
    assert_eq!(
        execute(Commands::Volume { level: 100 }, false),
        Ok(CliAction::Send { command: IPCCommand::Volume(100), json: false })
    );
    assert_eq!(
        execute(Commands::Volume { level: 0 }, false),
        Ok(CliAction::Send { command: IPCCommand::Volume(0), json: false })
    );
}

#[test]
fn status_json_flag() {
    assert_eq!(
        execute(Commands::Status { json: true }, false),
        Ok(CliAction::Send { command: IPCCommand::Status, json: true })
    );
    assert_eq!(
        execute(Commands::Status { json: false }, false),
        Ok(CliAction::Send { command: IPCCommand::Status, json: false })
    );
    assert!(json_mode(&Commands::Status { json: true }));
    assert!(!json_mode(&Commands::Status { json: false }));
    assert!(!json_mode(&Commands::Play));
}

#[test]
fn refused_connections_mean_the_daemon_is_down() {
    let down = "Daemon not running. Start it with: spotiline daemon start";
    assert_eq!(send_failure_message("Connection refused (os error 111)"), down);
    assert_eq!(send_failure_message("No connection could be made (os error 10061)"), down);
    assert_eq!(send_failure_message("timed out"), "timed out");
    assert_eq!(send_failure_message(""), "");
}

#[test]
fn plain_replies() {
    assert_eq!(print_response(IPCResponse::Done, false), Output::Stdout(lines(&["\u{2713} OK"])));
    assert_eq!(print_response(IPCResponse::Done, true), Output::Stdout(lines(&["{\"status\":\"ok\"}"])));
    let state = PlaybackState {
        state: "playing".to_string(),
        track: "Starboy".to_string(),
        artist: "The Weeknd".to_string(),
        progress_ms: 75000,
        duration_ms: 230000,
    };
    assert_eq!(
        print_response(IPCResponse::State(state.clone()), false),
        Output::Stdout(lines(&[
            "State: playing",
            "Track: Starboy",
            "Artist: The Weeknd",
            "Progress: 75000ms / 230000ms",
        ]))
    );
    assert_eq!(print_response(IPCResponse::State(state.clone()), true), Output::JsonState(state));
}

#[test]
fn search_results_are_numbered_from_one() {
    let t = vec![
        TrackInfo { name: "A".into(), artist: "X".into(), uri: "spotify:track:1".into(), duration_ms: 1 },
        TrackInfo { name: "B".into(), artist: "Y".into(), uri: "spotify:track:2".into(), duration_ms: 2 },
    ];
    assert_eq!(
        print_response(IPCResponse::SearchResults(t.clone()), false),
        Output::Stdout(lines(&["1. A - X (spotify:track:1)", "2. B - Y (spotify:track:2)"]))
    );
    assert_eq!(print_response(IPCResponse::SearchResults(t.clone()), true), Output::JsonTracks(t));
    assert_eq!(print_response(IPCResponse::SearchResults(vec![]), false), Output::Stdout(vec![]));
}

#[test]
fn errors_are_escaped_in_json() {
    assert_eq!(
        print_response(IPCResponse::Error("bad \"uri\"".to_string()), true),
        Output::Stdout(lines(&["{\"error\":\"bad \\\"uri\\\"\"}"]))
    );
    assert_eq!(
        print_response(IPCResponse::Error("boom".to_string()), false),
        Output::Stderr(lines(&["\u{2717} Error: boom"]))
    );
    assert_eq!(json_error_line("plain"), "{\"error\":\"plain\"}");
    assert_eq!(failure_output("x\"y", true), Output::Stdout(lines(&["{\"error\":\"x\\\"y\"}"])));
    assert_eq!(failure_output("oops", false), Output::Stderr(lines(&["Error: oops"])));
}

#[test]
fn pid_files() {
    assert_eq!(parse_pid("1234\n"), Ok(1234));
    assert_eq!(parse_pid("  +7 "), Ok(7));
    assert_eq!(parse_pid("4294967295"), Ok(u32::MAX));
    assert_eq!(parse_pid("4294967296"), Err("number too large to fit in target type".to_string()));
    assert_eq!(parse_pid(""), Err("cannot parse integer from empty string".to_string()));
    assert_eq!(parse_pid("12a"), Err("invalid digit found in string".to_string()));
    assert!(parse_pid("-1").is_err());
}

#[test]
fn daemon_mode_arguments() {
    let args = |v: &[&str]| v.iter().map(|s| s.to_string()).collect::<Vec<String>>();
    assert_eq!(daemon_mode_port(&args(&["spotiline", "--daemon-mode", "5000"])), Some(5000));
    assert_eq!(daemon_mode_port(&args(&["spotiline", "--daemon-mode", "70000"])), Some(47836));
    assert_eq!(daemon_mode_port(&args(&["spotiline", "--daemon-mode", "x"])), Some(47836));
    assert_eq!(daemon_mode_port(&args(&["spotiline", "--daemon-mode"])), None);
    assert_eq!(daemon_mode_port(&args(&["spotiline", "status", "--json"])), None);
}

#[test]
fn daemon_management_messages() {
    assert_eq!(
        already_running_message(42),
        "Daemon already running (PID 42). Use 'spotiline daemon stop' to stop it."
    );
    assert_eq!(
        daemon_status_lines(DaemonHealth::Responding, 42, 47836, Some("/tmp/spotiline.log".to_string())),
        lines(&["Status: Running (PID 42)", "Port: 47836", "Logs: /tmp/spotiline.log"])
    );
    assert_eq!(
        daemon_status_lines(DaemonHealth::Responding, 42, 47836, None),
        lines(&["Status: Running (PID 42)", "Port: 47836"])
    );
    assert_eq!(
        daemon_status_lines(DaemonHealth::NoPidFile, 0, 1, None),
        lines(&["Status: Not running (no PID file)"])
    );
    assert_eq!(
        daemon_status_lines(DaemonHealth::Dead, 9, 1, None),
        lines(&[
            "Status: Dead (PID file exists but process not found)",
            "Hint: Run 'spotiline daemon start' to restart"
        ])
    );
    assert_eq!(
        daemon_status_lines(DaemonHealth::Unresponsive, 9, 1, None),
        lines(&[
            "Status: Process running but not responding (PID 9)",
            "Hint: May still be initializing, or try 'spotiline daemon stop' then restart"
        ])
    );
    assert_eq!(stop_lines(true), lines(&["Daemon stopped"]));
    assert_eq!(
        stop_lines(false),
        lines(&["Daemon not running", "Hint: Use 'spotiline daemon start' to start it"])
    );
}

#[test]
fn start_check_after_spawning() {
    let ok = start_check(Ok(()), "123", "\"/logs\"");
    assert_eq!(ok.lines, lines(&["\u{2713} Daemon is responding"]));
    assert!(!ok.remove_pid_file);
    let crashed = start_check(Err("refused".to_string()), "123\n", "\"/logs\"");
    assert_eq!(
        crashed.lines,
        lines(&[
            "\u{26a0}\u{fe0f}  Warning: Daemon may have crashed during initialization",
            "   Error: refused",
            "   Hint: Run 'spotiline daemon status' for details or check logs in \"/logs\"",
            "   Removed stale PID file (123)",
        ])
    );
    assert!(crashed.remove_pid_file);
    let unknown = start_check(Err("refused".to_string()), "", "\"/logs\"");
    assert_eq!(unknown.lines.len(), 3);
    assert!(!unknown.remove_pid_file);
}

#[test]
fn diagnose_report() {
    let big = "x".repeat(3000);
    let r = diagnose_lines(
        &SecretProbe::Value("abcd".to_string()),
        &SecretProbe::Unreadable("No matching entry found in secure storage".to_string()),
        &SecretProbe::Value(big),
    );
    assert_eq!(
        r,
        lines(&[
            "=== Spotiline Diagnostic Report ===\n",
            "1. Checking credentials in keyring...",
            "   \u{2713} SPOTIFY_CLIENT_ID found (length: 4)",
            "   \u{2717} SPOTIFY_CLIENT_SECRET not found: No matching entry found in secure storage",
            "\n2. Checking authentication token...",
            "   \u{2713} Token found (length: 3000)",
            "   \u{26a0}\u{fe0f}  Token is very large (>2KB), may exceed manager limits",
            "\n3. Checking daemon status...",
        ])
    );
    let r = diagnose_lines(
        &SecretProbe::Value(String::new()),
        &SecretProbe::NoAccess("locked".to_string()),
        &SecretProbe::Value(String::new()),
    );
    assert_eq!(r[2], "   \u{2717} SPOTIFY_CLIENT_ID is empty");
    assert_eq!(r[3], "   \u{2717} Cannot access keyring for SPOTIFY_CLIENT_SECRET: locked");
    assert_eq!(r[5], "   \u{2717} Token is empty");
    let r = diagnose_lines(
        &SecretProbe::Value("é".to_string()),
        &SecretProbe::Value("s".to_string()),
        &SecretProbe::NoAccess("no backend".to_string()),
    );
    assert_eq!(r[2], "   \u{2713} SPOTIFY_CLIENT_ID found (length: 2)");
    assert_eq!(r[5], "   \u{2717} Cannot access keyring: no backend");
    assert_eq!(diagnose_end_line(), "\n=== End of Diagnostic Report ===");
}

#[test]
fn existing_pid_files() {
    assert_eq!(
        existing_pid_check(Ok(77), true),
        Err("Daemon already running (PID 77). Use 'spotiline daemon stop' to stop it.".to_string())
    );
    assert_eq!(existing_pid_check(Ok(77), false), Ok(()));
    assert_eq!(existing_pid_check(Err("invalid digit found in string".to_string()), true), Ok(()));
}

#[test]
fn error_json_escapes_every_special_character() {
    assert_eq!(
        json_error_line("line one\nline two"),
        "{\"error\":\"line one\\nline two\"}"
    );
    assert_eq!(json_error_line("C:\\dir"), "{\"error\":\"C:\\\\dir\"}");
    assert_eq!(
        json_error_line("\t\r\u{8}\u{c}\u{1}\u{1f}"),
        "{\"error\":\"\\t\\r\\b\\f\\u0001\\u001f\"}"
    );
    assert_eq!(json_error_line("caf\u{e9} \u{7f}"), "{\"error\":\"caf\u{e9} \u{7f}\"}");
}

#[test]
fn error_replies_fail_the_command() {
    assert_eq!(exit_status(&IPCResponse::Error("no device".to_string())), 1);
    assert_eq!(exit_status(&IPCResponse::Done), 0);
    assert_eq!(exit_status(&IPCResponse::SearchResults(vec![])), 0);
    assert_eq!(exit_status(&IPCResponse::State(PlaybackState::default())), 0);
}

#[test]
fn error_json_decodes_back_to_the_text() {
    for text in ["plain", "quote \" and \\ backslash", "multi\nline\r\n\ttab", "\u{0}\u{1b}[31mred", "caf\u{e9} \u{1f600}"] {
        let line = json_error_line(text);
        let value: serde_json::Value = serde_json::from_str(&line).unwrap();
        let object = value.as_object().unwrap();
        assert_eq!(object.len(), 1);
        assert_eq!(object["error"].as_str().unwrap(), text);
    }
}

#[test]
fn secrets_show_only_their_length() {
    let a = diagnose_lines(
        &SecretProbe::Value("aaaa".to_string()),
        &SecretProbe::Value("bb".to_string()),
        &SecretProbe::Value("tok1".to_string()),
    );
    let b = diagnose_lines(
        &SecretProbe::Value("zzzz".to_string()),
        &SecretProbe::Value("cc".to_string()),
        &SecretProbe::Value("tok2".to_string()),
    );
    assert_eq!(a, b);
}
