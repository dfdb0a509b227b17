//! The command line: what each command asks of the daemon, and the text printed for
//! replies and failures.
use vstd::prelude::*;
use crate::config::DEFAULT_PORT;
use crate::state::{opt_view, CommandView, IPCCommand, IPCResponse, PlaybackState, TrackInfo, TrackView};
use crate::text::{
    all_digits, lemma_decimal_digits, chars_of, contains, json_decode, law_json_escape_round_trip, decimal, digits_value, json_escape, has_substring, is_u32_text,
    parse_u32, push_decimal, push_json_escaped, push_str, same_text, string_from, trim,
    trim_chars, u32_parse_error_text, unsigned_body,
};

verus! {

/// The parsed command line.
#[derive(Debug, Clone, PartialEq, Eq)]
pub struct Cli {
    /// The command; none starts the terminal interface.
    pub command: Option<Commands>,
}

/// The commands of the command line.
#[derive(Debug, Clone, PartialEq, Eq)]
pub enum Commands {
    /// Manage the background daemon
    Daemon { action: DaemonAction },
    /// Resume playback
    Play,
    /// Pause playback
    Pause,
    /// Skip to next track
    Next,
    /// Go to previous track
    Prev,
    /// Seek to position in seconds
    Seek { seconds: u32 },
    /// Set volume (0-100)
    Volume { level: u8 },
    /// Search for tracks (the option is `--type`)
    Search { query: String, search_type: Option<String>, play: bool },
    /// Add track to queue
    Queue { uri: String },
    /// Get current playback status
    Status { json: bool },
}

/// What `daemon` does.
#[derive(Debug, Clone, Copy, PartialEq, Eq, Structural)]
pub enum DaemonAction {
    /// Start the background daemon
    Start,
    /// Stop the background daemon
    Stop,
    /// Report whether the daemon runs and answers
    Status,
    /// Report on credentials, token and daemon
    Diagnose,
}

/// What a command comes to.
#[derive(Debug, Clone, PartialEq, Eq)]
pub enum CliAction {
    /// Manage the daemon process.
    Daemon(DaemonAction),
    /// Send a request to the daemon and print its reply, as JSON when `json` is set.
    Send { command: IPCCommand, json: bool },
}

/// The error for a volume above 100.
pub open spec fn volume_range_text() -> Seq<char> {
    "Volume must be 0-100"@
}

/// The request that a command other than `daemon` sends.
pub open spec fn request_for(c: Commands) -> CommandView {
    match c {
        Commands::Play => CommandView::Play,
        Commands::Pause => CommandView::Pause,
        Commands::Next => CommandView::Next,
        Commands::Prev => CommandView::Prev,
        Commands::Seek { seconds } => CommandView::Seek(seconds),
        Commands::Volume { level } => CommandView::Volume(level),
        Commands::Search { query, search_type, play } => CommandView::Search {
            query: query@,
            search_type: opt_view(search_type),
            play,
        },
        Commands::Queue { uri } => CommandView::Queue(uri@),
        _ => CommandView::Status,
    }
}

/// What `command` does: `daemon` manages the process; a volume above 100 is refused;
/// `status --json` (or the JSON mode) prints JSON; every other command sends its request.
pub fn execute(command: Commands, json_mode: bool) -> (r: Result<CliAction, String>)
    ensures
        match command {
            Commands::Daemon { action } => r == Ok::<CliAction, String>(CliAction::Daemon(action)),
            Commands::Volume { level } => if level > 100 {
                r is Err && r->Err_0@ == volume_range_text()
            } else {
                r matches Ok(CliAction::Send { command: c, json }) && c@ == CommandView::Volume(level) && json == json_mode
            },
            Commands::Status { json: j } => r matches Ok(CliAction::Send { command: c, json }) && c@
                == CommandView::Status && json == (j || json_mode),
            _ => r matches Ok(CliAction::Send { command: c, json }) && c@ == request_for(command)
                && json == json_mode,
        },
{
    match command {
        Commands::Daemon { action } => Ok(CliAction::Daemon(action)),
        Commands::Play => Ok(CliAction::Send { command: IPCCommand::Play, json: json_mode }),
        Commands::Pause => Ok(CliAction::Send { command: IPCCommand::Pause, json: json_mode }),
        Commands::Next => Ok(CliAction::Send { command: IPCCommand::Next, json: json_mode }),
        Commands::Prev => Ok(CliAction::Send { command: IPCCommand::Prev, json: json_mode }),
        Commands::Seek { seconds } => Ok(
            CliAction::Send { command: IPCCommand::Seek(seconds), json: json_mode },
        ),
        Commands::Volume { level } => {
            if level > 100 {
                return Err("Volume must be 0-100".to_string());
            }
            Ok(CliAction::Send { command: IPCCommand::Volume(level), json: json_mode })
        },
        Commands::Search { query, search_type, play } => Ok(
            CliAction::Send {
                command: IPCCommand::Search { query, search_type, play },
                json: json_mode,
            },
        ),
        Commands::Queue { uri } => Ok(
            CliAction::Send { command: IPCCommand::Queue(uri), json: json_mode },
        ),
        Commands::Status { json } => Ok(
            CliAction::Send { command: IPCCommand::Status, json: json || json_mode },
        ),
    }
}

/// The message when the daemon does not accept the connection.
pub open spec fn daemon_not_running_text() -> Seq<char> {
    "Daemon not running. Start it with: spotiline daemon start"@
}

/// The error reported when sending a request failed with `error`: a refused connection
/// (`Connection refused`, or Windows' code 10061) means the daemon is not running;
/// any other failure is reported as it is.
pub fn send_failure_message(error: &str) -> (r: String)
    ensures
        contains(error@, "Connection refused"@) || contains(error@, "10061"@) ==> r@
            == daemon_not_running_text(),
        !(contains(error@, "Connection refused"@) || contains(error@, "10061"@)) ==> r@ == error@,
{
    let e = chars_of(error);
    if has_substring(&e, &chars_of("Connection refused")) || has_substring(&e, &chars_of("10061")) {
        "Daemon not running. Start it with: spotiline daemon start".to_string()
    } else {
        string_from(&e)
    }
}

/// What is printed for a reply or a failure.
#[derive(Debug, Clone, PartialEq, Eq)]
pub enum Output {
    /// Lines for standard output.
    Stdout(Vec<String>),
    /// Lines for standard error.
    Stderr(Vec<String>),
    /// The state, pretty-printed as JSON on standard output.
    JsonState(PlaybackState),
    /// The tracks, pretty-printed as a JSON array on standard output.
    JsonTracks(Vec<TrackInfo>),
}

/// The views of a sequence of strings.
pub open spec fn lines_view(v: Seq<String>) -> Seq<Seq<char>> {
    v.map_values(|s: String| s@)
}

/// The JSON object that reports an error: `{"error":"…"}` with the text JSON-encoded.
pub open spec fn json_error_text(message: Seq<char>) -> Seq<char> {
    "{\"error\":\""@ + json_escape(message) + "\"}"@
}

/// The error object is valid JSON whose string decodes back to exactly the error text,
/// whatever characters the text holds.
pub proof fn law_error_json_decodes(message: Seq<char>)
    ensures
        json_error_text(message) == "{\"error\":\""@ + json_escape(message) + "\"}"@,
        json_decode(json_escape(message)) == Some(message),
{
    law_json_escape_round_trip(message);
}

/// The exit status for a reply: 1 when the daemon answered with an error, 0 otherwise.
pub fn exit_status(response: &IPCResponse) -> (code: i32)
    ensures
        code == (if response is Error { 1i32 } else { 0i32 }),
{
    match response {
        IPCResponse::Error(_) => 1,
        _ => 0,
    }
}

/// The line for the search result at position `i` (counted from zero).
pub open spec fn result_line(i: nat, t: TrackView) -> Seq<char> {
    decimal(i + 1) + ". "@ + t.name + " - "@ + t.artist + " ("@ + t.uri + ")"@
}

/// The human-readable lines for a playback state.
pub open spec fn state_lines(s: PlaybackState) -> Seq<Seq<char>> {
    seq![
        "State: "@ + s.state@,
        "Track: "@ + s.track@,
        "Artist: "@ + s.artist@,
        "Progress: "@ + decimal(s.progress_ms as nat) + "ms / "@ + decimal(s.duration_ms as nat)
            + "ms"@,
    ]
}

/// The JSON error object for `message`.
pub fn json_error_line(message: &str) -> (r: String)
    ensures
        r@ == json_error_text(message@),
{
    let mut m: Vec<char> = Vec::new();
    push_str(&mut m, "{\"error\":\"");
    push_json_escaped(&mut m, &chars_of(message));
    push_str(&mut m, "\"}");
    string_from(&m)
}

/// The human-readable lines for a playback state.
pub fn state_text(s: &PlaybackState) -> (r: Vec<String>)
    ensures
        lines_view(r@) == state_lines(*s),
{
    let mut r: Vec<String> = Vec::new();
    let mut a: Vec<char> = Vec::new();
    push_str(&mut a, "State: ");
    push_str(&mut a, s.state.as_str());
    r.push(string_from(&a));
    let mut b: Vec<char> = Vec::new();
    push_str(&mut b, "Track: ");
    push_str(&mut b, s.track.as_str());
    r.push(string_from(&b));
    let mut c: Vec<char> = Vec::new();
    push_str(&mut c, "Artist: ");
    push_str(&mut c, s.artist.as_str());
    r.push(string_from(&c));
    let mut d: Vec<char> = Vec::new();
    push_str(&mut d, "Progress: ");
    push_decimal(&mut d, s.progress_ms);
    push_str(&mut d, "ms / ");
    push_decimal(&mut d, s.duration_ms);
    push_str(&mut d, "ms");
    r.push(string_from(&d));
    assert(lines_view(r@) =~= state_lines(*s));
    r
}

/// The numbered lines for search results.
pub fn result_text(tracks: &Vec<TrackInfo>) -> (r: Vec<String>)
    ensures
        r@.len() == tracks@.len(),
        forall|i: int| 0 <= i < tracks@.len() ==> #[trigger] r@[i]@ == result_line(i as nat, tracks@[i]@),
{
    let mut r: Vec<String> = Vec::new();
    let mut k: usize = 0;
    while k < tracks.len()
        invariant
            k <= tracks.len(),
            r@.len() == k,
            forall|i: int| 0 <= i < k ==> #[trigger] r@[i]@ == result_line(i as nat, tracks@[i]@),
        decreases tracks.len() - k,
    {
        let t = &tracks[k];
        let mut m: Vec<char> = Vec::new();
        push_decimal(&mut m, (k as u64) + 1);
        push_str(&mut m, ". ");
        push_str(&mut m, t.name.as_str());
        push_str(&mut m, " - ");
        push_str(&mut m, t.artist.as_str());
        push_str(&mut m, " (");
        push_str(&mut m, t.uri.as_str());
        push_str(&mut m, ")");
        r.push(string_from(&m));
        k = k + 1;
    }
    r
}

/// What the command line prints for the daemon's reply: in JSON mode a JSON object or
/// array on standard output; otherwise `✓ OK`, the state's lines, one numbered line
/// per result, or `✗ Error: …` on standard error.
pub fn print_response(response: IPCResponse, json_mode: bool) -> (out: Output)
    ensures
        match response {
            IPCResponse::Done => if json_mode {
                out matches Output::Stdout(l) && lines_view(l@) == seq!["{\"status\":\"ok\"}"@]
            } else {
                out matches Output::Stdout(l) && lines_view(l@) == seq!["\u{2713} OK"@]
            },
            IPCResponse::State(s) => if json_mode {
                out == Output::JsonState(s)
            } else {
                out matches Output::Stdout(l) && lines_view(l@) == state_lines(s)
            },
            IPCResponse::SearchResults(t) => if json_mode {
                out == Output::JsonTracks(t)
            } else {
                out matches Output::Stdout(l) && l@.len() == t@.len() && forall|i: int|
                    0 <= i < t@.len() ==> #[trigger] l@[i]@ == result_line(i as nat, t@[i]@)
            },
            IPCResponse::Error(e) => if json_mode {
                out matches Output::Stdout(l) && lines_view(l@) == seq![json_error_text(e@)]
            } else {
                out matches Output::Stderr(l) && lines_view(l@) == seq!["\u{2717} Error: "@ + e@]
            },
        },
{
    match response {
        IPCResponse::Done => {
            let mut l: Vec<String> = Vec::new();
            if json_mode {
                l.push("{\"status\":\"ok\"}".to_string());
                assert(lines_view(l@) =~= seq!["{\"status\":\"ok\"}"@]);
            } else {
                l.push("\u{2713} OK".to_string());
                assert(lines_view(l@) =~= seq!["\u{2713} OK"@]);
            }
            Output::Stdout(l)
        },
        IPCResponse::State(s) => {
            if json_mode {
                Output::JsonState(s)
            } else {
                Output::Stdout(state_text(&s))
            }
        },
        IPCResponse::SearchResults(t) => {
            if json_mode {
                Output::JsonTracks(t)
            } else {
                Output::Stdout(result_text(&t))
            }
        },
        IPCResponse::Error(e) => {
            let mut l: Vec<String> = Vec::new();
            if json_mode {
                l.push(json_error_line(e.as_str()));
                assert(lines_view(l@) =~= seq![json_error_text(e@)]);
                Output::Stdout(l)
            } else {
                let mut m: Vec<char> = Vec::new();
                push_str(&mut m, "\u{2717} Error: ");
                push_str(&mut m, e.as_str());
                l.push(string_from(&m));
                assert(lines_view(l@) =~= seq!["\u{2717} Error: "@ + e@]);
                Output::Stderr(l)
            }
        },
    }
}

/// What the program prints when a command failed with `message`: the JSON error object
/// on standard output in JSON mode, `Error: …` on standard error otherwise.
pub fn failure_output(message: &str, json_mode: bool) -> (out: Output)
    ensures
        json_mode ==> (out matches Output::Stdout(l) && lines_view(l@) == seq![json_error_text(message@)]),
        !json_mode ==> (out matches Output::Stderr(l) && lines_view(l@) == seq!["Error: "@ + message@]),
{
    let mut l: Vec<String> = Vec::new();
    if json_mode {
        l.push(json_error_line(message));
        assert(lines_view(l@) =~= seq![json_error_text(message@)]);
        Output::Stdout(l)
    } else {
        let mut m: Vec<char> = Vec::new();
        push_str(&mut m, "Error: ");
        push_str(&mut m, message);
        l.push(string_from(&m));
        assert(lines_view(l@) =~= seq!["Error: "@ + message@]);
        Output::Stderr(l)
    }
}

/// Whether the command line asks for JSON output: `status --json`.
pub fn json_mode(command: &Commands) -> (b: bool)
    ensures
        b == (*command matches Commands::Status { json } && json),
{
    match command {
        Commands::Status { json } => *json,
        _ => false,
    }
}


/// The pid recorded in a pid file: its content, trimmed, parsed as a `u32`.
pub fn parse_pid(content: &str) -> (r: Result<u32, String>)
    ensures
        r is Ok <==> is_u32_text(trim(content@)),
        r matches Ok(p) ==> p == digits_value(unsigned_body(trim(content@))),
        r matches Err(e) ==> e@ == u32_parse_error_text(trim(content@)),
{
    let t = string_from(&trim_chars(&chars_of(content)));
    parse_u32(t.as_str())
}

/// The port the daemon listens on: the one given, when it is a `u16` in decimal, else
/// the default.
pub open spec fn port_or_default(s: Seq<char>) -> u16 {
    if is_u32_text(s) && digits_value(unsigned_body(s)) <= 65535 {
        digits_value(unsigned_body(s)) as u16
    } else {
        DEFAULT_PORT
    }
}

/// Whether the program was started as the daemon: `--daemon-mode PORT` right after the
/// program's name; then the port it listens on.
pub fn daemon_mode_port(args: &Vec<String>) -> (r: Option<u16>)
    ensures
        args@.len() >= 3 && args@[1]@ == "--daemon-mode"@ ==> r == Some(port_or_default(args@[2]@)),
        !(args@.len() >= 3 && args@[1]@ == "--daemon-mode"@) ==> r is None,
{
    if args.len() >= 3 && same_text(args[1].as_str(), "--daemon-mode") {
        match parse_u32(args[2].as_str()) {
            Ok(v) => {
                if v <= 65535 {
                    Some(v as u16)
                } else {
                    Some(DEFAULT_PORT)
                }
            },
            Err(_) => Some(DEFAULT_PORT),
        }
    } else {
        None
    }
}

/// The error when `daemon start` finds the daemon already running.
pub fn already_running_message(pid: u32) -> (r: String)
    ensures
        r@ == already_running_text(pid),
{
    let mut m: Vec<char> = Vec::new();
    push_str(&mut m, "Daemon already running (PID ");
    push_decimal(&mut m, pid as u64);
    push_str(&mut m, "). Use 'spotiline daemon stop' to stop it.");
    string_from(&m)
}

/// The error when `daemon start` finds the daemon already running.
pub open spec fn already_running_text(pid: u32) -> Seq<char> {
    "Daemon already running (PID "@ + decimal(pid as nat) + "). Use 'spotiline daemon stop' to stop it."@
}

/// What `daemon start` does about a pid file it found, given the pid read from it and
/// whether that process runs: refuse when it does; otherwise (a stale or unreadable pid)
/// the file is removed (`Ok`) and the start goes on.
pub fn existing_pid_check(pid: Result<u32, String>, running: bool) -> (r: Result<(), String>)
    ensures
        pid is Ok && running ==> r is Err && r->Err_0@ == already_running_text(pid->Ok_0),
        !(pid is Ok && running) ==> r is Ok,
{
    match pid {
        Ok(p) => {
            if running {
                Err(already_running_message(p))
            } else {
                Ok(())
            }
        },
        Err(_) => Ok(()),
    }
}

/// What `daemon status` found.
#[derive(Debug, Clone, Copy, PartialEq, Eq)]
pub enum DaemonHealth {
    /// There is no pid file.
    NoPidFile,
    /// The pid file names no running process.
    Dead,
    /// The process runs and answered a status request.
    Responding,
    /// The process runs but did not answer.
    Unresponsive,
}

/// The lines `daemon status` prints for what it found.
pub open spec fn status_lines(health: DaemonHealth, pid: u32, port: u16, log_file: Option<Seq<char>>) -> Seq<Seq<char>> {
    match health {
        DaemonHealth::NoPidFile => seq!["Status: Not running (no PID file)"@],
        DaemonHealth::Dead => seq![
            "Status: Dead (PID file exists but process not found)"@,
            "Hint: Run 'spotiline daemon start' to restart"@,
        ],
        DaemonHealth::Responding => {
            let head = seq![
                "Status: Running (PID "@ + decimal(pid as nat) + ")"@,
                "Port: "@ + decimal(port as nat),
            ];
            match log_file {
                Some(f) => head.push("Logs: "@ + f),
                None => head,
            }
        },
        DaemonHealth::Unresponsive => seq![
            "Status: Process running but not responding (PID "@ + decimal(pid as nat) + ")"@,
            "Hint: May still be initializing, or try 'spotiline daemon stop' then restart"@,
        ],
    }
}

fn text_line(parts: &Vec<char>) -> (s: String)
    ensures
        s@ == parts@,
{
    string_from(parts)
}

/// The lines `daemon status` prints; `log_file` is where the log is written, if known.
pub fn daemon_status_lines(health: DaemonHealth, pid: u32, port: u16, log_file: Option<String>) -> (r: Vec<String>)
    ensures
        lines_view(r@) == status_lines(health, pid, port, opt_view(log_file)),
{
    let mut r: Vec<String> = Vec::new();
    match health {
        DaemonHealth::NoPidFile => {
            r.push("Status: Not running (no PID file)".to_string());
        },
        DaemonHealth::Dead => {
            r.push("Status: Dead (PID file exists but process not found)".to_string());
            r.push("Hint: Run 'spotiline daemon start' to restart".to_string());
        },
        DaemonHealth::Responding => {
            let mut a: Vec<char> = Vec::new();
            push_str(&mut a, "Status: Running (PID ");
            push_decimal(&mut a, pid as u64);
            push_str(&mut a, ")");
            r.push(text_line(&a));
            let mut b: Vec<char> = Vec::new();
            push_str(&mut b, "Port: ");
            push_decimal(&mut b, port as u64);
            r.push(text_line(&b));
            if let Some(f) = &log_file {
                let mut c: Vec<char> = Vec::new();
                push_str(&mut c, "Logs: ");
                push_str(&mut c, f.as_str());
                r.push(text_line(&c));
            }
        },
        DaemonHealth::Unresponsive => {
            let mut a: Vec<char> = Vec::new();
            push_str(&mut a, "Status: Process running but not responding (PID ");
            push_decimal(&mut a, pid as u64);
            push_str(&mut a, ")");
            r.push(text_line(&a));
            r.push(
                "Hint: May still be initializing, or try 'spotiline daemon stop' then restart".to_string(),
            );
        },
    }
    assert(lines_view(r@) =~= status_lines(health, pid, port, opt_view(log_file)));
    r
}

/// The lines `daemon stop` prints when there is no pid file.
pub open spec fn not_running_lines() -> Seq<Seq<char>> {
    seq!["Daemon not running"@, "Hint: Use 'spotiline daemon start' to start it"@]
}

/// The lines `daemon stop` prints: the hint when there was no pid file, the
/// confirmation after the process was stopped.
pub fn stop_lines(had_pid_file: bool) -> (r: Vec<String>)
    ensures
        had_pid_file ==> lines_view(r@) == seq!["Daemon stopped"@],
        !had_pid_file ==> lines_view(r@) == not_running_lines(),
{
    let mut r: Vec<String> = Vec::new();
    if had_pid_file {
        r.push("Daemon stopped".to_string());
        assert(lines_view(r@) =~= seq!["Daemon stopped"@]);
    } else {
        r.push("Daemon not running".to_string());
        r.push("Hint: Use 'spotiline daemon start' to start it".to_string());
        assert(lines_view(r@) =~= not_running_lines());
    }
    r
}

/// What `daemon start` does after it spawned the daemon and asked it for its status.
#[derive(Debug, Clone, PartialEq, Eq)]
pub struct StartCheck {
    /// The lines to print.
    pub lines: Vec<String>,
    /// Whether the pid file is to be removed.
    pub remove_pid_file: bool,
}

/// The pid in the pid file read after a failed start, or 0 when there is none.
pub open spec fn recorded_pid(content: Seq<char>) -> nat {
    if is_u32_text(trim(content)) {
        digits_value(unsigned_body(trim(content)))
    } else {
        0
    }
}

/// The lines printed when the freshly started daemon does not answer.
pub open spec fn crash_lines(error: Seq<char>, log_dir: Seq<char>) -> Seq<Seq<char>> {
    seq![
        "\u{26a0}\u{fe0f}  Warning: Daemon may have crashed during initialization"@,
        "   Error: "@ + error,
        "   Hint: Run 'spotiline daemon status' for details or check logs in "@ + log_dir,
    ]
}

/// What follows the status request made right after starting the daemon: a confirmation
/// when it answered; otherwise warnings, and the pid file (read as `pid_file`) is removed
/// when it names a pid other than 0. `log_dir` is the log directory as it is shown.
pub fn start_check(probe: Result<(), String>, pid_file: &str, log_dir: &str) -> (r: StartCheck)
    ensures
        match probe {
            Ok(_) => lines_view(r.lines@) == seq!["\u{2713} Daemon is responding"@] && !r.remove_pid_file,
            Err(e) => {
                let pid = recorded_pid(pid_file@);
                &&& r.remove_pid_file == (pid != 0)
                &&& pid != 0 ==> lines_view(r.lines@) == crash_lines(e@, log_dir@).push(
                    "   Removed stale PID file ("@ + decimal(pid) + ")"@)
                &&& pid == 0 ==> lines_view(r.lines@) == crash_lines(e@, log_dir@)
            },
        },
{
    let mut lines: Vec<String> = Vec::new();
    match probe {
        Ok(_) => {
            lines.push("\u{2713} Daemon is responding".to_string());
            assert(lines_view(lines@) =~= seq!["\u{2713} Daemon is responding"@]);
            StartCheck { lines, remove_pid_file: false }
        },
        Err(e) => {
            let pid: u32 = match parse_pid(pid_file) {
                Ok(p) => p,
                Err(_) => 0,
            };
            lines.push("\u{26a0}\u{fe0f}  Warning: Daemon may have crashed during initialization".to_string());
            let mut a: Vec<char> = Vec::new();
            push_str(&mut a, "   Error: ");
            push_str(&mut a, e.as_str());
            lines.push(text_line(&a));
            let mut b: Vec<char> = Vec::new();
            push_str(&mut b, "   Hint: Run 'spotiline daemon status' for details or check logs in ");
            push_str(&mut b, log_dir);
            lines.push(text_line(&b));
            assert(lines_view(lines@) =~= crash_lines(e@, log_dir@));
            if pid != 0 {
                let mut c: Vec<char> = Vec::new();
                push_str(&mut c, "   Removed stale PID file (");
                push_decimal(&mut c, pid as u64);
                push_str(&mut c, ")");
                let ghost before = lines_view(lines@);
                lines.push(text_line(&c));
                assert(lines_view(lines@) =~= before.push(c@));
            }
            StartCheck { lines, remove_pid_file: pid != 0 }
        },
    }
}

/// What reading one keyring entry gave.
#[derive(Debug, Clone, PartialEq, Eq)]
pub enum SecretProbe {
    /// The entry holds this value (possibly empty).
    Value(String),
    /// The entry could not be read: the error's text.
    Unreadable(String),
    /// The keyring could not be opened for the entry: the error's text.
    NoAccess(String),
}

/// The length in bytes of the UTF-8 encoding of `s`, as `str::len` reports it.
pub open spec fn byte_len(s: Seq<char>) -> nat {
    (vstd::utf8::encode_utf8(s).len() as usize) as nat
}

/// The diagnostic line for one credential in the keyring; `length` counts the bytes of
/// the value.
pub open spec fn credential_probe_line(key: Seq<char>, p: SecretProbe) -> Seq<char> {
    match p {
        SecretProbe::Value(v) => if v@.len() > 0 {
            "   \u{2713} "@ + key + " found (length: "@ + decimal(byte_len(v@)) + ")"@
        } else {
            "   \u{2717} "@ + key + " is empty"@
        },
        SecretProbe::Unreadable(e) => "   \u{2717} "@ + key + " not found: "@ + e@,
        SecretProbe::NoAccess(e) => "   \u{2717} Cannot access keyring for "@ + key + ": "@ + e@,
    }
}

/// The diagnostic lines for the token in the keyring: a warning follows when it holds
/// more than 2048 bytes.
pub open spec fn token_probe_lines(p: SecretProbe) -> Seq<Seq<char>> {
    match p {
        SecretProbe::Value(v) => if v@.len() > 0 {
            let found = "   \u{2713} Token found (length: "@ + decimal(byte_len(v@)) + ")"@;
            if byte_len(v@) > 2048 {
                seq![found, "   \u{26a0}\u{fe0f}  Token is very large (>2KB), may exceed manager limits"@]
            } else {
                seq![found]
            }
        } else {
            seq!["   \u{2717} Token is empty"@]
        },
        SecretProbe::Unreadable(e) => seq!["   \u{2717} Token not found: "@ + e@],
        SecretProbe::NoAccess(e) => seq!["   \u{2717} Cannot access keyring: "@ + e@],
    }
}

/// The diagnostic report shows a secret only through its length: two keyring values of
/// the same length (and both empty or both not) give the same lines.
pub proof fn law_secrets_count_only_by_length(key: Seq<char>, a: String, b: String)
    requires
        byte_len(a@) == byte_len(b@),
        (a@.len() == 0) == (b@.len() == 0),
    ensures
        credential_probe_line(key, SecretProbe::Value(a)) == credential_probe_line(key, SecretProbe::Value(b)),
        token_probe_lines(SecretProbe::Value(a)) == token_probe_lines(SecretProbe::Value(b)),
{
}

fn credential_probe_text(key: &str, p: &SecretProbe) -> (r: String)
    ensures
        r@ == credential_probe_line(key@, *p),
{
    let mut m: Vec<char> = Vec::new();
    match p {
        SecretProbe::Value(v) => {
            if !v.as_str().is_empty() {
                push_str(&mut m, "   \u{2713} ");
                push_str(&mut m, key);
                push_str(&mut m, " found (length: ");
                push_decimal(&mut m, v.as_str().len() as u64);
                push_str(&mut m, ")");
            } else {
                push_str(&mut m, "   \u{2717} ");
                push_str(&mut m, key);
                push_str(&mut m, " is empty");
            }
        },
        SecretProbe::Unreadable(e) => {
            push_str(&mut m, "   \u{2717} ");
            push_str(&mut m, key);
            push_str(&mut m, " not found: ");
            push_str(&mut m, e.as_str());
        },
        SecretProbe::NoAccess(e) => {
            push_str(&mut m, "   \u{2717} Cannot access keyring for ");
            push_str(&mut m, key);
            push_str(&mut m, ": ");
            push_str(&mut m, e.as_str());
        },
    }
    string_from(&m)
}

/// The first part of `daemon diagnose`: the report's heading, one line for each
/// credential in the keyring, the token's lines, and the heading of the daemon check
/// (whose lines `daemon_status_lines` gives).
pub fn diagnose_lines(client_id: &SecretProbe, client_secret: &SecretProbe, token: &SecretProbe) -> (r: Vec<String>)
    ensures
        lines_view(r@) == seq![
            "=== Spotiline Diagnostic Report ===\n"@,
            "1. Checking credentials in keyring..."@,
            credential_probe_line("SPOTIFY_CLIENT_ID"@, *client_id),
            credential_probe_line("SPOTIFY_CLIENT_SECRET"@, *client_secret),
            "\n2. Checking authentication token..."@,
        ] + token_probe_lines(*token) + seq!["\n3. Checking daemon status..."@],
{
    let mut r: Vec<String> = Vec::new();
    r.push("=== Spotiline Diagnostic Report ===\n".to_string());
    r.push("1. Checking credentials in keyring...".to_string());
    r.push(credential_probe_text("SPOTIFY_CLIENT_ID", client_id));
    r.push(credential_probe_text("SPOTIFY_CLIENT_SECRET", client_secret));
    r.push("\n2. Checking authentication token...".to_string());
    let ghost head = lines_view(r@);
    let mut m: Vec<char> = Vec::new();
    match token {
        SecretProbe::Value(v) => {
            if !v.as_str().is_empty() {
                push_str(&mut m, "   \u{2713} Token found (length: ");
                push_decimal(&mut m, v.as_str().len() as u64);
                push_str(&mut m, ")");
                r.push(text_line(&m));
                if v.as_str().len() > 2048 {
                    r.push("   \u{26a0}\u{fe0f}  Token is very large (>2KB), may exceed manager limits".to_string());
                }
            } else {
                r.push("   \u{2717} Token is empty".to_string());
            }
        },
        SecretProbe::Unreadable(e) => {
            push_str(&mut m, "   \u{2717} Token not found: ");
            push_str(&mut m, e.as_str());
            r.push(text_line(&m));
        },
        SecretProbe::NoAccess(e) => {
            push_str(&mut m, "   \u{2717} Cannot access keyring: ");
            push_str(&mut m, e.as_str());
            r.push(text_line(&m));
        },
    }
    assert(lines_view(r@) =~= head + token_probe_lines(*token));
    let ghost mid = lines_view(r@);
    r.push("\n3. Checking daemon status...".to_string());
    assert(lines_view(r@) =~= mid + seq!["\n3. Checking daemon status..."@]);
    r
}

/// The last line of `daemon diagnose`.
pub fn diagnose_end_line() -> (r: String)
    ensures
        r@ == "\n=== End of Diagnostic Report ==="@,
{
    "\n=== End of Diagnostic Report ===".to_string()
}

/// Each command sends the request of the same name, carrying its arguments unchanged.
pub proof fn law_commands_send_their_own_request(
    seconds: u32,
    level: u8,
    query: String,
    search_type: Option<String>,
    play: bool,
    uri: String,
)
    ensures
        request_for(Commands::Play) == CommandView::Play,
        request_for(Commands::Pause) == CommandView::Pause,
        request_for(Commands::Next) == CommandView::Next,
        request_for(Commands::Prev) == CommandView::Prev,
        request_for((Commands::Seek { seconds })) == CommandView::Seek(seconds),
        request_for((Commands::Volume { level })) == CommandView::Volume(level),
        request_for((Commands::Search { query, search_type, play })) == (CommandView::Search {
            query: query@,
            search_type: opt_view(search_type),
            play,
        }),
        request_for((Commands::Queue { uri })) == CommandView::Queue(uri@),
{
}

/// The decimal text of a positive number does not start with a zero.
proof fn lemma_decimal_leads_with_nonzero(n: nat)
    requires
        n > 0,
    ensures
        decimal(n)[0] != '0',
    decreases n,
{
    if n >= 10 {
        lemma_decimal_leads_with_nonzero(n / 10);
        lemma_decimal_digits(n / 10);
        assert(decimal(n)[0] == decimal(n / 10)[0]);
    }
}

/// Each search-result line starts with the result's position counted from one, in
/// decimal without leading zeros, followed by `. `, the name, ` - `, the artist and the
/// URI in brackets.
pub proof fn law_result_lines_are_numbered_from_one(i: nat, t: TrackView)
    ensures
        exists|p: Seq<char>|
            #![trigger digits_value(p)]
            p.len() > 0 && all_digits(p) && p[0] != '0' && digits_value(p) == i + 1
                && result_line(i, t) == p + ". "@ + t.name + " - "@ + t.artist + " ("@ + t.uri
                + ")"@,
{
    lemma_decimal_digits(i + 1);
    lemma_decimal_leads_with_nonzero(i + 1);
    assert(digits_value(decimal(i + 1)) == i + 1);
}

} // verus!
