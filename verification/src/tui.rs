//! The terminal interface's state and its answers to keys; the requests it sends to
//! the daemon are returned to the caller, which sends them and hands back the replies.
use vstd::prelude::*;
use crate::state::{tracks_view, CommandView, IPCCommand, IPCResponse, TrackInfo, TrackView};
use crate::text::{decimal, digit_char, push_decimal, push_str, push_two_digits, same_text, string_from, two_digits};

verus! {

/// Whether keys move around or type into the search box.
#[derive(Debug, Clone, Copy, PartialEq, Eq, Structural)]
pub enum InputMode {
    Navigation,
    Search,
}

/// The list that the arrow keys move in.
#[derive(Debug, Clone, Copy, PartialEq, Eq, Structural)]
pub enum FocusPane {
    Playlists,
    Tracks,
}

/// Which row of a list is selected.
#[derive(Debug, Clone, Copy, PartialEq, Eq)]
pub struct ListState {
    pub selected: Option<usize>,
}

impl ListState {
    /// Nothing selected.
    pub fn new() -> (s: Self)
        ensures
            s.selected is None,
    {
        ListState { selected: None }
    }

    /// The selected row.
    pub fn selected(&self) -> (r: Option<usize>)
        ensures
            r == self.selected,
    {
        self.selected
    }

    /// Selects a row (or none).
    pub fn select(&mut self, index: Option<usize>)
        ensures
            final(self).selected == index,
    {
        self.selected = index;
    }
}

/// A key as the interface reads it.
#[derive(Debug, Clone, Copy, PartialEq, Eq)]
pub enum KeyCode {
    Char(char),
    Enter,
    Esc,
    Backspace,
    Left,
    Right,
    Up,
    Down,
    Tab,
    Other,
}

/// Whether a key went down, repeated or went up.
#[derive(Debug, Clone, Copy, PartialEq, Eq)]
pub enum KeyEventKind {
    Press,
    Repeat,
    Release,
}

/// A key event.
#[derive(Debug, Clone, Copy, PartialEq, Eq)]
pub struct KeyEvent {
    pub code: KeyCode,
    pub kind: KeyEventKind,
}

/// What the interface asks of the daemon.
#[derive(Debug, Clone, PartialEq, Eq)]
pub enum Request {
    /// Send the command, tell `App::toggle_play_pause` whether it was delivered, then
    /// refresh the status (`App::tick`).
    TogglePlayPause(IPCCommand),
    /// Send the commands in order, whatever they are answered, then refresh the status.
    SendAndRefresh(Vec<IPCCommand>),
    /// Send the search and give the reply to `App::receive_search_results`.
    Search(IPCCommand),
}

/// The mathematical content of a `Request`.
pub enum RequestView {
    TogglePlayPause(CommandView),
    SendAndRefresh(Seq<CommandView>),
    Search(CommandView),
}

impl View for Request {
    type V = RequestView;

    open spec fn view(&self) -> RequestView {
        match self {
            Request::TogglePlayPause(c) => RequestView::TogglePlayPause(c@),
            Request::SendAndRefresh(v) => RequestView::SendAndRefresh(
                v@.map_values(|c: IPCCommand| c@),
            ),
            Request::Search(c) => RequestView::Search(c@),
        }
    }
}

/// What a key leads to.
#[derive(Debug, Clone, PartialEq, Eq)]
pub enum KeyOutcome {
    /// Leave the interface.
    Quit,
    /// Nothing to send.
    Stay,
    /// A request for the daemon.
    Send(Request),
}

/// The mathematical content of a `KeyOutcome`.
pub enum OutcomeView {
    Quit,
    Stay,
    Send(RequestView),
}

impl View for KeyOutcome {
    type V = OutcomeView;

    open spec fn view(&self) -> OutcomeView {
        match self {
            KeyOutcome::Quit => OutcomeView::Quit,
            KeyOutcome::Stay => OutcomeView::Stay,
            KeyOutcome::Send(r) => OutcomeView::Send(r@),
        }
    }
}

/// The interface's state.
pub struct App {
    pub port: u16,
    pub input_mode: InputMode,
    pub focus: FocusPane,
    pub playlists: Vec<String>,
    pub playlist_state: ListState,
    pub tracks: Vec<TrackInfo>,
    pub track_state: ListState,
    pub search_input: String,
    pub search_results: Vec<TrackInfo>,
    pub current_track: String,
    pub current_artist: String,
    pub is_playing: bool,
    pub progress_ms: u64,
    pub duration_ms: u64,
    pub status_msg: String,
}

/// The mathematical content of an `App`.
#[verifier::ext_equal]
pub struct AppView {
    pub port: u16,
    pub input_mode: InputMode,
    pub focus: FocusPane,
    pub playlists: Seq<Seq<char>>,
    pub playlist_selected: Option<usize>,
    pub tracks: Seq<TrackView>,
    pub track_selected: Option<usize>,
    pub search_input: Seq<char>,
    pub search_results: Seq<TrackView>,
    pub current_track: Seq<char>,
    pub current_artist: Seq<char>,
    pub is_playing: bool,
    pub progress_ms: u64,
    pub duration_ms: u64,
    pub status_msg: Seq<char>,
}

impl View for App {
    type V = AppView;

    open spec fn view(&self) -> AppView {
        AppView {
            port: self.port,
            input_mode: self.input_mode,
            focus: self.focus,
            playlists: self.playlists@.map_values(|s: String| s@),
            playlist_selected: self.playlist_state.selected,
            tracks: tracks_view(self.tracks@),
            track_selected: self.track_state.selected,
            search_input: self.search_input@,
            search_results: tracks_view(self.search_results@),
            current_track: self.current_track@,
            current_artist: self.current_artist@,
            is_playing: self.is_playing,
            progress_ms: self.progress_ms,
            duration_ms: self.duration_ms,
            status_msg: self.status_msg@,
        }
    }
}

/// The state right after start-up, before the first status refresh.
pub open spec fn initial_app(port: u16) -> AppView {
    AppView {
        port,
        input_mode: InputMode::Navigation,
        focus: FocusPane::Playlists,
        playlists: seq!["Liked Songs"@, "Discover Weekly"@],
        playlist_selected: Some(0),
        tracks: Seq::empty(),
        track_selected: None,
        search_input: Seq::empty(),
        search_results: Seq::empty(),
        current_track: Seq::empty(),
        current_artist: Seq::empty(),
        is_playing: false,
        progress_ms: 0,
        duration_ms: 0,
        status_msg: "Daemon Active"@,
    }
}

/// The selected index, or 0.
pub open spec fn index_or_zero(o: Option<usize>) -> int {
    match o {
        Some(i) => i as int,
        None => 0,
    }
}

/// The selection after the up arrow: one row up in the focused list, unless at the top.
pub open spec fn selection_up(a: AppView) -> AppView {
    match a.focus {
        FocusPane::Playlists => {
            let i = index_or_zero(a.playlist_selected);
            if i > 0 {
                AppView { playlist_selected: Some((i - 1) as usize), ..a }
            } else {
                a
            }
        },
        FocusPane::Tracks => {
            let i = index_or_zero(a.track_selected);
            if i > 0 {
                AppView { track_selected: Some((i - 1) as usize), ..a }
            } else {
                a
            }
        },
    }
}

/// The rows of the track list: the search results when there are any, else the tracks.
pub open spec fn shown_tracks(a: AppView) -> Seq<TrackView> {
    if a.search_results.len() > 0 {
        a.search_results
    } else {
        a.tracks
    }
}

/// The selection after the down arrow: one row down in the focused list, unless at the
/// bottom.
pub open spec fn selection_down(a: AppView) -> AppView {
    match a.focus {
        FocusPane::Playlists => {
            let i = index_or_zero(a.playlist_selected);
            if i + 1 < a.playlists.len() {
                AppView { playlist_selected: Some((i + 1) as usize), ..a }
            } else {
                a
            }
        },
        FocusPane::Tracks => {
            let i = index_or_zero(a.track_selected);
            if i + 1 < shown_tracks(a).len() {
                AppView { track_selected: Some((i + 1) as usize), ..a }
            } else {
                a
            }
        },
    }
}

/// The other pane.
pub open spec fn other_pane(f: FocusPane) -> FocusPane {
    match f {
        FocusPane::Playlists => FocusPane::Tracks,
        FocusPane::Tracks => FocusPane::Playlists,
    }
}

/// The selected track of the track list, if a valid row is selected.
pub open spec fn selected_track(a: AppView) -> Option<TrackView> {
    match a.track_selected {
        Some(i) => if i < shown_tracks(a).len() {
            Some(shown_tracks(a)[i as int])
        } else {
            None
        },
        None => None,
    }
}

/// What playing the selection sends: the track's URI to the queue, then `Play`.
pub open spec fn play_selected_request(a: AppView) -> Option<RequestView> {
    match selected_track(a) {
        Some(t) => Some(RequestView::SendAndRefresh(seq![CommandView::Queue(t.uri), CommandView::Play])),
        None => None,
    }
}

/// The position a seek asks for, in seconds: the current second plus `delta`, kept
/// between 0 and the largest position a seek command can carry.
pub open spec fn seek_target(progress_ms: u64, delta: int) -> u32 {
    let x = progress_ms / 1000 + delta;
    if x <= 0 {
        0
    } else if x >= u32::MAX {
        u32::MAX
    } else {
        x as u32
    }
}

/// The command that toggles playback.
pub open spec fn toggle_command(is_playing: bool) -> CommandView {
    if is_playing {
        CommandView::Pause
    } else {
        CommandView::Play
    }
}

/// The search the interface sends for what is typed.
pub open spec fn search_command(input: Seq<char>) -> CommandView {
    CommandView::Search { query: input, search_type: Some("track"@), play: false }
}

/// Live search: with an empty box the results are cleared and nothing is sent;
/// otherwise the search is sent.
pub open spec fn live_search_step(a: AppView) -> (AppView, Option<RequestView>) {
    if a.search_input.len() == 0 {
        (AppView { search_results: Seq::empty(), ..a }, None)
    } else {
        (a, Some(RequestView::Search(search_command(a.search_input))))
    }
}

/// A key outcome for an optional request.
pub open spec fn outcome_of(r: Option<RequestView>) -> OutcomeView {
    match r {
        Some(r) => OutcomeView::Send(r),
        None => OutcomeView::Stay,
    }
}

/// What a key does in navigation mode.
pub open spec fn navigation_step(a: AppView, code: KeyCode) -> (AppView, OutcomeView) {
    match code {
        KeyCode::Char(c) => if c == 'q' {
            (a, OutcomeView::Quit)
        } else if c == ' ' {
            (a, OutcomeView::Send(RequestView::TogglePlayPause(toggle_command(a.is_playing))))
        } else if c == '/' {
            (AppView { input_mode: InputMode::Search, ..a }, OutcomeView::Stay)
        } else if c == 'n' {
            (a, OutcomeView::Send(RequestView::SendAndRefresh(seq![CommandView::Next])))
        } else if c == 'p' {
            (a, OutcomeView::Send(RequestView::SendAndRefresh(seq![CommandView::Prev])))
        } else {
            (a, OutcomeView::Stay)
        },
        KeyCode::Enter => (a, outcome_of(play_selected_request(a))),
        KeyCode::Left => (a, OutcomeView::Send(RequestView::SendAndRefresh(seq![CommandView::Seek(seek_target(a.progress_ms, -10))]))),
        KeyCode::Right => (a, OutcomeView::Send(RequestView::SendAndRefresh(seq![CommandView::Seek(seek_target(a.progress_ms, 10))]))),
        KeyCode::Up => (selection_up(a), OutcomeView::Stay),
        KeyCode::Down => (selection_down(a), OutcomeView::Stay),
        KeyCode::Tab => (AppView { focus: other_pane(a.focus), ..a }, OutcomeView::Stay),
        _ => (a, OutcomeView::Stay),
    }
}

/// What a key does in search mode.
pub open spec fn search_step(a: AppView, code: KeyCode) -> (AppView, OutcomeView) {
    match code {
        KeyCode::Esc => (
            AppView {
                input_mode: InputMode::Navigation,
                search_input: Seq::empty(),
                search_results: Seq::empty(),
                ..a
            },
            OutcomeView::Stay,
        ),
        KeyCode::Enter => {
            let b = AppView { input_mode: InputMode::Navigation, ..a };
            if b.search_results.len() > 0 {
                (b, outcome_of(play_selected_request(b)))
            } else {
                (b, OutcomeView::Stay)
            }
        },
        KeyCode::Backspace => {
            let b = AppView {
                search_input: if a.search_input.len() > 0 {
                    a.search_input.drop_last()
                } else {
                    a.search_input
                },
                ..a
            };
            (live_search_step(b).0, outcome_of(live_search_step(b).1))
        },
        KeyCode::Char(c) => {
            let b = AppView { search_input: a.search_input.push(c), ..a };
            (live_search_step(b).0, outcome_of(live_search_step(b).1))
        },
        KeyCode::Up => (selection_up(a), OutcomeView::Stay),
        KeyCode::Down => (selection_down(a), OutcomeView::Stay),
        _ => (a, OutcomeView::Stay),
    }
}

/// What a key event does: only presses count; their meaning depends on the mode.
pub open spec fn key_step(a: AppView, key: KeyEvent) -> (AppView, OutcomeView) {
    if !(key.kind is Press) {
        (a, OutcomeView::Stay)
    } else {
        match a.input_mode {
            InputMode::Navigation => navigation_step(a, key.code),
            InputMode::Search => search_step(a, key.code),
        }
    }
}

/// `String::push`.
#[verifier::external_body]
fn push_char(s: &mut String, c: char)
    ensures
        final(s)@ == old(s)@.push(c),
{
    s.push(c);
}

/// `String::pop`.
#[verifier::external_body]
fn pop_char(s: &mut String) -> (r: Option<char>)
    ensures
        old(s)@.len() == 0 ==> r is None && final(s)@ == old(s)@,
        old(s)@.len() > 0 ==> r == Some(old(s)@.last()) && final(s)@ == old(s)@.drop_last(),
{
    s.pop()
}

impl App {
    /// The interface's state at start-up for the daemon on `port`; the caller refreshes
    /// the status right after.
    pub fn new(port: u16) -> (app: Self)
        ensures
            app@ == initial_app(port),
    {
        let mut playlists: Vec<String> = Vec::new();
        playlists.push("Liked Songs".to_string());
        playlists.push("Discover Weekly".to_string());
        let mut app = App {
            port,
            input_mode: InputMode::Navigation,
            focus: FocusPane::Playlists,
            playlists,
            playlist_state: ListState::new(),
            tracks: Vec::new(),
            track_state: ListState::new(),
            search_input: String::new(),
            search_results: Vec::new(),
            current_track: String::new(),
            current_artist: String::new(),
            is_playing: false,
            progress_ms: 0,
            duration_ms: 0,
            status_msg: "Daemon Active".to_string(),
        };
        app.playlist_state.select(Some(0));
        assert(app@.playlists =~= seq!["Liked Songs"@, "Discover Weekly"@]);
        assert(app@.tracks =~= Seq::<TrackView>::empty());
        assert(app@.search_results =~= Seq::<TrackView>::empty());
        app
    }

    /// The daemon's port.
    pub fn port(&self) -> (p: u16)
        ensures
            p == self@.port,
    {
        self.port
    }

    /// Takes in the reply to a status request: a reported state replaces what is shown
    /// (playing exactly when its state is `playing`); any other reply, or none, changes
    /// nothing.
    pub fn tick(&mut self, reply: Option<IPCResponse>)
        ensures
            match reply {
                Some(IPCResponse::State(s)) => final(self)@ == (AppView {
                    is_playing: s.state@ == "playing"@,
                    current_track: s.track@,
                    current_artist: s.artist@,
                    progress_ms: s.progress_ms,
                    duration_ms: s.duration_ms,
                    ..old(self)@
                }),
                _ => final(self)@ == old(self)@,
            },
    {
        if let Some(IPCResponse::State(state)) = reply {
            self.is_playing = same_text(state.state.as_str(), "playing");
            self.current_track = state.track;
            self.current_artist = state.artist;
            self.progress_ms = state.progress_ms;
            self.duration_ms = state.duration_ms;
        }
    }

    /// The command that toggles playback: `Pause` while playing, `Play` otherwise.
    pub fn play_pause_command(&self) -> (c: IPCCommand)
        ensures
            c@ == toggle_command(self@.is_playing),
    {
        if self.is_playing {
            IPCCommand::Pause
        } else {
            IPCCommand::Play
        }
    }

    /// After the toggle command was sent: playback flips when it was delivered.
    pub fn toggle_play_pause(&mut self, delivered: bool)
        ensures
            delivered ==> final(self)@ == (AppView { is_playing: !old(self)@.is_playing, ..old(self)@ }),
            !delivered ==> final(self)@ == old(self)@,
    {
        if delivered {
            self.is_playing = !self.is_playing;
        }
    }

    /// Skipping to the next track: send `Next`, then refresh.
    pub fn next_track(&self) -> (r: Request)
        ensures
            r@ == RequestView::SendAndRefresh(seq![CommandView::Next]),
    {
        let mut v: Vec<IPCCommand> = Vec::new();
        v.push(IPCCommand::Next);
        assert(v@.map_values(|c: IPCCommand| c@) =~= seq![CommandView::Next]);
        Request::SendAndRefresh(v)
    }

    /// Going back a track: send `Prev`, then refresh.
    pub fn prev_track(&self) -> (r: Request)
        ensures
            r@ == RequestView::SendAndRefresh(seq![CommandView::Prev]),
    {
        let mut v: Vec<IPCCommand> = Vec::new();
        v.push(IPCCommand::Prev);
        assert(v@.map_values(|c: IPCCommand| c@) =~= seq![CommandView::Prev]);
        Request::SendAndRefresh(v)
    }

    /// Seeking by `delta_secs` from the current second: send the target, then refresh.
    pub fn seek(&self, delta_secs: i64) -> (r: Request)
        ensures
            r@ == RequestView::SendAndRefresh(
                seq![CommandView::Seek(seek_target(self@.progress_ms, delta_secs as int))],
            ),
    {
        let current_secs = (self.progress_ms / 1000) as i128;
        let sum = current_secs + delta_secs as i128;
        let new_secs: u32 = if sum <= 0 {
            0
        } else if sum >= u32::MAX as i128 {
            u32::MAX
        } else {
            sum as u32
        };
        let mut v: Vec<IPCCommand> = Vec::new();
        v.push(IPCCommand::Seek(new_secs));
        assert(v@.map_values(|c: IPCCommand| c@) =~= seq![
            CommandView::Seek(seek_target(self@.progress_ms, delta_secs as int)),
        ]);
        Request::SendAndRefresh(v)
    }

    /// Live search for what is typed: clears the results and sends nothing when the box
    /// is empty, otherwise sends a track search.
    pub fn live_search(&mut self) -> (r: Option<Request>)
        ensures
            final(self)@ == live_search_step(old(self)@).0,
            match r {
                Some(req) => live_search_step(old(self)@).1 == Some(req@),
                None => live_search_step(old(self)@).1 is None,
            },
    {
        if self.search_input.as_str().is_empty() {
            self.search_results.clear();
            assert(self@.search_results =~= Seq::<TrackView>::empty());
            return None;
        }
        Some(
            Request::Search(
                IPCCommand::Search {
                    query: self.search_input.clone(),
                    search_type: Some("track".to_string()),
                    play: false,
                },
            ),
        )
    }

    /// Takes in the reply to a search: results replace the shown ones, and the first is
    /// selected when there are any; any other reply, or none, changes nothing.
    pub fn receive_search_results(&mut self, reply: Option<IPCResponse>)
        ensures
            match reply {
                Some(IPCResponse::SearchResults(r)) => final(self)@ == (AppView {
                    search_results: tracks_view(r@),
                    track_selected: if r@.len() > 0 {
                        Some(0usize)
                    } else {
                        old(self)@.track_selected
                    },
                    ..old(self)@
                }),
                _ => final(self)@ == old(self)@,
            },
    {
        if let Some(IPCResponse::SearchResults(results)) = reply {
            self.search_results = results;
            if self.search_results.len() > 0 {
                self.track_state.select(Some(0));
            }
        }
    }

    /// Playing the selected row of the track list: queue its URI, play, then refresh;
    /// nothing when no valid row is selected.
    pub fn play_selected(&self) -> (r: Option<Request>)
        ensures
            match r {
                Some(req) => play_selected_request(self@) == Some(req@),
                None => play_selected_request(self@) is None,
            },
    {
        let list = if self.search_results.len() > 0 {
            &self.search_results
        } else {
            &self.tracks
        };
        assert(tracks_view(list@) == shown_tracks(self@));
        match self.track_state.selected {
            Some(i) => {
                if i < list.len() {
                    let uri = list[i].uri.clone();
                    let mut v: Vec<IPCCommand> = Vec::new();
                    v.push(IPCCommand::Queue(uri));
                    v.push(IPCCommand::Play);
                    assert(tracks_view(list@)[i as int] == list@[i as int]@);
                    assert(v@.map_values(|c: IPCCommand| c@) =~= seq![
                        CommandView::Queue(list@[i as int].uri@),
                        CommandView::Play,
                    ]);
                    Some(Request::SendAndRefresh(v))
                } else {
                    None
                }
            },
            None => None,
        }
    }
}

/// Moves the selection of the focused list one row up, unless at the top.
pub fn move_selection_up(app: &mut App)
    ensures
        final(app)@ == selection_up(old(app)@),
{
    match app.focus {
        FocusPane::Playlists => {
            let i = app.playlist_state.selected().unwrap_or(0);
            if i > 0 {
                app.playlist_state.select(Some(i - 1));
            }
        },
        FocusPane::Tracks => {
            let i = app.track_state.selected().unwrap_or(0);
            if i > 0 {
                app.track_state.select(Some(i - 1));
            }
        },
    }
}

/// Moves the selection of the focused list one row down, unless at the bottom.
pub fn move_selection_down(app: &mut App)
    ensures
        final(app)@ == selection_down(old(app)@),
{
    match app.focus {
        FocusPane::Playlists => {
            let i = app.playlist_state.selected().unwrap_or(0);
            let len = app.playlists.len();
            if i < len && i + 1 < len {
                app.playlist_state.select(Some(i + 1));
            }
        },
        FocusPane::Tracks => {
            let i = app.track_state.selected().unwrap_or(0);
            let len = if app.search_results.len() > 0 {
                app.search_results.len()
            } else {
                app.tracks.len()
            };
            if i < len && i + 1 < len {
                app.track_state.select(Some(i + 1));
            }
        },
    }
}


fn outcome(r: Option<Request>) -> (o: KeyOutcome)
    ensures
        o@ == outcome_of(match r {
            Some(req) => Some(req@),
            None => None,
        }),
{
    match r {
        Some(req) => KeyOutcome::Send(req),
        None => KeyOutcome::Stay,
    }
}

/// What a key does in navigation mode: `q` quits, space toggles playback, `/` starts a
/// search, Enter plays the selection, the side arrows seek 10 seconds, the up and down
/// arrows move the selection, Tab switches lists, `n` and `p` skip tracks.
pub fn handle_navigation_key(app: &mut App, key: KeyEvent) -> (o: KeyOutcome)
    ensures
        (final(app)@, o@) == navigation_step(old(app)@, key.code),
{
    match key.code {
        KeyCode::Char(c) => {
            if c == 'q' {
                KeyOutcome::Quit
            } else if c == ' ' {
                KeyOutcome::Send(Request::TogglePlayPause(app.play_pause_command()))
            } else if c == '/' {
                app.input_mode = InputMode::Search;
                KeyOutcome::Stay
            } else if c == 'n' {
                KeyOutcome::Send(app.next_track())
            } else if c == 'p' {
                KeyOutcome::Send(app.prev_track())
            } else {
                KeyOutcome::Stay
            }
        },
        KeyCode::Enter => outcome(app.play_selected()),
        KeyCode::Left => KeyOutcome::Send(app.seek(-10)),
        KeyCode::Right => KeyOutcome::Send(app.seek(10)),
        KeyCode::Up => {
            move_selection_up(app);
            KeyOutcome::Stay
        },
        KeyCode::Down => {
            move_selection_down(app);
            KeyOutcome::Stay
        },
        KeyCode::Tab => {
            app.focus = match app.focus {
                FocusPane::Playlists => FocusPane::Tracks,
                FocusPane::Tracks => FocusPane::Playlists,
            };
            KeyOutcome::Stay
        },
        _ => KeyOutcome::Stay,
    }
}

/// What a key does in search mode: Esc leaves search and clears it, Enter leaves search
/// and plays the selected result, Backspace and characters edit the query and search
/// again, the up and down arrows move the selection.
pub fn handle_search_key(app: &mut App, key: KeyEvent) -> (o: KeyOutcome)
    ensures
        (final(app)@, o@) == search_step(old(app)@, key.code),
{
    match key.code {
        KeyCode::Esc => {
            app.input_mode = InputMode::Navigation;
            app.search_input = String::new();
            app.search_results.clear();
            assert(app@.search_results =~= Seq::<TrackView>::empty());
            KeyOutcome::Stay
        },
        KeyCode::Enter => {
            app.input_mode = InputMode::Navigation;
            if app.search_results.len() > 0 {
                outcome(app.play_selected())
            } else {
                KeyOutcome::Stay
            }
        },
        KeyCode::Backspace => {
            pop_char(&mut app.search_input);
            outcome(app.live_search())
        },
        KeyCode::Char(c) => {
            push_char(&mut app.search_input, c);
            outcome(app.live_search())
        },
        KeyCode::Up => {
            move_selection_up(app);
            KeyOutcome::Stay
        },
        KeyCode::Down => {
            move_selection_down(app);
            KeyOutcome::Stay
        },
        _ => KeyOutcome::Stay,
    }
}

/// What a key event does: releases and repeats are ignored; a press is read according
/// to the input mode.
pub fn handle_key_event(app: &mut App, key: KeyEvent) -> (o: KeyOutcome)
    ensures
        (final(app)@, o@) == key_step(old(app)@, key),
{
    match key.kind {
        KeyEventKind::Press => {},
        _ => {
            return KeyOutcome::Stay;
        },
    }
    match app.input_mode {
        InputMode::Navigation => handle_navigation_key(app, key),
        InputMode::Search => handle_search_key(app, key),
    }
}


/// A time in milliseconds as `m:ss`: whole minutes, then the seconds within the minute
/// in two digits.
pub open spec fn clock_text(ms: u64) -> Seq<char> {
    let secs = (ms / 1000) as nat;
    decimal(secs / 60) + seq![':'] + two_digits(secs % 60)
}

/// The glyph shown before what is playing.
pub open spec fn play_icon(is_playing: bool) -> Seq<char> {
    if is_playing {
        "\u{23f8} "@
    } else {
        "\u{25b6} "@
    }
}

/// The text shown in place of an empty track list.
pub const EMPTY_LIST_HINT: &'static str = "Press / to search";

/// The key help shown at the bottom.
pub const KEY_HELP: &'static str = "Space: Play/Pause | \u{2190}/\u{2192}: Seek | Enter: Play | /: Search | q: Quit";

/// A numbered row of the track list: the number (from 1) and `name - artist`.
pub open spec fn row_texts(i: nat, t: TrackView) -> (Seq<char>, Seq<char>) {
    (decimal(i + 1) + ". "@, t.name + " - "@ + t.artist)
}

impl App {
    /// A time in milliseconds as `m:ss`.
    pub fn format_time(ms: u64) -> (r: String)
        ensures
            r@ == clock_text(ms),
    {
        let secs = ms / 1000;
        let mut m: Vec<char> = Vec::new();
        push_decimal(&mut m, secs / 60);
        m.push(':');
        push_two_digits(&mut m, secs % 60);
        assert(m@ =~= clock_text(ms));
        string_from(&m)
    }

    /// The search field of the header: what is typed, with a cursor, while searching;
    /// a prompt otherwise.
    pub fn search_text(&self) -> (r: String)
        ensures
            self@.input_mode == InputMode::Search ==> r@ == "/ "@ + self@.search_input + "_"@,
            self@.input_mode == InputMode::Navigation ==> r@ == "/ Search..."@,
    {
        if self.input_mode == InputMode::Search {
            let mut m: Vec<char> = Vec::new();
            push_str(&mut m, "/ ");
            push_str(&mut m, self.search_input.as_str());
            push_str(&mut m, "_");
            string_from(&m)
        } else {
            "/ Search...".to_string()
        }
    }

    /// The texts of the header, left to right.
    pub fn header_texts(&self) -> (r: Vec<String>)
        ensures
            r@.map_values(|s: String| s@) == seq![
                "\u{1f7e2} Spotiline  "@,
                "| Mode: TUI "@,
                "| Status: "@ + self@.status_msg + " "@,
                "| "@ + (if self@.input_mode == InputMode::Search {
                    "/ "@ + self@.search_input + "_"@
                } else {
                    "/ Search..."@
                }),
            ],
    {
        let mut r: Vec<String> = Vec::new();
        r.push("\u{1f7e2} Spotiline  ".to_string());
        r.push("| Mode: TUI ".to_string());
        let mut a: Vec<char> = Vec::new();
        push_str(&mut a, "| Status: ");
        push_str(&mut a, self.status_msg.as_str());
        push_str(&mut a, " ");
        r.push(string_from(&a));
        let mut b: Vec<char> = Vec::new();
        push_str(&mut b, "| ");
        let search = self.search_text();
        push_str(&mut b, search.as_str());
        r.push(string_from(&b));
        proof {
            if self@.input_mode == InputMode::Search {
                assert(b@ =~= "| "@ + ("/ "@ + self@.search_input + "_"@));
            } else {
                assert(b@ =~= "| "@ + "/ Search..."@);
            }
        }
        assert(r@.map_values(|s: String| s@) =~= seq![
            "\u{1f7e2} Spotiline  "@,
            "| Mode: TUI "@,
            "| Status: "@ + self@.status_msg + " "@,
            "| "@ + (if self@.input_mode == InputMode::Search {
                "/ "@ + self@.search_input + "_"@
            } else {
                "/ Search..."@
            }),
        ]);
        r
    }

    /// The title of the track list.
    pub fn track_list_title(&self) -> (r: &'static str)
        ensures
            self@.search_results.len() > 0 ==> r@ == "Search Results"@,
            self@.search_results.len() == 0 ==> r@ == "Tracks"@,
    {
        if self.search_results.len() > 0 {
            "Search Results"
        } else {
            "Tracks"
        }
    }

    /// The numbered rows of the track list (the results when there are any, else the
    /// tracks), or none when both are empty and the hint is shown instead.
    pub fn track_rows(&self) -> (r: Option<Vec<(String, String)>>)
        ensures
            shown_tracks(self@).len() == 0 ==> r is None,
            shown_tracks(self@).len() > 0 ==> r is Some && r->Some_0@.len() == shown_tracks(self@).len()
                && forall|i: int| 0 <= i < shown_tracks(self@).len() ==> (#[trigger] r->Some_0@[i]).0@
                    == row_texts(i as nat, shown_tracks(self@)[i]).0 && r->Some_0@[i].1@ == row_texts(
                    i as nat,
                    shown_tracks(self@)[i],
                ).1,
    {
        let list = if self.search_results.len() > 0 {
            &self.search_results
        } else {
            &self.tracks
        };
        assert(tracks_view(list@) == shown_tracks(self@));
        if list.len() == 0 {
            return None;
        }
        let mut rows: Vec<(String, String)> = Vec::new();
        let mut k: usize = 0;
        while k < list.len()
            invariant
                k <= list.len(),
                rows@.len() == k,
                forall|i: int| 0 <= i < k ==> (#[trigger] rows@[i]).0@ == row_texts(i as nat, list@[i]@).0
                    && rows@[i].1@ == row_texts(i as nat, list@[i]@).1,
            decreases list.len() - k,
        {
            let t = &list[k];
            let mut a: Vec<char> = Vec::new();
            push_decimal(&mut a, (k as u64) + 1);
            push_str(&mut a, ". ");
            let mut b: Vec<char> = Vec::new();
            push_str(&mut b, t.name.as_str());
            push_str(&mut b, " - ");
            push_str(&mut b, t.artist.as_str());
            rows.push((string_from(&a), string_from(&b)));
            k = k + 1;
        }
        assert forall|i: int| 0 <= i < list@.len() implies tracks_view(list@)[i] == list@[i]@ by {}
        Some(rows)
    }

    /// The line naming what is playing: the play/pause glyph, the track and the artist.
    pub fn now_playing_text(&self) -> (r: String)
        ensures
            r@ == play_icon(self@.is_playing) + self@.current_track + " - "@ + self@.current_artist,
    {
        let mut m: Vec<char> = Vec::new();
        if self.is_playing {
            push_str(&mut m, "\u{23f8} ");
        } else {
            push_str(&mut m, "\u{25b6} ");
        }
        push_str(&mut m, self.current_track.as_str());
        push_str(&mut m, " - ");
        push_str(&mut m, self.current_artist.as_str());
        string_from(&m)
    }

    /// The label of the progress bar: elapsed and total time.
    pub fn progress_text(&self) -> (r: String)
        ensures
            r@ == clock_text(self@.progress_ms) + " / "@ + clock_text(self@.duration_ms),
    {
        let mut m: Vec<char> = Vec::new();
        push_str(&mut m, App::format_time(self.progress_ms).as_str());
        push_str(&mut m, " / ");
        push_str(&mut m, App::format_time(self.duration_ms).as_str());
        string_from(&m)
    }
}


/// The lists of a view are no longer than a `Vec` can be.
pub open spec fn lists_fit(a: AppView) -> bool {
    &&& a.playlists.len() <= usize::MAX
    &&& a.tracks.len() <= usize::MAX
    &&& a.search_results.len() <= usize::MAX
}

/// Moving down and then up returns to the row that was selected, when there was a row
/// to move down to.
pub proof fn law_down_then_up_returns(a: AppView)
    requires
        lists_fit(a),
        a.focus == FocusPane::Playlists ==> a.playlist_selected is Some,
        a.focus == FocusPane::Tracks ==> a.track_selected is Some,
        selection_down(a) != a,
    ensures
        selection_up(selection_down(a)) == a,
{
    assert(selection_up(selection_down(a)) =~= a);
}

/// The arrows never select a row outside the focused list when a row inside it was
/// selected.
pub proof fn law_selection_stays_in_list(a: AppView)
    ensures
        a.focus == FocusPane::Playlists && 0 <= index_or_zero(a.playlist_selected) < a.playlists.len()
            ==> index_or_zero(selection_down(a).playlist_selected) < a.playlists.len()
            && index_or_zero(selection_up(a).playlist_selected) < a.playlists.len(),
        a.focus == FocusPane::Tracks && 0 <= index_or_zero(a.track_selected) < shown_tracks(a).len()
            ==> index_or_zero(selection_down(a).track_selected) < shown_tracks(a).len()
            && index_or_zero(selection_up(a).track_selected) < shown_tracks(a).len(),
{
}

/// A key press in navigation mode followed by the same key changes the focus back:
/// Tab twice leaves the interface as it was.
pub proof fn law_tab_twice(a: AppView)
    requires
        a.input_mode == InputMode::Navigation,
    ensures
        ({
            let tab = KeyEvent { code: KeyCode::Tab, kind: KeyEventKind::Press };
            key_step(key_step(a, tab).0, tab).0 == a
        }),
{
    let tab = KeyEvent { code: KeyCode::Tab, kind: KeyEventKind::Press };
    assert(key_step(key_step(a, tab).0, tab).0 =~= a);
}

/// Esc in search mode returns to navigation with an empty query and no results, and
/// sends nothing.
pub proof fn law_escape_clears_search(a: AppView)
    requires
        a.input_mode == InputMode::Search,
    ensures
        ({
            let (b, o) = key_step(a, KeyEvent { code: KeyCode::Esc, kind: KeyEventKind::Press });
            &&& b.input_mode == InputMode::Navigation
            &&& b.search_input.len() == 0
            &&& b.search_results.len() == 0
            &&& o == OutcomeView::Stay
        }),
{
}

/// Typing a character and erasing it in search mode gives the query back.
pub proof fn law_type_then_erase(a: AppView, c: char)
    requires
        a.input_mode == InputMode::Search,
    ensures
        ({
            let typed = key_step(a, KeyEvent { code: KeyCode::Char(c), kind: KeyEventKind::Press }).0;
            let erased = key_step(typed, KeyEvent { code: KeyCode::Backspace, kind: KeyEventKind::Press }).0;
            erased.search_input == a.search_input && erased.input_mode == InputMode::Search
        }),
{
    let typed = key_step(a, KeyEvent { code: KeyCode::Char(c), kind: KeyEventKind::Press }).0;
    assert(typed.search_input == a.search_input.push(c));
    assert(typed.search_input.drop_last() =~= a.search_input);
}

/// Keys that are not presses change nothing and send nothing.
pub proof fn law_only_presses_count(a: AppView, key: KeyEvent)
    requires
        !(key.kind is Press),
    ensures
        key_step(a, key) == (a, OutcomeView::Stay),
{
}

/// The clock text always shows the seconds within the minute in exactly two digits.
pub proof fn law_clock_seconds_two_digits(ms: u64)
    ensures
        ({
            let secs = (ms / 1000) as nat;
            &&& clock_text(ms) == decimal(secs / 60) + seq![':'] + two_digits(secs % 60)
            &&& two_digits(secs % 60).len() == 2
        }),
{
    let n = ((ms / 1000) as nat) % 60;
    if n >= 10 {
        assert(decimal(n) == decimal(n / 10).push(digit_char((n % 10) as int)));
        assert(decimal(n / 10).len() == 1);
    }
}

/// Space in navigation mode leaves the state as it is and sends the opposite of the
/// current playback: `Pause` while playing, `Play` otherwise.
pub proof fn law_space_toggles_the_playback(a: AppView)
    ensures
        navigation_step(a, KeyCode::Char(' ')).0 == a,
        a.is_playing ==> navigation_step(a, KeyCode::Char(' ')).1 == OutcomeView::Send(
            RequestView::TogglePlayPause(CommandView::Pause),
        ),
        !a.is_playing ==> navigation_step(a, KeyCode::Char(' ')).1 == OutcomeView::Send(
            RequestView::TogglePlayPause(CommandView::Play),
        ),
{
}

/// Two states that differ only in whether they play send different commands for space.
pub proof fn law_space_depends_on_the_playback(a: AppView, b: AppView)
    requires
        a.is_playing != b.is_playing,
    ensures
        navigation_step(a, KeyCode::Char(' ')).1 != navigation_step(b, KeyCode::Char(' ')).1,
{
}

/// In navigation mode `q` quits, `n` and `p` skip to the next and the previous track, `/`
/// opens the search box, and the left and right arrows seek ten seconds back and forth
/// from the current second (never before the start); nothing else changes.
pub proof fn law_navigation_keys(a: AppView)
    ensures
        navigation_step(a, KeyCode::Char('q')) == (a, OutcomeView::Quit),
        navigation_step(a, KeyCode::Char('n')) == (a, OutcomeView::Send(
            RequestView::SendAndRefresh(seq![CommandView::Next]),
        )),
        navigation_step(a, KeyCode::Char('p')) == (a, OutcomeView::Send(
            RequestView::SendAndRefresh(seq![CommandView::Prev]),
        )),
        navigation_step(a, KeyCode::Char('/')) == ((AppView { input_mode: InputMode::Search, ..a }), OutcomeView::Stay),
        a.progress_ms / 1000 >= 10 && a.progress_ms / 1000 - 10 <= u32::MAX ==> navigation_step(a, KeyCode::Left)
            == (a, OutcomeView::Send(RequestView::SendAndRefresh(
            seq![CommandView::Seek((a.progress_ms / 1000 - 10) as u32)],
        ))),
        a.progress_ms / 1000 < 10 ==> navigation_step(a, KeyCode::Left) == (a, OutcomeView::Send(
            RequestView::SendAndRefresh(seq![CommandView::Seek(0)]),
        )),
        a.progress_ms / 1000 + 10 <= u32::MAX ==> navigation_step(a, KeyCode::Right) == (a, OutcomeView::Send(
            RequestView::SendAndRefresh(seq![CommandView::Seek((a.progress_ms / 1000 + 10) as u32)]),
        )),
{
}

} // verus!
