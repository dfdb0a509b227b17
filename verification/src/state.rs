//! The messages exchanged between the clients and the background daemon.
use vstd::prelude::*;

verus! {

/// A track as the daemon reports it.
#[derive(Debug, Clone, PartialEq, Eq)]
pub struct TrackInfo {
    pub name: String,
    pub artist: String,
    pub uri: String,
    pub duration_ms: u64,
}

/// The mathematical content of a `TrackInfo`.
pub struct TrackView {
    pub name: Seq<char>,
    pub artist: Seq<char>,
    pub uri: Seq<char>,
    pub duration_ms: u64,
}

impl View for TrackInfo {
    type V = TrackView;

    open spec fn view(&self) -> TrackView {
        TrackView {
            name: self.name@,
            artist: self.artist@,
            uri: self.uri@,
            duration_ms: self.duration_ms,
        }
    }
}

/// The views of a sequence of tracks.
pub open spec fn tracks_view(v: Seq<TrackInfo>) -> Seq<TrackView> {
    v.map_values(|t: TrackInfo| t@)
}

/// The view of an optional string.
pub open spec fn opt_view(o: Option<String>) -> Option<Seq<char>> {
    match o {
        Some(s) => Some(s@),
        None => None,
    }
}

/// What is playing, as the daemon reports it.
#[derive(Debug, Clone, PartialEq, Eq)]
pub struct PlaybackState {
    pub state: String,
    pub track: String,
    pub artist: String,
    pub progress_ms: u64,
    pub duration_ms: u64,
}

/// The mathematical content of a `PlaybackState`.
pub struct StatusView {
    pub state: Seq<char>,
    pub track: Seq<char>,
    pub artist: Seq<char>,
    pub progress_ms: u64,
    pub duration_ms: u64,
}

impl View for PlaybackState {
    type V = StatusView;

    open spec fn view(&self) -> StatusView {
        StatusView {
            state: self.state@,
            track: self.track@,
            artist: self.artist@,
            progress_ms: self.progress_ms,
            duration_ms: self.duration_ms,
        }
    }
}

/// The state reported when nothing is known: stopped, no track, zero times.
pub open spec fn stopped_status() -> StatusView {
    StatusView {
        state: "stopped"@,
        track: Seq::empty(),
        artist: Seq::empty(),
        progress_ms: 0,
        duration_ms: 0,
    }
}

impl Default for PlaybackState {
    fn default() -> (r: Self)
        ensures
            r@ == stopped_status(),
    {
        PlaybackState {
            state: "stopped".to_string(),
            track: String::new(),
            artist: String::new(),
            progress_ms: 0,
            duration_ms: 0,
        }
    }
}

/// A request from a client to the daemon.
#[derive(Debug, Clone, PartialEq, Eq)]
pub enum IPCCommand {
    Play,
    Pause,
    Next,
    Prev,
    Seek(u32),
    Volume(u8),
    Status,
    Queue(String),
    Search { query: String, search_type: Option<String>, play: bool },
}

/// The mathematical content of an `IPCCommand`.
pub enum CommandView {
    Play,
    Pause,
    Next,
    Prev,
    Seek(u32),
    Volume(u8),
    Status,
    Queue(Seq<char>),
    Search { query: Seq<char>, search_type: Option<Seq<char>>, play: bool },
}

impl View for IPCCommand {
    type V = CommandView;

    open spec fn view(&self) -> CommandView {
        match self {
            IPCCommand::Play => CommandView::Play,
            IPCCommand::Pause => CommandView::Pause,
            IPCCommand::Next => CommandView::Next,
            IPCCommand::Prev => CommandView::Prev,
            IPCCommand::Seek(s) => CommandView::Seek(*s),
            IPCCommand::Volume(v) => CommandView::Volume(*v),
            IPCCommand::Status => CommandView::Status,
            IPCCommand::Queue(u) => CommandView::Queue(u@),
            IPCCommand::Search { query, search_type, play } => CommandView::Search {
                query: query@,
                search_type: opt_view(*search_type),
                play: *play,
            },
        }
    }
}

/// The daemon's answer to an `IPCCommand`.
#[derive(Debug, Clone, PartialEq, Eq)]
pub enum IPCResponse {
    Done,
    State(PlaybackState),
    SearchResults(Vec<TrackInfo>),
    Error(String),
}

/// The mathematical content of an `IPCResponse`.
pub enum ResponseView {
    Done,
    State(StatusView),
    SearchResults(Seq<TrackView>),
    Error(Seq<char>),
}

impl View for IPCResponse {
    type V = ResponseView;

    open spec fn view(&self) -> ResponseView {
        match self {
            IPCResponse::Done => ResponseView::Done,
            IPCResponse::State(s) => ResponseView::State(s@),
            IPCResponse::SearchResults(t) => ResponseView::SearchResults(tracks_view(t@)),
            IPCResponse::Error(e) => ResponseView::Error(e@),
        }
    }
}

} // verus!
