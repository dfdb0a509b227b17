//! The daemon's decisions: which Spotify Web API request answers an IPC command,
//! and how the API's answers become replies and playback state.
use vstd::prelude::*;
use crate::state::{
    opt_view, stopped_status, tracks_view, CommandView, IPCCommand, IPCResponse, PlaybackState,
    ResponseView, StatusView, TrackInfo, TrackView,
};
use crate::text::{all_ascii_alphanumeric, chars_of, push_all, push_str, same_text, starts_with, string_from};

verus! {

/// How many results a search asks the Web API for.
pub const SEARCH_LIMIT: u32 = 10;

/// The kind of object a search looks for.
#[derive(Debug, Clone, Copy, PartialEq, Eq)]
pub enum SearchKind {
    Track,
    Album,
    Artist,
    Playlist,
}

/// The search kind that a command's optional type names: `album`, `artist` and
/// `playlist` are recognised, anything else (or nothing) searches for tracks.
pub open spec fn search_kind_of(search_type: Option<Seq<char>>) -> SearchKind {
    match search_type {
        Some(t) => {
            if t == "album"@ {
                SearchKind::Album
            } else if t == "artist"@ {
                SearchKind::Artist
            } else if t == "playlist"@ {
                SearchKind::Playlist
            } else {
                SearchKind::Track
            }
        },
        None => SearchKind::Track,
    }
}

/// The search kind for a command's optional search type.
pub fn search_kind(search_type: &Option<String>) -> (k: SearchKind)
    ensures
        k == search_kind_of(opt_view(*search_type)),
{
    match search_type {
        Some(t) => {
            if same_text(t.as_str(), "album") {
                SearchKind::Album
            } else if same_text(t.as_str(), "artist") {
                SearchKind::Artist
            } else if same_text(t.as_str(), "playlist") {
                SearchKind::Playlist
            } else {
                SearchKind::Track
            }
        },
        None => SearchKind::Track,
    }
}

/// The view of a result whose value and error are both strings.
pub open spec fn text_result(r: Result<String, String>) -> Result<Seq<char>, Seq<char>> {
    match r {
        Ok(v) => Ok(v@),
        Err(e) => Err(e@),
    }
}

/// Whether `u` is not a Spotify URI (it starts with neither `spotify:` nor `spotify/`), so
/// that rspotify takes it as a bare id.
pub open spec fn is_bare_id(u: Seq<char>) -> bool {
    !starts_with(u, "spotify:"@) && !starts_with(u, "spotify/"@)
}

/// The position of the last `c` in `s`, if there is one.
pub open spec fn last_index_of(s: Seq<char>, c: char) -> Option<int>
    decreases s.len(),
{
    if s.len() == 0 {
        None
    } else if s.last() == c {
        Some(s.len() - 1)
    } else {
        last_index_of(s.drop_last(), c)
    }
}

/// The track id that a string names, or the name of the error: a bare id must be ASCII
/// alphanumeric (`InvalidId`); a URI `spotify{sep}{type}{sep}{id}`, split at its last
/// separator (`InvalidFormat` when there is none after the prefix), must have the type
/// `track` (`InvalidType`) and an ASCII alphanumeric id (`InvalidId`).
pub open spec fn track_id_result(u: Seq<char>) -> Result<Seq<char>, Seq<char>> {
    if is_bare_id(u) {
        if all_ascii_alphanumeric(u) { Ok(u) } else { Err("InvalidId"@) }
    } else {
        let sep = u["spotify"@.len() as int];
        let rest = u.skip("spotify"@.len() as int + 1);
        match last_index_of(rest, sep) {
            None => Err("InvalidFormat"@),
            Some(mid) => if rest.take(mid) == "track"@ {
                if all_ascii_alphanumeric(rest.skip(mid + 1)) {
                    Ok(rest.skip(mid + 1))
                } else {
                    Err("InvalidId"@)
                }
            } else {
                Err("InvalidType"@)
            },
        }
    }
}

/// rspotify's `TrackId::from_id_or_uri`, with the id taken out by `Id::id` and the error
/// turned into its text (the variant's name, which `strum`'s `Display` gives `IdError`).
/// The contract states the crate's parsing in full: see `track_id_result`.
#[verifier::external_body]
fn track_id(id_or_uri: &str) -> (r: Result<String, String>)
    ensures
        text_result(r) == track_id_result(id_or_uri@),
{
    match rspotify::model::TrackId::from_id_or_uri(id_or_uri) {
        Ok(id) => Ok(rspotify::model::Id::id(&id).to_string()),
        Err(e) => Err(e.to_string()),
    }
}

/// A request to the Spotify Web API.
#[derive(Debug, Clone, PartialEq, Eq)]
pub enum ApiCall {
    /// Resume playback on the active device.
    Resume,
    /// Pause playback.
    Pause,
    /// Skip to the next track.
    Next,
    /// Go back to the previous track.
    Previous,
    /// Seek to a position in the current track.
    Seek { position_ms: u64 },
    /// Set the volume in percent.
    Volume { percent: u8 },
    /// Ask what is playing.
    CurrentPlayback,
    /// Add a track to the queue.
    AddToQueue { track_id: String },
    /// Search the catalogue.
    Search { query: String, kind: SearchKind, limit: u32 },
    /// Start playing one track.
    PlayTrack { track_id: String },
}

/// The mathematical content of an `ApiCall`.
pub enum CallView {
    Resume,
    Pause,
    Next,
    Previous,
    Seek { position_ms: u64 },
    Volume { percent: u8 },
    CurrentPlayback,
    AddToQueue { track_id: Seq<char> },
    Search { query: Seq<char>, kind: SearchKind, limit: u32 },
    PlayTrack { track_id: Seq<char> },
}

impl View for ApiCall {
    type V = CallView;

    open spec fn view(&self) -> CallView {
        match self {
            ApiCall::Resume => CallView::Resume,
            ApiCall::Pause => CallView::Pause,
            ApiCall::Next => CallView::Next,
            ApiCall::Previous => CallView::Previous,
            ApiCall::Seek { position_ms } => CallView::Seek { position_ms: *position_ms },
            ApiCall::Volume { percent } => CallView::Volume { percent: *percent },
            ApiCall::CurrentPlayback => CallView::CurrentPlayback,
            ApiCall::AddToQueue { track_id } => CallView::AddToQueue { track_id: track_id@ },
            ApiCall::Search { query, kind, limit } => CallView::Search {
                query: query@,
                kind: *kind,
                limit: *limit,
            },
            ApiCall::PlayTrack { track_id } => CallView::PlayTrack { track_id: track_id@ },
        }
    }
}

/// What the daemon does first about a command: make a Web API request, or answer at once.
#[derive(Debug, Clone, PartialEq, Eq)]
pub enum Step {
    Call(ApiCall),
    Reply(IPCResponse),
}

/// The mathematical content of a `Step`.
pub enum StepView {
    Call(CallView),
    Reply(ResponseView),
}

impl View for Step {
    type V = StepView;

    open spec fn view(&self) -> StepView {
        match self {
            Step::Call(c) => StepView::Call(c@),
            Step::Reply(r) => StepView::Reply(r@),
        }
    }
}

/// The seek position in milliseconds for a position in seconds: exactly a thousand
/// times the seconds (which always fits in a `u64`).
pub open spec fn seek_position_ms(seconds: u32) -> u64 {
    (seconds as nat * 1000) as u64
}

/// A seek goes to exactly the position asked for: no value of the seconds wraps.
pub proof fn law_seek_position_exact(seconds: u32)
    ensures
        seek_position_ms(seconds) as nat == seconds as nat * 1000,
{
}

/// The first step for each command.
pub open spec fn first_step(c: CommandView) -> StepView {
    match c {
        CommandView::Play => StepView::Call(CallView::Resume),
        CommandView::Pause => StepView::Call(CallView::Pause),
        CommandView::Next => StepView::Call(CallView::Next),
        CommandView::Prev => StepView::Call(CallView::Previous),
        CommandView::Seek(s) => StepView::Call(CallView::Seek { position_ms: seek_position_ms(s) }),
        CommandView::Volume(v) => StepView::Call(CallView::Volume { percent: v }),
        CommandView::Status => StepView::Call(CallView::CurrentPlayback),
        CommandView::Queue(uri) => match track_id_result(uri) {
            Ok(id) => StepView::Call(CallView::AddToQueue { track_id: id }),
            Err(e) => StepView::Reply(ResponseView::Error(e)),
        },
        CommandView::Search { query, search_type, play } => StepView::Call(
            CallView::Search { query, kind: search_kind_of(search_type), limit: SEARCH_LIMIT },
        ),
    }
}

/// The item that is playing, as far as the status reply needs it.
#[derive(Debug, Clone, PartialEq, Eq)]
pub enum PlayingItem {
    /// A track, with its first artist if it has one.
    Track { name: String, first_artist: Option<String>, duration_ms: i64 },
    /// A podcast episode and the show it belongs to.
    Episode { name: String, show_name: String, duration_ms: i64 },
    /// Something else.
    Other,
}

/// What the Web API reports about current playback.
#[derive(Debug, Clone, PartialEq, Eq)]
pub struct PlaybackSnapshot {
    pub is_playing: bool,
    pub progress_ms: Option<i64>,
    pub item: Option<PlayingItem>,
}

/// The string, or the empty string.
pub open spec fn or_empty(o: Option<Seq<char>>) -> Seq<char> {
    match o {
        Some(s) => s,
        None => Seq::empty(),
    }
}

/// The state the daemon reports for a playback snapshot (or for none).
pub open spec fn status_of(p: Option<PlaybackSnapshot>) -> StatusView {
    match p {
        None => stopped_status(),
        Some(s) => {
            let (track, artist, duration) = match s.item {
                Some(PlayingItem::Track { name, first_artist, duration_ms }) => (
                    name@,
                    or_empty(opt_view(first_artist)),
                    duration_ms as u64,
                ),
                Some(PlayingItem::Episode { name, show_name, duration_ms }) => (
                    name@,
                    show_name@,
                    duration_ms as u64,
                ),
                _ => (Seq::<char>::empty(), Seq::<char>::empty(), 0u64),
            };
            StatusView {
                state: if s.is_playing { "playing"@ } else { "paused"@ },
                track,
                artist,
                progress_ms: match s.progress_ms {
                    Some(m) => m as u64,
                    None => 0,
                },
                duration_ms: duration,
            }
        },
    }
}

/// A track found by a search.
#[derive(Debug, Clone, PartialEq, Eq)]
pub struct FoundTrack {
    pub name: String,
    pub first_artist: Option<String>,
    pub id: Option<String>,
    pub duration_ms: i64,
}

/// The kind of a search result that is not a track.
#[derive(Debug, Clone, Copy, PartialEq, Eq)]
pub enum ItemKind {
    Album,
    Artist,
    Playlist,
}

/// An album, artist or playlist found by a search: its name, who it is by (the album's
/// first artist, the playlist's owner; nobody for an artist) and its id.
#[derive(Debug, Clone, PartialEq, Eq)]
pub struct FoundItem {
    pub name: String,
    pub by: Option<String>,
    pub id: Option<String>,
}

/// What a search gave: a page of tracks, a page of albums, artists or playlists, or
/// results of a kind the daemon does not search for.
#[derive(Debug, Clone, PartialEq, Eq)]
pub enum SearchOutcome {
    Tracks(Vec<FoundTrack>),
    Items { kind: ItemKind, items: Vec<FoundItem> },
    Other,
}

/// The name a kind has in Spotify URIs.
pub open spec fn kind_name(k: ItemKind) -> Seq<char> {
    match k {
        ItemKind::Album => "album"@,
        ItemKind::Artist => "artist"@,
        ItemKind::Playlist => "playlist"@,
    }
}

/// The reported form of a found album, artist or playlist: its name, who it is by (or
/// nothing), its URI `spotify:{kind}:{id}` (empty without an id), and no duration.
pub open spec fn item_of(k: ItemKind, f: FoundItem) -> TrackView {
    TrackView {
        name: f.name@,
        artist: or_empty(opt_view(f.by)),
        uri: match f.id {
            Some(id) => "spotify:"@ + kind_name(k) + ":"@ + id@,
            None => Seq::empty(),
        },
        duration_ms: 0,
    }
}

/// The reported form of a found track: its URI is `spotify:track:{id}`, or empty
/// when the track has no id.
pub open spec fn track_of(f: FoundTrack) -> TrackView {
    TrackView {
        name: f.name@,
        artist: or_empty(opt_view(f.first_artist)),
        uri: match f.id {
            Some(id) => "spotify:track:"@ + id@,
            None => Seq::empty(),
        },
        duration_ms: f.duration_ms as u64,
    }
}

/// The entries reported for a search outcome: one per item of the page, in order; none
/// for results of another kind.
pub open spec fn tracks_of(o: SearchOutcome) -> Seq<TrackView> {
    match o {
        SearchOutcome::Tracks(v) => v@.map_values(|f: FoundTrack| track_of(f)),
        SearchOutcome::Items { kind, items } => items@.map_values(|f: FoundItem| item_of(kind, f)),
        SearchOutcome::Other => Seq::empty(),
    }
}

fn opt_string(o: &Option<String>) -> (r: String)
    ensures
        r@ == or_empty(opt_view(*o)),
{
    match o {
        Some(s) => s.clone(),
        None => String::new(),
    }
}

/// The reported form of one found track.
pub fn track_info(f: &FoundTrack) -> (t: TrackInfo)
    ensures
        t@ == track_of(*f),
{
    let uri = match &f.id {
        Some(id) => {
            let mut u: Vec<char> = Vec::new();
            push_str(&mut u, "spotify:track:");
            push_all(&mut u, &chars_of(id.as_str()));
            string_from(&u)
        },
        None => String::new(),
    };
    TrackInfo {
        name: f.name.clone(),
        artist: opt_string(&f.first_artist),
        uri,
        duration_ms: f.duration_ms as u64,
    }
}

/// The reported form of one found album, artist or playlist.
pub fn item_info(kind: ItemKind, f: &FoundItem) -> (t: TrackInfo)
    ensures
        t@ == item_of(kind, *f),
{
    let uri = match &f.id {
        Some(id) => {
            let mut u: Vec<char> = Vec::new();
            push_str(&mut u, "spotify:");
            match kind {
                ItemKind::Album => push_str(&mut u, "album"),
                ItemKind::Artist => push_str(&mut u, "artist"),
                ItemKind::Playlist => push_str(&mut u, "playlist"),
            }
            push_str(&mut u, ":");
            push_all(&mut u, &chars_of(id.as_str()));
            string_from(&u)
        },
        None => String::new(),
    };
    TrackInfo { name: f.name.clone(), artist: opt_string(&f.by), uri, duration_ms: 0 }
}

/// The entries reported for a search outcome.
pub fn tracks_from_search(o: &SearchOutcome) -> (r: Vec<TrackInfo>)
    ensures
        tracks_view(r@) == tracks_of(*o),
{
    let mut r: Vec<TrackInfo> = Vec::new();
    match o {
        SearchOutcome::Tracks(v) => {
            let mut k: usize = 0;
            while k < v.len()
                invariant
                    k <= v.len(),
                    tracks_view(r@) == v@.take(k as int).map_values(|f: FoundTrack| track_of(f)),
                decreases v.len() - k,
            {
                let t = track_info(&v[k]);
                let ghost before = r@;
                r.push(t);
                assert(tracks_view(r@) =~= tracks_view(before).push(track_of(v@[k as int])));
                assert(v@.take(k + 1).map_values(|f: FoundTrack| track_of(f)) =~= v@.take(
                    k as int,
                ).map_values(|f: FoundTrack| track_of(f)).push(track_of(v@[k as int])));
                k = k + 1;
            }
            assert(v@.take(v.len() as int) =~= v@);
        },
        SearchOutcome::Items { kind, items } => {
            let mut k: usize = 0;
            while k < items.len()
                invariant
                    k <= items.len(),
                    tracks_view(r@) == items@.take(k as int).map_values(|f: FoundItem| item_of(*kind, f)),
                decreases items.len() - k,
            {
                let t = item_info(*kind, &items[k]);
                let ghost before = r@;
                r.push(t);
                assert(tracks_view(r@) =~= tracks_view(before).push(item_of(*kind, items@[k as int])));
                assert(items@.take(k + 1).map_values(|f: FoundItem| item_of(*kind, f)) =~= items@.take(
                    k as int,
                ).map_values(|f: FoundItem| item_of(*kind, f)).push(item_of(*kind, items@[k as int])));
                k = k + 1;
            }
            assert(items@.take(items.len() as int) =~= items@);
        },
        SearchOutcome::Other => {
            assert(tracks_view(r@) =~= Seq::<TrackView>::empty());
        },
    }
    r
}

/// The state reported for a playback snapshot.
pub fn playback_state(p: &Option<PlaybackSnapshot>) -> (s: PlaybackState)
    ensures
        s@ == status_of(*p),
{
    match p {
        None => PlaybackState::default(),
        Some(snap) => {
            let (track, artist, duration) = match &snap.item {
                Some(PlayingItem::Track { name, first_artist, duration_ms }) => (
                    name.clone(),
                    opt_string(first_artist),
                    *duration_ms as u64,
                ),
                Some(PlayingItem::Episode { name, show_name, duration_ms }) => (
                    name.clone(),
                    show_name.clone(),
                    *duration_ms as u64,
                ),
                _ => (String::new(), String::new(), 0u64),
            };
            PlaybackState {
                state: if snap.is_playing { "playing".to_string() } else { "paused".to_string() },
                track,
                artist,
                progress_ms: match snap.progress_ms {
                    Some(m) => m as u64,
                    None => 0,
                },
                duration_ms: duration,
            }
        },
    }
}

/// The next step after a search answered: reply with the results, or, when the command
/// asked to play and something was found, play the first result and reply afterwards.
#[derive(Debug, Clone, PartialEq, Eq)]
pub enum SearchStep {
    Reply(IPCResponse),
    PlayFirst { call: ApiCall, results: Vec<TrackInfo> },
}

/// The playback state after a command's request succeeded: playing after `Play`, paused
/// after `Pause`, unchanged otherwise.
pub open spec fn state_after_success(s: StatusView, c: CommandView) -> StatusView {
    match c {
        CommandView::Play => StatusView { state: "playing"@, ..s },
        CommandView::Pause => StatusView { state: "paused"@, ..s },
        _ => s,
    }
}

/// The step for a `Queue` command once its URI was read as a track id: add the track
/// to the queue, or answer with the reading's error.
pub fn queue_step(parsed: Result<String, String>) -> (s: Step)
    ensures
        match parsed {
            Ok(id) => s@ == StepView::Call(CallView::AddToQueue { track_id: id@ }),
            Err(e) => s@ == StepView::Reply(ResponseView::Error(e@)),
        },
{
    match parsed {
        Ok(id) => Step::Call(ApiCall::AddToQueue { track_id: id }),
        Err(e) => Step::Reply(IPCResponse::Error(e)),
    }
}

/// The step after a search that is to play its first result, once that result's URI
/// was read as a track id: play it and keep the results for the reply, or answer with
/// the reading's error.
pub fn play_first_step(parsed: Result<String, String>, results: Vec<TrackInfo>) -> (s: SearchStep)
    ensures
        match parsed {
            Ok(id) => s matches SearchStep::PlayFirst { call, results: r } && call@
                == CallView::PlayTrack { track_id: id@ } && r == results,
            Err(e) => s matches SearchStep::Reply(resp) && resp@ == ResponseView::Error(e@),
        },
{
    match parsed {
        Ok(id) => SearchStep::PlayFirst { call: ApiCall::PlayTrack { track_id: id }, results },
        Err(e) => SearchStep::Reply(IPCResponse::Error(e)),
    }
}

/// The playback state the daemon keeps, and its decisions on commands.
pub struct PlayerManager {
    state: PlaybackState,
}

impl PlayerManager {
    /// The kept state always names one of the reported states.
    #[verifier::type_invariant]
    spec fn well_formed(self) -> bool {
        is_known_state(self.state.state@)
    }
}

impl View for PlayerManager {
    type V = StatusView;

    closed spec fn view(&self) -> StatusView {
        self.state@
    }
}

impl PlayerManager {
    /// A player that has seen nothing yet: stopped.
    pub fn new() -> (p: Self)
        ensures
            p@ == stopped_status(),
    {
        PlayerManager { state: PlaybackState::default() }
    }

    /// The playback state kept so far.
    pub fn state(&self) -> (s: &PlaybackState)
        ensures
            s@ == self@,
            is_known_state(s@.state),
    {
        proof {
            use_type_invariant(self);
        }
        &self.state
    }

    /// The first step for `command`: the Web API request that serves it, or, for a
    /// `Queue` whose URI is not a track id, the error reply.
    pub fn handle_command(&self, command: &IPCCommand) -> (s: Step)
        ensures
            s@ == first_step(command@),
    {
        match command {
            IPCCommand::Play => Step::Call(ApiCall::Resume),
            IPCCommand::Pause => Step::Call(ApiCall::Pause),
            IPCCommand::Next => Step::Call(ApiCall::Next),
            IPCCommand::Prev => Step::Call(ApiCall::Previous),
            IPCCommand::Seek(seconds) => Step::Call(
                ApiCall::Seek { position_ms: (*seconds as u64) * 1000 },
            ),
            IPCCommand::Volume(level) => Step::Call(ApiCall::Volume { percent: *level }),
            IPCCommand::Status => Step::Call(ApiCall::CurrentPlayback),
            IPCCommand::Queue(uri) => queue_step(track_id(uri.as_str())),
            IPCCommand::Search { query, search_type, play } => Step::Call(
                ApiCall::Search {
                    query: query.clone(),
                    kind: search_kind(search_type),
                    limit: SEARCH_LIMIT,
                },
            ),
        }
    }

    /// The reply once the request for `command` came back with no data: `Ok` and the
    /// state updated on success, the error text and the state unchanged on failure.
    pub fn command_done(&mut self, command: &IPCCommand, result: Result<(), String>) -> (r:
        IPCResponse)
        ensures
            match result {
                Ok(_) => {
                    &&& r@ == ResponseView::Done
                    &&& final(self)@ == state_after_success(old(self)@, command@)
                },
                Err(e) => {
                    &&& r@ == ResponseView::Error(e@)
                    &&& final(self)@ == old(self)@
                },
            },
    {
        match result {
            Err(e) => IPCResponse::Error(e),
            Ok(_) => {
                match command {
                    IPCCommand::Play => {
                        self.state.state = "playing".to_string();
                    },
                    IPCCommand::Pause => {
                        self.state.state = "paused".to_string();
                    },
                    _ => {},
                }
                IPCResponse::Done
            },
        }
    }

    /// The reply to `Status` once the Web API reported current playback (or nothing).
    /// The kept state does not change.
    pub fn status_received(&self, result: Result<Option<PlaybackSnapshot>, String>) -> (r:
        IPCResponse)
        ensures
            match result {
                Ok(p) => r@ == ResponseView::State(status_of(p)),
                Err(e) => r@ == ResponseView::Error(e@),
            },
    {
        match result {
            Ok(p) => IPCResponse::State(playback_state(&p)),
            Err(e) => IPCResponse::Error(e),
        }
    }

    /// What follows a search: the results, or, when `play` is set and tracks were
    /// found, a request to play the first one (its URI read by `TrackId::from_id_or_uri`).
    /// Albums, artists and playlists are only listed.
    pub fn search_received(&self, play: bool, result: Result<SearchOutcome, String>) -> (s:
        SearchStep)
        ensures
            match result {
                Err(e) => s == SearchStep::Reply(IPCResponse::Error(e)),
                Ok(o) => {
                    let found = tracks_of(o);
                    if play && o is Tracks && found.len() > 0 {
                        match track_id_result(found[0].uri) {
                            Ok(id) => s matches SearchStep::PlayFirst { call, results } && call@
                                == CallView::PlayTrack { track_id: id } && tracks_view(results@)
                                == found,
                            Err(e) => s matches SearchStep::Reply(resp) && resp@
                                == ResponseView::Error(e),
                        }
                    } else {
                        s matches SearchStep::Reply(resp) && resp@ == ResponseView::SearchResults(
                            found,
                        )
                    }
                },
            },
    {
        match result {
            Err(e) => SearchStep::Reply(IPCResponse::Error(e)),
            Ok(o) => {
                let tracks = tracks_from_search(&o);
                let is_tracks = match &o {
                    SearchOutcome::Tracks(_) => true,
                    _ => false,
                };
                if play && is_tracks && tracks.len() > 0 {
                    assert(tracks_view(tracks@)[0] == tracks@[0]@);
                    let parsed = track_id(tracks[0].uri.as_str());
                    play_first_step(parsed, tracks)
                } else {
                    SearchStep::Reply(IPCResponse::SearchResults(tracks))
                }
            },
        }
    }

    /// The reply after the first search result was played: the results, or the error.
    pub fn first_result_played(results: Vec<TrackInfo>, result: Result<(), String>) -> (r:
        IPCResponse)
        ensures
            match result {
                Ok(_) => r@ == ResponseView::SearchResults(tracks_view(results@)),
                Err(e) => r@ == ResponseView::Error(e@),
            },
    {
        match result {
            Ok(_) => IPCResponse::SearchResults(results),
            Err(e) => IPCResponse::Error(e),
        }
    }
}


/// Whether a state name is one of those the daemon reports: `playing`, `paused` or
/// `stopped`.
pub open spec fn is_known_state(name: Seq<char>) -> bool {
    name == "playing"@ || name == "paused"@ || name == "stopped"@
}

/// Every status the daemon reports names one of the three states.
pub proof fn law_reported_state_is_known(p: Option<PlaybackSnapshot>)
    ensures
        is_known_state(status_of(p).state),
{
}

/// The state the daemon keeps starts known and stays known whatever command succeeds.
pub proof fn law_kept_state_stays_known(s: StatusView, c: CommandView)
    requires
        is_known_state(s.state),
    ensures
        is_known_state(state_after_success(s, c).state),
        is_known_state(stopped_status().state),
{
}

/// A request that succeeded leaves everything but the state's name as it was; only
/// `Play` and `Pause` change that name.
pub proof fn law_success_touches_only_the_state_name(s: StatusView, c: CommandView)
    ensures
        state_after_success(s, c).track == s.track,
        state_after_success(s, c).artist == s.artist,
        state_after_success(s, c).progress_ms == s.progress_ms,
        state_after_success(s, c).duration_ms == s.duration_ms,
        !(c is Play || c is Pause) ==> state_after_success(s, c) == s,
{
}

/// The status reports the playback that the API gave: the state's name follows
/// `is_playing` alone; the progress is the API's progress (0 when it gives none); the
/// track, artist and duration are the playing item's; and none of these depends on
/// whether it is playing.
pub proof fn law_status_reports_the_snapshot(s: PlaybackSnapshot)
    ensures
        status_of(Some(s)).state == (if s.is_playing { "playing"@ } else { "paused"@ }),
        s.progress_ms is None ==> (status_of(Some(s)).progress_ms == 0),
        s.progress_ms matches Some(m) ==> (m >= 0 ==> status_of(Some(s)).progress_ms == m),
        s.item matches Some(PlayingItem::Track { name, first_artist, duration_ms }) ==> (status_of(Some(s)).track == name@),
        s.item matches Some(PlayingItem::Track { name, first_artist, duration_ms }) ==> (first_artist matches Some(a) ==> status_of(Some(s)).artist == a@),
        s.item matches Some(PlayingItem::Track { name, first_artist, duration_ms }) ==> (first_artist is None ==> status_of(Some(s)).artist.len() == 0),
        s.item matches Some(PlayingItem::Track { name, first_artist, duration_ms }) ==> (duration_ms >= 0 ==> status_of(Some(s)).duration_ms == duration_ms),
        s.item matches Some(PlayingItem::Episode { name, show_name, duration_ms }) ==> (status_of(Some(s)).track == name@ && status_of(Some(s)).artist == show_name@),
        s.item matches Some(PlayingItem::Episode { name, show_name, duration_ms }) ==> (duration_ms >= 0 ==> status_of(Some(s)).duration_ms == duration_ms),
        s.item is None ==> (status_of(Some(s)).track.len() == 0 && status_of(Some(s)).artist.len() == 0 && status_of(Some(s)).duration_ms == 0),
{
}

/// Two snapshots that differ only in whether the playback runs are reported alike but
/// for the state's name, which differs.
pub proof fn law_pausing_changes_only_the_state_name(s: PlaybackSnapshot, t: PlaybackSnapshot)
    requires
        t.progress_ms == s.progress_ms,
        t.item == s.item,
        t.is_playing != s.is_playing,
    ensures
        status_of(Some(t)).track == status_of(Some(s)).track,
        status_of(Some(t)).artist == status_of(Some(s)).artist,
        status_of(Some(t)).progress_ms == status_of(Some(s)).progress_ms,
        status_of(Some(t)).duration_ms == status_of(Some(s)).duration_ms,
        status_of(Some(t)).state != status_of(Some(s)).state,
{
    reveal_strlit("playing");
    reveal_strlit("paused");
    assert("playing"@[1] != "paused"@[1]);
}

/// A search asks for the kind that its type names (`album`, `artist` or `playlist`;
/// tracks for any other type or none), for the query as given and at most
/// `SEARCH_LIMIT` results, whether or not the first result is then to be played.
pub proof fn law_search_asks_for_its_type(query: Seq<char>, search_type: Option<Seq<char>>, play: bool)
    ensures
        first_step((CommandView::Search { query, search_type, play })) == first_step((CommandView::Search { query, search_type, play: !play })),
        first_step((CommandView::Search { query, search_type, play })) matches StepView::Call(CallView::Search { query: q, kind, limit }) && q == query && limit == SEARCH_LIMIT,
        search_type == Some("artist"@) ==> first_step((CommandView::Search { query, search_type, play }))
            == StepView::Call((CallView::Search { query, kind: SearchKind::Artist, limit: SEARCH_LIMIT })),
        search_type == Some("album"@) ==> first_step((CommandView::Search { query, search_type, play }))
            == StepView::Call((CallView::Search { query, kind: SearchKind::Album, limit: SEARCH_LIMIT })),
        search_type == Some("playlist"@) ==> first_step((CommandView::Search { query, search_type, play }))
            == StepView::Call((CallView::Search { query, kind: SearchKind::Playlist, limit: SEARCH_LIMIT })),
        search_type == Some("track"@) ==> first_step((CommandView::Search { query, search_type, play }))
            == StepView::Call((CallView::Search { query, kind: SearchKind::Track, limit: SEARCH_LIMIT })),
        search_type is None ==> first_step((CommandView::Search { query, search_type, play }))
            == StepView::Call((CallView::Search { query, kind: SearchKind::Track, limit: SEARCH_LIMIT })),
{
    reveal_strlit("artist");
    reveal_strlit("album");
    reveal_strlit("playlist");
    reveal_strlit("track");
    assert("artist"@[1] != "album"@[1]);
    assert("playlist"@.len() != "album"@.len() && "playlist"@.len() != "artist"@.len());
    assert("track"@[0] != "album"@[0] && "track"@[0] != "artist"@[0]
        && "track"@.len() != "playlist"@.len());
}

/// Each playback command asks the Web API for the request of the same meaning: `Play`
/// resumes, `Pause` pauses, `Next` and `Prev` skip, `Status` reads the current playback,
/// a volume is passed on as it is and a seek goes to a thousand times its seconds.
pub proof fn law_commands_ask_for_their_request(seconds: u32, percent: u8)
    ensures
        first_step(CommandView::Play) == StepView::Call(CallView::Resume),
        first_step(CommandView::Pause) == StepView::Call(CallView::Pause),
        first_step(CommandView::Next) == StepView::Call(CallView::Next),
        first_step(CommandView::Prev) == StepView::Call(CallView::Previous),
        first_step(CommandView::Status) == StepView::Call(CallView::CurrentPlayback),
        first_step(CommandView::Volume(percent)) == StepView::Call((CallView::Volume { percent })),
        first_step(CommandView::Seek(seconds)) matches StepView::Call(CallView::Seek { position_ms })
            && position_ms == seconds * 1000,
{
}

/// The last `c` in `s` is at `k` when `s[k]` is `c` and no `c` follows it.
proof fn lemma_last_index_at(s: Seq<char>, c: char, k: int)
    requires
        0 <= k < s.len(),
        s[k] == c,
        forall|j: int| k < j < s.len() ==> s[j] != c,
    ensures
        last_index_of(s, c) == Some(k),
    decreases s.len(),
{
    if k != s.len() - 1 {
        lemma_last_index_at(s.drop_last(), c, k);
    }
}

/// Queueing `spotify:track:{id}`, `spotify/track/{id}` or the bare `{id}`, for an ASCII
/// alphanumeric `{id}`, adds exactly `{id}` to the queue.
pub proof fn law_queue_takes_the_track_id(id: Seq<char>)
    requires
        all_ascii_alphanumeric(id),
    ensures
        first_step(CommandView::Queue("spotify:track:"@ + id)) == StepView::Call(
            (CallView::AddToQueue { track_id: id }),
        ),
        first_step(CommandView::Queue("spotify/track/"@ + id)) == StepView::Call(
            (CallView::AddToQueue { track_id: id }),
        ),
        first_step(CommandView::Queue(id)) == StepView::Call((CallView::AddToQueue { track_id: id })),
{
    reveal_strlit("spotify:track:");
    reveal_strlit("spotify/track/");
    reveal_strlit("spotify:");
    reveal_strlit("spotify/");
    reveal_strlit("spotify");
    reveal_strlit("track");
    assert(!crate::text::is_ascii_alphanumeric(':') && !crate::text::is_ascii_alphanumeric('/'));
    if id.len() >= 8 {
        assert(crate::text::is_ascii_alphanumeric(id[7]));
        assert(id.take(8) != "spotify:"@ && id.take(8) != "spotify/"@) by {
            assert(id.take(8)[7] == id[7]);
            assert("spotify:"@[7] == ':' && "spotify/"@[7] == '/');
        }
    }
    assert(is_bare_id(id));
    let u = "spotify:track:"@ + id;
    assert(u.take(8) =~= "spotify:"@);
    assert(!is_bare_id(u));
    let rest = u.skip(8);
    assert(rest =~= "track:"@ + id) by { reveal_strlit("track:"); }
    reveal_strlit("track:");
    lemma_last_index_at(rest, ':', 5);
    assert(rest.take(5) =~= "track"@);
    assert(rest.skip(6) =~= id);
    let v = "spotify/track/"@ + id;
    assert(v.take(8) =~= "spotify/"@);
    assert(!is_bare_id(v));
    let rest2 = v.skip(8);
    reveal_strlit("track/");
    assert(rest2 =~= "track/"@ + id);
    lemma_last_index_at(rest2, '/', 5);
    assert(rest2.take(5) =~= "track"@);
    assert(rest2.skip(6) =~= id);
}

} // verus!
