//! The optional configuration file and the credentials file, with their defaults.
use vstd::prelude::*;
use crate::state::opt_view;

verus! {

/// The TCP port on 127.0.0.1 where the daemon listens unless configured otherwise.
pub const DEFAULT_PORT: u16 = 47836;

/// The program's configuration.
#[derive(Debug, Clone, PartialEq, Eq)]
pub struct Config {
    pub port: u16,
    pub audio_backend: String,
    pub ui: UiConfig,
    pub credentials: CredentialsConfig,
    pub token: Option<String>,
}

/// Spotify application credentials kept in a file.
#[derive(Debug, Clone, PartialEq, Eq)]
pub struct CredentialsConfig {
    pub client_id: Option<String>,
    pub client_secret: Option<String>,
}

/// The colours of the terminal interface.
#[derive(Debug, Clone, PartialEq, Eq)]
pub struct UiConfig {
    pub color_bg: String,
    pub color_highlight: String,
}

/// The audio backend used when none is configured.
pub open spec fn default_audio_backend_text() -> Seq<char> {
    "auto"@
}

/// The background colour used when none is configured.
pub open spec fn default_bg_text() -> Seq<char> {
    "#121212"@
}

/// The highlight colour used when none is configured.
pub open spec fn default_highlight_text() -> Seq<char> {
    "#1DB954"@
}

/// The port used when the file gives none.
pub fn default_port() -> (p: u16)
    ensures
        p == DEFAULT_PORT,
{
    DEFAULT_PORT
}

/// The audio backend used when the file gives none.
pub fn default_audio_backend() -> (s: String)
    ensures
        s@ == default_audio_backend_text(),
{
    "auto".to_string()
}

/// The background colour used when the file gives none.
pub fn default_bg() -> (s: String)
    ensures
        s@ == default_bg_text(),
{
    "#121212".to_string()
}

/// The highlight colour used when the file gives none.
pub fn default_highlight() -> (s: String)
    ensures
        s@ == default_highlight_text(),
{
    "#1DB954".to_string()
}

/// Whether `u` holds the default colours.
pub open spec fn is_default_ui(u: UiConfig) -> bool {
    u.color_bg@ == default_bg_text() && u.color_highlight@ == default_highlight_text()
}

/// Whether `c` is the configuration used when there is no (readable) file.
pub open spec fn is_default_config(c: Config) -> bool {
    &&& c.port == DEFAULT_PORT
    &&& c.audio_backend@ == default_audio_backend_text()
    &&& is_default_ui(c.ui)
    &&& c.credentials.client_id is None
    &&& c.credentials.client_secret is None
    &&& c.token is None
}

impl Default for UiConfig {
    fn default() -> (u: Self)
        ensures
            is_default_ui(u),
    {
        UiConfig { color_bg: default_bg(), color_highlight: default_highlight() }
    }
}

impl Default for CredentialsConfig {
    fn default() -> (c: Self)
        ensures
            c.client_id is None,
            c.client_secret is None,
    {
        CredentialsConfig { client_id: None, client_secret: None }
    }
}

impl Default for Config {
    fn default() -> (c: Self)
        ensures
            is_default_config(c),
    {
        Config {
            port: DEFAULT_PORT,
            audio_backend: default_audio_backend(),
            ui: UiConfig::default(),
            credentials: CredentialsConfig::default(),
            token: None,
        }
    }
}

/// The configuration in force, given what was read from the file: the file's content
/// when it exists and parses, the defaults otherwise.
pub fn load_config(from_file: Option<Config>) -> (c: Config)
    ensures
        match from_file {
            Some(f) => c == f,
            None => is_default_config(c),
        },
{
    match from_file {
        Some(f) => f,
        None => Config::default(),
    }
}

/// The token of the configuration in force, given what was read from the file.
pub open spec fn loaded_token(from_file: Option<Config>) -> Option<String> {
    match from_file {
        Some(f) => f.token,
        None => None,
    }
}

/// The stored token of the configuration in force, given what was read from the file.
pub fn load_token_from_config(from_file: Option<Config>) -> (t: Option<String>)
    ensures
        t == loaded_token(from_file),
{
    load_config(from_file).token
}

/// Whether `w` is `c` with its token set to `token`, everything else kept.
pub open spec fn is_with_token(c: Config, token: Seq<char>, w: Config) -> bool {
    &&& opt_view(w.token) == Some(token)
    &&& w.port == c.port
    &&& w.audio_backend == c.audio_backend
    &&& w.ui == c.ui
    &&& w.credentials == c.credentials
}

/// The configuration to write back when a token is saved: the one in force with the
/// token replaced.
pub fn with_token(config: Config, token: &str) -> (c: Config)
    ensures
        is_with_token(config, token@, c),
{
    Config { token: Some(token.to_string()), ..config }
}

/// The stored credentials, given what was read from the credentials file.
pub fn load_credentials(from_file: Option<CredentialsConfig>) -> (c: CredentialsConfig)
    ensures
        match from_file {
            Some(f) => c == f,
            None => c.client_id is None && c.client_secret is None,
        },
{
    match from_file {
        Some(f) => f,
        None => CredentialsConfig::default(),
    }
}

/// A configuration saved with a token gives that token back when it is read again,
/// and keeps everything else of the configuration it was made from.
pub proof fn law_saved_token_is_loaded(c: Config, token: Seq<char>, w: Config)
    requires
        is_with_token(c, token, w),
    ensures
        opt_view(loaded_token(Some(w))) == Some(token),
        w.port == c.port && w.audio_backend == c.audio_backend && w.ui == c.ui
            && w.credentials == c.credentials,
{
}

} // verus!
