//! Authorization with Spotify: reading the OAuth callback, the pages answered to the
//! browser, the steps of the first-time authorization, and where credentials are looked
//! up.
use vstd::prelude::*;
use rspotify::clients::OAuthClient;
use crate::config::CredentialsConfig;
use crate::state::opt_view;
use crate::text::{
    is_white_space, lemma_word_len_bound, piece_len, word_len,
    chars_of, has_prefix, push_str, split_chars, split_on, split_whitespace,
    same_text, starts_with, string_from, trim, trim_chars, words,
};

verus! {

/// The first `code=` parameter among `params`, without its key.
pub open spec fn first_code(params: Seq<Seq<char>>) -> Option<Seq<char>>
    decreases params.len(),
{
    if params.len() == 0 {
        None
    } else if starts_with(params[0], "code="@) {
        Some(params[0].skip("code="@.len() as int))
    } else {
        first_code(params.drop_first())
    }
}

/// The authorization code that an HTTP request line for the callback carries: the
/// target (second word) must start with `/callback?` or `/callback/?`; the code is the
/// value of the first `code=` parameter of the query (the text between the first and the
/// second `?`, split at `&`).
pub open spec fn callback_code(request_line: Seq<char>) -> Option<Seq<char>> {
    let parts = words(request_line);
    if parts.len() < 2 {
        None
    } else {
        let path = parts[1];
        if !starts_with(path, "/callback?"@) && !starts_with(path, "/callback/?"@) {
            None
        } else {
            let pieces = split_on(path, '?');
            if pieces.len() < 2 {
                None
            } else {
                first_code(split_on(pieces[1], '&'))
            }
        }
    }
}

/// The authorization code in the request line of the browser's callback, if any.
pub fn parse_code_from_request(request_line: &str) -> (r: Option<String>)
    ensures
        opt_view(r) == callback_code(request_line@),
{
    let line = chars_of(request_line);
    let parts = split_whitespace(&line);
    proof {
        assert(parts@.map_values(|w: Vec<char>| w@).len() == parts@.len());
    }
    if parts.len() < 2 {
        return None;
    }
    let path = &parts[1];
    assert(path@ == words(request_line@)[1]);
    let plain = chars_of("/callback?");
    let slashed = chars_of("/callback/?");
    if !has_prefix(path, &plain) && !has_prefix(path, &slashed) {
        return None;
    }
    let pieces = split_chars(path, '?');
    proof {
        assert(pieces@.map_values(|w: Vec<char>| w@).len() == pieces@.len());
    }
    if pieces.len() < 2 {
        return None;
    }
    let params = split_chars(&pieces[1], '&');
    let ghost pv = params@.map_values(|w: Vec<char>| w@);
    assert(pieces@[1]@ == split_on(path@, '?')[1]);
    let key = chars_of("code=");
    let mut k: usize = 0;
    assert(pv.skip(0) =~= pv);
    assert(callback_code(request_line@) == first_code(pv));
    while k < params.len()
        invariant
            k <= params.len(),
            pv == params@.map_values(|w: Vec<char>| w@),
            key@ == "code="@,
            pv.len() == params.len(),
            callback_code(request_line@) == first_code(pv),
            first_code(pv) == first_code(pv.skip(k as int)),
        decreases params.len() - k,
    {
        assert(pv.skip(k as int)[0] == params@[k as int]@);
        if has_prefix(&params[k], &key) {
            let p = &params[k];
            let mut rest: Vec<char> = Vec::new();
            let mut m = key.len();
            while m < p.len()
                invariant
                    key.len() <= m <= p.len(),
                    rest@ == p@.subrange(key.len() as int, m as int),
                decreases p.len() - m,
            {
                rest.push(p[m]);
                assert(rest@ =~= p@.subrange(key.len() as int, m + 1));
                m = m + 1;
            }
            assert(rest@ =~= p@.skip(key.len() as int));
            assert(pv.skip(k as int).len() > 0);
            return Some(string_from(&rest));
        }
        assert(pv.skip(k as int).drop_first() =~= pv.skip(k + 1));
        k = k + 1;
    }
    None
}


proof fn lemma_word_len_of_word(w: Seq<char>, s: Seq<char>)
    requires
        forall|k: int| 0 <= k < w.len() ==> !is_white_space(#[trigger] w[k]),
        s.len() > 0 ==> is_white_space(s[0]),
    ensures
        word_len(w + s) == w.len(),
    decreases w.len(),
{
    if w.len() > 0 {
        let t = w.drop_first();
        assert forall|k: int| 0 <= k < t.len() implies !is_white_space(#[trigger] t[k]) by {
            assert(t[k] == w[k + 1]);
        }
        lemma_word_len_of_word(t, s);
        assert((w + s).drop_first() =~= t + s);
        assert((w + s)[0] == w[0]);
    } else {
        assert(w + s =~= s);
    }
}

/// A word followed by whitespace (or nothing) is the first word.
proof fn lemma_words_word_then(w: Seq<char>, s: Seq<char>)
    requires
        w.len() > 0,
        forall|k: int| 0 <= k < w.len() ==> !is_white_space(#[trigger] w[k]),
        s.len() > 0 ==> is_white_space(s[0]),
    ensures
        words(w + s) == seq![w] + words(s),
{
    lemma_word_len_of_word(w, s);
    lemma_word_len_bound(w + s);
    assert((w + s)[0] == w[0]);
    assert((w + s).take(w.len() as int) =~= w);
    assert((w + s).skip(w.len() as int) =~= s);
}

/// Leading whitespace does not count.
proof fn lemma_words_space(c: char, s: Seq<char>)
    requires
        is_white_space(c),
    ensures
        words(seq![c] + s) == words(s),
{
    assert((seq![c] + s).drop_first() =~= s);
}

proof fn lemma_piece_len_of(p: Seq<char>, sep: char, s: Seq<char>)
    requires
        forall|k: int| 0 <= k < p.len() ==> #[trigger] p[k] != sep,
        s.len() > 0 ==> s[0] == sep,
    ensures
        piece_len(p + s, sep) == p.len(),
    decreases p.len(),
{
    if p.len() > 0 {
        let t = p.drop_first();
        assert forall|k: int| 0 <= k < t.len() implies #[trigger] t[k] != sep by {
            assert(t[k] == p[k + 1]);
        }
        lemma_piece_len_of(t, sep, s);
        assert((p + s).drop_first() =~= t + s);
        assert((p + s)[0] == p[0]);
    } else {
        assert(p + s =~= s);
    }
}

/// The first piece of a split ends at the first separator.
proof fn lemma_split_first(p: Seq<char>, sep: char, s: Seq<char>)
    requires
        forall|k: int| 0 <= k < p.len() ==> #[trigger] p[k] != sep,
        s.len() > 0 ==> s[0] == sep,
    ensures
        split_on(p + s, sep).len() > 0,
        split_on(p + s, sep)[0] == p,
        s.len() > 0 ==> split_on(p + s, sep) == seq![p] + split_on(s.drop_first(), sep),
        s.len() == 0 ==> split_on(p + s, sep) == seq![p],
{
    lemma_piece_len_of(p, sep, s);
    assert((p + s).take(p.len() as int) =~= p);
    if s.len() > 0 {
        assert((p + s).skip(p.len() as int + 1) =~= s.drop_first());
    }
    if s.len() == 0 {
        assert(p + s =~= p);
    }
}

/// Whether `s` holds neither whitespace nor any of the characters `?` and `&`.
pub open spec fn is_plain_query_text(s: Seq<char>) -> bool {
    forall|k: int|
        0 <= k < s.len() ==> !is_white_space(#[trigger] s[k]) && s[k] != '?' && s[k] != '&'
}

/// The code that the redirect to `/callback?code={code}` carries, followed by further
/// parameters or by nothing, is read back from the browser's request line.
pub proof fn law_callback_code_round_trip(code: Seq<char>, more: Seq<char>)
    requires
        is_plain_query_text(code),
        forall|k: int| 0 <= k < more.len() ==> !is_white_space(#[trigger] more[k]) && more[k] != '?',
        more.len() > 0 ==> more[0] == '&',
    ensures
        callback_code("GET "@ + ("/callback?code="@ + code + more) + " HTTP/1.1"@) == Some(code),
{
    reveal_strlit("GET ");
    reveal_strlit("/callback?code=");
    reveal_strlit(" HTTP/1.1");
    reveal_strlit("GET");
    reveal_strlit("/callback?");
    reveal_strlit("/callback/?");
    reveal_strlit("code=");
    let get = seq!['G', 'E', 'T'];
    let path = "/callback?code="@ + code + more;
    let tail = seq!['H', 'T', 'T', 'P', '/', '1', '.', '1'];
    let line = "GET "@ + path + " HTTP/1.1"@;
    assert forall|k: int| 0 <= k < path.len() implies !is_white_space(#[trigger] path[k]) by {
        if k >= 15 + code.len() {
            assert(path[k] == more[k - 15 - code.len()]);
        } else if k >= 15 {
            assert(path[k] == code[k - 15]);
        }
    }
    assert(line =~= get + (seq![' '] + (path + (seq![' '] + tail))));
    lemma_words_word_then(get, seq![' '] + (path + (seq![' '] + tail)));
    lemma_words_space(' ', path + (seq![' '] + tail));
    lemma_words_word_then(path, seq![' '] + tail);
    let parts = words(line);
    assert(parts[1] == path);
    assert(path.take(10) =~= "/callback?"@);
    let head = seq!['/', 'c', 'a', 'l', 'l', 'b', 'a', 'c', 'k'];
    let query = "code="@ + code + more;
    assert(path =~= head + (seq!['?'] + query));
    assert forall|k: int| 0 <= k < query.len() implies #[trigger] query[k] != '?' by {
        if k >= 5 + code.len() {
            assert(query[k] == more[k - 5 - code.len()]);
        } else if k >= 5 {
            assert(query[k] == code[k - 5]);
        }
    }
    lemma_split_first(head, '?', seq!['?'] + query);
    assert((seq!['?'] + query).drop_first() =~= query);
    assert(query + Seq::<char>::empty() =~= query);
    lemma_split_first(query, '?', Seq::<char>::empty());
    let pieces = split_on(path, '?');
    assert(pieces[1] == query);
    let first = "code="@ + code;
    assert forall|k: int| 0 <= k < first.len() implies #[trigger] first[k] != '&' by {
        if k >= 5 {
            assert(first[k] == code[k - 5]);
        }
    }
    assert(query =~= first + more);
    lemma_split_first(first, '&', more);
    let params = split_on(query, '&');
    assert(params[0] == first);
    assert(first.take(5) =~= "code="@);
    assert(first.skip(5) =~= code);
}


/// The HTTP response that tells the browser authorization succeeded.
pub const SUCCESS_PAGE: &'static str = "HTTP/1.1 200 OK\r\n\
     Content-Type: text/html; charset=utf-8\r\n\
     Connection: close\r\n\
     \r\n\
     <!DOCTYPE html>\
     <html><head><title>Spotiline - Authorized</title>\
     <style>body{font-family:sans-serif;text-align:center;padding:50px;background:#1DB954;color:white}\
     h1{font-size:3em}p{font-size:1.2em}</style></head>\
     <body><h1>\u{2713} Authorization Complete!</h1>\
     <p>You can close this window and return to your terminal.</p>\
     <p>Spotiline is now connected to Spotify.</p></body></html>";

/// The HTTP response for a request that is not the authorization callback.
pub const ERROR_PAGE: &'static str = "HTTP/1.1 400 Bad Request\r\n\
     Content-Type: text/html; charset=utf-8\r\n\
     Connection: close\r\n\
     \r\n\
     <!DOCTYPE html>\
     <html><head><title>Spotiline - Error</title>\
     <style>body{font-family:sans-serif;text-align:center;padding:50px;background:#f44336;color:white}</style></head>\
     <body><h1>\u{2717} Invalid Request</h1>\
     <p>Please authorize through the correct link.</p></body></html>";

/// The page sent to the browser once the callback carried a code.
pub fn build_success_html() -> (page: String)
    ensures
        page@ == SUCCESS_PAGE@,
        starts_with(page@, "HTTP/1.1 200 OK\r\n"@),
{
    proof {
        reveal_strlit("HTTP/1.1 200 OK\r\n\
     Content-Type: text/html; charset=utf-8\r\n\
     Connection: close\r\n\
     \r\n\
     <!DOCTYPE html>\
     <html><head><title>Spotiline - Authorized</title>\
     <style>body{font-family:sans-serif;text-align:center;padding:50px;background:#1DB954;color:white}\
     h1{font-size:3em}p{font-size:1.2em}</style></head>\
     <body><h1>\u{2713} Authorization Complete!</h1>\
     <p>You can close this window and return to your terminal.</p>\
     <p>Spotiline is now connected to Spotify.</p></body></html>");
        reveal_strlit("HTTP/1.1 200 OK\r\n");
        assert(SUCCESS_PAGE@.take(17) =~= "HTTP/1.1 200 OK\r\n"@);
    }
    SUCCESS_PAGE.to_string()
}

/// The page sent to the browser for any other request.
pub fn build_error_html() -> (page: String)
    ensures
        page@ == ERROR_PAGE@,
{
    ERROR_PAGE.to_string()
}

/// What the listener does with one connection: the code and the success page when the
/// request line could be read and carries a code, otherwise no code and the error page.
pub fn answer_callback(request_line: Option<&str>) -> (r: (Option<String>, String))
    ensures
        match request_line {
            Some(line) => match callback_code(line@) {
                Some(code) => opt_view(r.0) == Some(code) && r.1@ == SUCCESS_PAGE@,
                None => r.0 is None && r.1@ == ERROR_PAGE@,
            },
            None => r.0 is None && r.1@ == ERROR_PAGE@,
        },
{
    match request_line {
        Some(line) => match parse_code_from_request(line) {
            Some(code) => (Some(code), build_success_html()),
            None => (None, build_error_html()),
        },
        None => (None, build_error_html()),
    }
}


/// The keyring service under which credentials and the token are stored.
pub const KEYRING_SERVICE: &'static str = "spotiline";

/// The keyring entry that holds the OAuth token.
pub const TOKEN_ENTRY: &'static str = "spotify_token";

/// The variable (and keyring entry) for the client id.
pub const CLIENT_ID_VAR: &'static str = "SPOTIFY_CLIENT_ID";

/// The variable (and keyring entry) for the client secret.
pub const CLIENT_SECRET_VAR: &'static str = "SPOTIFY_CLIENT_SECRET";

/// Where Spotify sends the browser after authorization.
pub const REDIRECT_URI: &'static str = "http://127.0.0.1:8888/callback";

/// The address the callback listener binds.
pub const CALLBACK_ADDRESS: &'static str = "127.0.0.1:8888";

/// How long the callback listener waits for the browser, in seconds.
pub const AUTH_TIMEOUT_SECS: u64 = 120;

/// The OAuth scopes the client asks for.
pub open spec fn scopes() -> Seq<Seq<char>> {
    seq![
        "user-read-playback-state"@,
        "user-modify-playback-state"@,
        "user-read-currently-playing"@,
        "playlist-read-private"@,
        "user-library-read"@,
    ]
}

/// The OAuth scopes the client asks for.
pub fn oauth_scopes() -> (v: Vec<String>)
    ensures
        v@.map_values(|s: String| s@) == scopes(),
        scopes().no_duplicates(),
{
    proof {
        reveal_strlit("user-read-playback-state");
        reveal_strlit("user-modify-playback-state");
        reveal_strlit("user-read-currently-playing");
        reveal_strlit("playlist-read-private");
        reveal_strlit("user-library-read");
        let sc = scopes();
        assert forall|i: int, j: int| 0 <= i < sc.len() && 0 <= j < sc.len() && i != j implies sc[i] != sc[j] by {
            assert(sc[i].len() != sc[j].len());
        }
    }
    let mut v: Vec<String> = Vec::new();
    v.push("user-read-playback-state".to_string());
    v.push("user-modify-playback-state".to_string());
    v.push("user-read-currently-playing".to_string());
    v.push("playlist-read-private".to_string());
    v.push("user-library-read".to_string());
    assert(v@.map_values(|s: String| s@) =~= scopes());
    v
}

/// Where a credential is looked for, in this order.
#[derive(Debug, Clone, Copy, PartialEq, Eq, Structural)]
pub enum CredentialSource {
    /// The environment variable named like the credential.
    Environment,
    /// The system keyring entry named like the credential.
    Keyring,
    /// The credentials file.
    ConfigFile,
}

/// The outcome of looking at one source.
#[derive(Debug, Clone, PartialEq, Eq)]
pub enum CredentialStep {
    /// The credential to use.
    Found(String),
    /// Look at this source next.
    Ask(CredentialSource),
    /// No source has it: the error text.
    Missing(String),
    /// No source has it: ask the user.
    Prompt,
}

/// The source after `s`, if any.
pub open spec fn source_after(s: CredentialSource) -> Option<CredentialSource> {
    match s {
        CredentialSource::Environment => Some(CredentialSource::Keyring),
        CredentialSource::Keyring => Some(CredentialSource::ConfigFile),
        CredentialSource::ConfigFile => None,
    }
}

/// The error when a credential is found nowhere.
pub open spec fn missing_credential_text(env_var: Seq<char>) -> Seq<char> {
    "Credential "@ + env_var + " not found. Run 'spotiline daemon start' to authenticate."@
}

/// One step of the lookup that the daemon makes, which never asks the user: a value
/// counts when it is not blank, and is used trimmed.
pub fn credential_or_fail(env_var: &str, source: CredentialSource, value: Option<String>) -> (r:
    CredentialStep)
    ensures
        value is Some && trim(value->0@).len() > 0 ==> r is Found && r->Found_0@ == trim(
            value->0@,
        ),
        !(value is Some && trim(value->0@).len() > 0) ==> match source_after(source) {
            Some(next) => r == CredentialStep::Ask(next),
            None => r is Missing && r->Missing_0@ == missing_credential_text(env_var@),
        },
{
    if let Some(v) = &value {
        let t = trim_chars(&chars_of(v.as_str()));
        if t.len() > 0 {
            return CredentialStep::Found(string_from(&t));
        }
    }
    match source {
        CredentialSource::Environment => CredentialStep::Ask(CredentialSource::Keyring),
        CredentialSource::Keyring => CredentialStep::Ask(CredentialSource::ConfigFile),
        CredentialSource::ConfigFile => {
            let mut m: Vec<char> = Vec::new();
            push_str(&mut m, "Credential ");
            push_str(&mut m, env_var);
            push_str(&mut m, " not found. Run 'spotiline daemon start' to authenticate.");
            CredentialStep::Missing(string_from(&m))
        },
    }
}

/// One step of the lookup made before the daemon starts, which may ask the user: a set
/// environment variable counts whatever it holds; a keyring or file value counts when it
/// is not empty. Values are used as they are.
pub fn stored_credential(source: CredentialSource, value: Option<String>) -> (r: CredentialStep)
    ensures
        match value {
            Some(v) => if source == CredentialSource::Environment || v@.len() > 0 {
                r == CredentialStep::Found(v)
            } else {
                match source_after(source) {
                    Some(next) => r == CredentialStep::Ask(next),
                    None => r == CredentialStep::Prompt,
                }
            },
            None => match source_after(source) {
                Some(next) => r == CredentialStep::Ask(next),
                None => r == CredentialStep::Prompt,
            },
        },
{
    if let Some(v) = value {
        if source == CredentialSource::Environment || !v.as_str().is_empty() {
            return CredentialStep::Found(v);
        }
    }
    match source {
        CredentialSource::Environment => CredentialStep::Ask(CredentialSource::Keyring),
        CredentialSource::Keyring => CredentialStep::Ask(CredentialSource::ConfigFile),
        CredentialSource::ConfigFile => CredentialStep::Prompt,
    }
}

/// The credentials-file field for the credential named `name`: the client id for
/// `SPOTIFY_CLIENT_ID`, the client secret for any other name.
pub open spec fn credential_named(creds: CredentialsConfig, name: Seq<char>) -> Option<String> {
    if name == CLIENT_ID_VAR@ {
        creds.client_id
    } else {
        creds.client_secret
    }
}

/// Whether `w` is `c` with the credential named `name` set to `value`, the other kept.
pub open spec fn is_with_credential(c: CredentialsConfig, name: Seq<char>, value: String, w: CredentialsConfig) -> bool {
    if name == CLIENT_ID_VAR@ {
        w.client_id == Some(value) && w.client_secret == c.client_secret
    } else {
        w.client_secret == Some(value) && w.client_id == c.client_id
    }
}

/// A credential stored under a name is read back under that name, and the other
/// credential is kept.
pub proof fn law_stored_credential_is_read_back(c: CredentialsConfig, name: Seq<char>, value: String, w: CredentialsConfig)
    requires
        is_with_credential(c, name, value, w),
    ensures
        credential_named(w, name) == Some(value),
        name == CLIENT_ID_VAR@ ==> w.client_secret == c.client_secret,
        name != CLIENT_ID_VAR@ ==> w.client_id == c.client_id,
{
}

/// The credentials-file value for the credential named `env_var`: the client id for
/// `SPOTIFY_CLIENT_ID`, the client secret for any other name.
pub fn config_credential(creds: &CredentialsConfig, env_var: &str) -> (r: Option<String>)
    ensures
        r == credential_named(*creds, env_var@),
{
    if same_text(env_var, CLIENT_ID_VAR) {
        creds.client_id.clone()
    } else {
        creds.client_secret.clone()
    }
}

/// The credentials file with the credential named `env_var` set to `value`, the other
/// one kept.
pub fn with_credential(creds: CredentialsConfig, env_var: &str, value: String) -> (r:
    CredentialsConfig)
    ensures
        is_with_credential(creds, env_var@, value, r),
{
    if same_text(env_var, CLIENT_ID_VAR) {
        CredentialsConfig { client_id: Some(value), ..creds }
    } else {
        CredentialsConfig { client_secret: Some(value), ..creds }
    }
}

/// The credential typed by the user: the line without surrounding whitespace.
pub fn prompted_credential(input: &str) -> (r: String)
    ensures
        r@ == trim(input@),
{
    string_from(&trim_chars(&chars_of(input)))
}

/// The line printed after a typed credential was stored: success if either store took it.
pub fn credential_saved_message(prompt: &str, keyring_saved: bool, config_saved: bool) -> (r:
    String)
    ensures
        keyring_saved || config_saved ==> r@ == "\u{2713} "@ + prompt@ + " saved"@,
        !(keyring_saved || config_saved) ==> r@ == "\u{26a0}\u{fe0f}  Warning: Could not save "@
            + prompt@ + " to storage."@,
{
    let mut m: Vec<char> = Vec::new();
    if keyring_saved || config_saved {
        push_str(&mut m, "\u{2713} ");
        push_str(&mut m, prompt);
        push_str(&mut m, " saved");
    } else {
        push_str(&mut m, "\u{26a0}\u{fe0f}  Warning: Could not save ");
        push_str(&mut m, prompt);
        push_str(&mut m, " to storage.");
    }
    string_from(&m)
}

/// The error when the token could be stored neither in the keyring nor in the file.
pub open spec fn token_not_saved_text() -> Seq<char> {
    "Failed to save token to both system keychain and config file.\nPlease check file permissions for config directory."@
}

/// Saving the token succeeds when either store took it.
pub fn token_saved(keyring_saved: bool, config_saved: bool) -> (r: Result<(), String>)
    ensures
        r is Ok <==> keyring_saved || config_saved,
        r matches Err(e) ==> e@ == token_not_saved_text(),
{
    if keyring_saved || config_saved {
        Ok(())
    } else {
        Err("Failed to save token to both system keychain and config file.\nPlease check file permissions for config directory.".to_string())
    }
}

/// The error when the pasted redirect URL yields no authorization code.
pub open spec fn redirect_failure_text() -> Seq<char> {
    "Failed to parse redirect URL. Ensure you copied the full URL including 'http://127.0.0.1:8888/callback?code=...'"@
}

/// What rspotify's `parse_response_code` gives for the redirect URL `url` on a client
/// whose OAuth state is `state`.
pub uninterp spec fn redirect_code_of(url: Seq<char>, state: Seq<char>) -> Option<Seq<char>>;

/// Calls rspotify's `OAuthClient::parse_response_code` on a client made with the OAuth
/// state `state`. The contract claims only that the result is a function of the URL and
/// the state; what that function is (URL parsing, the `code` query parameter, the check
/// that the `state` parameter equals `state`) is left unsaid.
#[verifier::external_body]
fn redirect_code(url: &str, state: &str) -> (r: Option<String>)
    ensures
        opt_view(r) == redirect_code_of(url@, state@),
{
    let mut client = rspotify::AuthCodeSpotify::new(rspotify::Credentials::default(), rspotify::OAuth::default());
    client.oauth.state = state.to_string();
    client.parse_response_code(url)
}

/// The authorization code in the redirect URL that the user pasted (surrounding
/// whitespace dropped), checked against the client's OAuth state.
pub fn manual_code(pasted: &str, state: &str) -> (r: Result<String, String>)
    ensures
        match redirect_code_of(trim(pasted@), state@) {
            Some(c) => r is Ok && r->Ok_0@ == c,
            None => r is Err && r->Err_0@ == redirect_failure_text(),
        },
{
    let url = string_from(&trim_chars(&chars_of(pasted)));
    match redirect_code(url.as_str(), state) {
        Some(code) => Ok(code),
        None => Err("Failed to parse redirect URL. Ensure you copied the full URL including 'http://127.0.0.1:8888/callback?code=...'".to_string()),
    }
}

#[verifier::external_type_specification]
#[verifier::external_body]
pub struct ExToken(rspotify::Token);

/// Whether `serde_json` reads `text` as an rspotify `Token`.
pub uninterp spec fn token_text_parses(text: Seq<char>) -> bool;

/// Calls `serde_json::from_str::<rspotify::Token>`. The contract claims that whether a
/// token comes back is a function of the text; which token it is is left unsaid.
#[verifier::external_body]
fn parse_token(text: &str) -> (r: Option<rspotify::Token>)
    ensures
        r is Some == token_text_parses(text@),
{
    serde_json::from_str::<rspotify::Token>(text).ok()
}

/// The token that storage held, if there was one and it parses.
pub fn stored_token(stored: Option<String>) -> (r: Option<rspotify::Token>)
    ensures
        r is Some <==> (stored is Some && token_text_parses(stored->0@)),
{
    match stored {
        Some(text) => parse_token(text.as_str()),
        None => None,
    }
}

/// What the authorization flow learns from outside.
#[derive(Debug)]
pub enum AuthEvent {
    /// The token text found in storage (the keyring first, then the file), if any.
    Stored(Option<String>),
    /// The outcome of waiting for the browser's callback: the code, or why it failed.
    Callback(Result<String, String>),
    /// The line the user pasted, and the OAuth state the client was made with.
    Pasted(String, String),
    /// The outcome of requesting the token for a code.
    TokenRequested(Result<(), String>),
    /// Whether the keyring, and the file, took the token received.
    TokenSaved(bool, bool),
}

/// What the authorization flow does next.
#[derive(Debug, PartialEq, Eq)]
pub enum AuthAction {
    /// Use this stored token: no authorization is needed.
    UseStoredToken(rspotify::Token),
    /// Open the browser at the authorization URL and wait for the callback.
    AwaitCallback,
    /// Show the manual instructions, after this reason why the callback failed, and
    /// read the redirect URL that the user pastes.
    AskForRedirect(String),
    /// Request a token for this authorization code.
    RequestToken(String),
    /// Store the token received.
    SaveToken,
    /// The token is stored: setup is complete.
    Finish,
    /// Stop with this error.
    Fail(String),
}

/// One step of the first-time authorization: a stored token that parses is used as
/// it is; otherwise the browser's callback is awaited, and if it fails the user pastes
/// the redirect URL; the code obtained either way is exchanged for a token, which is
/// then stored.
pub fn auth_step(event: AuthEvent) -> (r: AuthAction)
    ensures
        match event {
            AuthEvent::Stored(text) => if text is Some && token_text_parses(text->0@) {
                r is UseStoredToken
            } else {
                r == AuthAction::AwaitCallback
            },
            AuthEvent::Callback(outcome) => match outcome {
                Ok(code) => r == AuthAction::RequestToken(code),
                Err(reason) => r == AuthAction::AskForRedirect(reason),
            },
            AuthEvent::Pasted(line, state) => match redirect_code_of(trim(line@), state@) {
                Some(c) => r is RequestToken && r->RequestToken_0@ == c,
                None => r is Fail && r->Fail_0@ == redirect_failure_text(),
            },
            AuthEvent::TokenRequested(outcome) => match outcome {
                Ok(_) => r == AuthAction::SaveToken,
                Err(e) => r == AuthAction::Fail(e),
            },
            AuthEvent::TokenSaved(keyring, file) => if keyring || file {
                r == AuthAction::Finish
            } else {
                r is Fail && r->Fail_0@ == token_not_saved_text()
            },
        },
{
    match event {
        AuthEvent::Stored(text) => match stored_token(text) {
            Some(token) => AuthAction::UseStoredToken(token),
            None => AuthAction::AwaitCallback,
        },
        AuthEvent::Callback(outcome) => match outcome {
            Ok(code) => AuthAction::RequestToken(code),
            Err(reason) => AuthAction::AskForRedirect(reason),
        },
        AuthEvent::Pasted(line, state) => match manual_code(line.as_str(), state.as_str()) {
            Ok(code) => AuthAction::RequestToken(code),
            Err(e) => AuthAction::Fail(e),
        },
        AuthEvent::TokenRequested(outcome) => match outcome {
            Ok(_) => AuthAction::SaveToken,
            Err(e) => AuthAction::Fail(e),
        },
        AuthEvent::TokenSaved(keyring, file) => match token_saved(keyring, file) {
            Ok(_) => AuthAction::Finish,
            Err(e) => AuthAction::Fail(e),
        },
    }
}

/// The error when the daemon finds no stored token.
pub fn missing_token_message() -> (r: String)
    ensures
        r@ == "No authentication token found in storage.\nRun 'spotiline daemon start' to authenticate."@,
{
    "No authentication token found in storage.\nRun 'spotiline daemon start' to authenticate.".to_string()
}

} // verus!
