use spotiline::auth::{
    answer_callback, auth_step, manual_code, stored_token, AuthAction, AuthEvent, build_error_html, build_success_html, config_credential, credential_or_fail,
    credential_saved_message, oauth_scopes, parse_code_from_request, prompted_credential,
    stored_credential, token_saved, with_credential, CredentialSource, CredentialStep,
    REDIRECT_URI,
};
use spotiline::config::CredentialsConfig;

#[test]
fn test_parse_code_from_valid_request() {
    let request = "GET /callback?code=AQBx123&state=abc HTTP/1.1";
    assert_eq!(parse_code_from_request(request), Some("AQBx123".to_string()));
}

#[test]
fn test_parse_code_from_trailing_slash_request() {
    let request = "GET /callback/?code=AQBx123&state=abc HTTP/1.1";
    assert_eq!(parse_code_from_request(request), Some("AQBx123".to_string()));
}

#[test]
fn test_parse_code_from_invalid_request() {
    assert_eq!(parse_code_from_request("GET / HTTP/1.1"), None);
    assert_eq!(parse_code_from_request("GET /callback HTTP/1.1"), None);
    assert_eq!(parse_code_from_request(""), None);
}

#[test]
fn test_success_html_contains_headers() {
    let html = build_success_html();
    assert!(html.contains("HTTP/1.1 200 OK"));
    assert!(html.contains("Authorization Complete"));
}

#[test]
fn code_round_trip_with_and_without_more_parameters() {
    assert_eq!(
        parse_code_from_request("GET /callback?code=xyz HTTP/1.1"),
        Some("xyz".to_string())
    );
    assert_eq!(
        parse_code_from_request("GET /callback?code=xyz&state=1&x=2 HTTP/1.1"),
        Some("xyz".to_string())
    );
}

#[test]
fn code_is_taken_from_the_first_code_parameter_anywhere_in_the_query() {
    assert_eq!(
        parse_code_from_request("GET /callback?state=abc&code=later HTTP/1.1"),
        Some("later".to_string())
    );
    assert_eq!(
        parse_code_from_request("GET /callback?code=one&code=two HTTP/1.1"),
        Some("one".to_string())
    );
    assert_eq!(parse_code_from_request("GET /callback?state=abc HTTP/1.1"), None);
}

#[test]
fn code_may_be_empty_and_whitespace_separates_words() {
    assert_eq!(
        parse_code_from_request("GET /callback?code= HTTP/1.1"),
        Some(String::new())
    );
    assert_eq!(
        parse_code_from_request("  GET\t /callback?code=k  \r\n"),
        Some("k".to_string())
    );
}

#[test]
fn query_ends_at_a_second_question_mark() {
    assert_eq!(
        parse_code_from_request("GET /callback?code=a?b HTTP/1.1"),
        Some("a".to_string())
    );
}

#[test]
fn other_targets_are_refused() {
    assert_eq!(parse_code_from_request("GET /callbackx?code=a HTTP/1.1"), None);
    assert_eq!(parse_code_from_request("POST"), None);
}

#[test]
fn error_page_is_a_bad_request() {
    let page = build_error_html();
    assert!(page.starts_with("HTTP/1.1 400 Bad Request\r\n"));
    assert!(page.contains("Invalid Request"));
}

#[test]
fn success_page_starts_with_status_line() {
    assert!(build_success_html().starts_with("HTTP/1.1 200 OK\r\n"));
}

#[test]
fn callback_answer_depends_on_the_code() {
    let (code, page) = answer_callback(Some("GET /callback?code=Z9 HTTP/1.1"));
    assert_eq!(code, Some("Z9".to_string()));
    assert_eq!(page, build_success_html());
    let (code, page) = answer_callback(Some("GET /favicon.ico HTTP/1.1"));
    assert_eq!(code, None);
    assert_eq!(page, build_error_html());
    let (code, page) = answer_callback(None);
    assert_eq!(code, None);
    assert_eq!(page, build_error_html());
}

#[test]
fn scopes_and_redirect() {
    assert_eq!(
        oauth_scopes(),
        vec![
            "user-read-playback-state".to_string(),
            "user-modify-playback-state".to_string(),
            "user-read-currently-playing".to_string(),
            "playlist-read-private".to_string(),
            "user-library-read".to_string(),
        ]
    );
    assert_eq!(REDIRECT_URI, "http://127.0.0.1:8888/callback");
    let mut scopes = oauth_scopes();
    scopes.sort();
    scopes.dedup();
    assert_eq!(scopes.len(), 5);
}

#[test]
fn daemon_lookup_trims_and_skips_blank_values() {
    assert_eq!(
        credential_or_fail("SPOTIFY_CLIENT_ID", CredentialSource::Environment, Some("  id \n".to_string())),
        CredentialStep::Found("id".to_string())
    );
    assert_eq!(
        credential_or_fail("SPOTIFY_CLIENT_ID", CredentialSource::Environment, Some("   ".to_string())),
        CredentialStep::Ask(CredentialSource::Keyring)
    );
    assert_eq!(
        credential_or_fail("SPOTIFY_CLIENT_ID", CredentialSource::Keyring, None),
        CredentialStep::Ask(CredentialSource::ConfigFile)
    );
    assert_eq!(
        credential_or_fail("SPOTIFY_CLIENT_SECRET", CredentialSource::ConfigFile, None),
        CredentialStep::Missing(
            "Credential SPOTIFY_CLIENT_SECRET not found. Run 'spotiline daemon start' to authenticate."
                .to_string()
        )
    );
}

#[test]
fn prompting_lookup_takes_any_environment_value() {
    assert_eq!(
        stored_credential(CredentialSource::Environment, Some(String::new())),
        CredentialStep::Found(String::new())
    );
    assert_eq!(
        stored_credential(CredentialSource::Keyring, Some(String::new())),
        CredentialStep::Ask(CredentialSource::ConfigFile)
    );
    assert_eq!(
        stored_credential(CredentialSource::Keyring, Some(" k ".to_string())),
        CredentialStep::Found(" k ".to_string())
    );
    assert_eq!(
        stored_credential(CredentialSource::ConfigFile, None),
        CredentialStep::Prompt
    );
}

#[test]
fn credentials_file_fields_follow_the_name() {
    let creds = CredentialsConfig {
        client_id: Some("i".to_string()),
        client_secret: Some("s".to_string()),
    };
    assert_eq!(config_credential(&creds, "SPOTIFY_CLIENT_ID"), Some("i".to_string()));
    assert_eq!(config_credential(&creds, "SPOTIFY_CLIENT_SECRET"), Some("s".to_string()));
    let updated = with_credential(creds.clone(), "SPOTIFY_CLIENT_ID", "new".to_string());
    assert_eq!(updated.client_id, Some("new".to_string()));
    assert_eq!(updated.client_secret, Some("s".to_string()));
    let updated = with_credential(creds, "OTHER", "x".to_string());
    assert_eq!(updated.client_id, Some("i".to_string()));
    assert_eq!(updated.client_secret, Some("x".to_string()));
}

#[test]
fn typed_credentials_and_messages() {
    assert_eq!(prompted_credential("  abc\r\n"), "abc");
    assert_eq!(credential_saved_message("Spotify Client ID", true, false), "\u{2713} Spotify Client ID saved");
    assert_eq!(
        credential_saved_message("Spotify Client ID", false, false),
        "\u{26a0}\u{fe0f}  Warning: Could not save Spotify Client ID to storage."
    );
    assert_eq!(token_saved(false, true), Ok(()));
    assert_eq!(
        token_saved(false, false),
        Err("Failed to save token to both system keychain and config file.\nPlease check file permissions for config directory.".to_string())
    );
}

#[test]
fn a_stored_credential_is_read_back() {
    let creds = CredentialsConfig { client_id: None, client_secret: Some("s".into()) };
    let w = with_credential(creds, "SPOTIFY_CLIENT_ID", "id".to_string());
    assert_eq!(config_credential(&w, "SPOTIFY_CLIENT_ID"), Some("id".to_string()));
    assert_eq!(config_credential(&w, "SPOTIFY_CLIENT_SECRET"), Some("s".to_string()));
}

const REDIRECT_FAILURE: &str = "Failed to parse redirect URL. Ensure you copied the full URL including 'http://127.0.0.1:8888/callback?code=...'";

#[test]
fn a_pasted_redirect_url_gives_its_code() {
    assert_eq!(
        manual_code("  http://127.0.0.1:8888/callback?code=AQBx1&state=s1\n", "s1"),
        Ok("AQBx1".to_string())
    );
    assert_eq!(
        manual_code("http://127.0.0.1:8888/callback?state=s1&code=zz", "s1"),
        Ok("zz".to_string())
    );
}

#[test]
fn a_pasted_redirect_url_is_refused() {
    // the state differs from the client's
    assert_eq!(
        manual_code("http://127.0.0.1:8888/callback?code=AQBx1&state=other", "s1"),
        Err(REDIRECT_FAILURE.to_string())
    );
    // no code
    assert_eq!(
        manual_code("http://127.0.0.1:8888/callback?state=s1", "s1"),
        Err(REDIRECT_FAILURE.to_string())
    );
    // not a URL
    assert_eq!(manual_code("AQBx1", "s1"), Err(REDIRECT_FAILURE.to_string()));
}

const TOKEN_JSON: &str = "{\"access_token\":\"tok\",\"expires_in\":3600,\"expires_at\":null,\"refresh_token\":\"ref\",\"scope\":\"user-read-playback-state user-library-read\"}";

#[test]
fn a_stored_token_is_used_when_it_parses() {
    let token = stored_token(Some(TOKEN_JSON.to_string())).expect("token");
    assert_eq!(token.access_token, "tok");
    assert_eq!(token.refresh_token, Some("ref".to_string()));
    assert_eq!(stored_token(Some("not a token".to_string())), None);
    assert_eq!(stored_token(None), None);
    match auth_step(AuthEvent::Stored(Some(TOKEN_JSON.to_string()))) {
        AuthAction::UseStoredToken(t) => assert_eq!(t.access_token, "tok"),
        other => panic!("unexpected {:?}", other),
    }
}

#[test]
fn authorization_steps() {
    assert_eq!(auth_step(AuthEvent::Stored(None)), AuthAction::AwaitCallback);
    assert_eq!(auth_step(AuthEvent::Stored(Some("{}".to_string()))), AuthAction::AwaitCallback);
    assert_eq!(
        auth_step(AuthEvent::Callback(Ok("AQBx".to_string()))),
        AuthAction::RequestToken("AQBx".to_string())
    );
    assert_eq!(
        auth_step(AuthEvent::Callback(Err("Timeout waiting for authorization".to_string()))),
        AuthAction::AskForRedirect("Timeout waiting for authorization".to_string())
    );
    assert_eq!(
        auth_step(AuthEvent::Pasted(
            "http://127.0.0.1:8888/callback?code=c9&state=st\n".to_string(),
            "st".to_string()
        )),
        AuthAction::RequestToken("c9".to_string())
    );
    assert_eq!(
        auth_step(AuthEvent::Pasted("nonsense".to_string(), "st".to_string())),
        AuthAction::Fail(REDIRECT_FAILURE.to_string())
    );
    assert_eq!(auth_step(AuthEvent::TokenRequested(Ok(()))), AuthAction::SaveToken);
    assert_eq!(
        auth_step(AuthEvent::TokenRequested(Err("http error".to_string()))),
        AuthAction::Fail("http error".to_string())
    );
    assert_eq!(auth_step(AuthEvent::TokenSaved(true, false)), AuthAction::Finish);
    assert_eq!(auth_step(AuthEvent::TokenSaved(false, true)), AuthAction::Finish);
    assert_eq!(
        auth_step(AuthEvent::TokenSaved(false, false)),
        AuthAction::Fail(
            "Failed to save token to both system keychain and config file.\nPlease check file permissions for config directory."
                .to_string()
        )
    );
}
