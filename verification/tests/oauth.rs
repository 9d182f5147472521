use herald::oauth::flow::{authorize_params, callback_code, callback_outcome, device_poll_decision, exchange_params, is_callback_path, login_url, redirect_uri, refresh_params, request_path, PollDecision};
use herald::oauth::pkce::{generate_challenge, generate_state, generate_verifier};
use herald::oauth::types::default_expires_in;
use herald::oauth::{OAuthError, StalwartOAuth, TokenStore};
use base64::Engine;
use sha2::Digest;

fn now() -> u64 {
    std::time::SystemTime::now().duration_since(std::time::UNIX_EPOCH).unwrap().as_secs()
}

fn is_b64url(s: &str) -> bool {
    s.chars().all(|c| c.is_ascii_alphanumeric() || c == '-' || c == '_')
}

#[test]
fn oauth_token_store_is_expired_past() {
    let store = TokenStore { access_token: Some("tok".into()), refresh_token: None, expires_at: Some(0) };
    assert!(store.is_expired(), "expires_at=0 should be expired");
}

#[test]
fn oauth_token_store_is_expired_future() {
    let store = TokenStore { access_token: Some("tok".into()), refresh_token: None, expires_at: Some(now() + 3600) };
    assert!(!store.is_expired(), "expires_at in the future should NOT be expired");
}

#[test]
fn oauth_token_store_is_expired_none() {
    let store = TokenStore::default();
    assert!(store.is_expired(), "None expires_at should be treated as expired");
}

#[test]
fn types_token_store_is_expired_past() {
    let store = TokenStore { access_token: Some("tok".into()), refresh_token: None, expires_at: Some(0) };
    assert!(store.is_expired(), "expires_at=0 should be expired");
}

#[test]
fn types_token_store_is_expired_future() {
    let store = TokenStore { access_token: Some("tok".into()), refresh_token: None, expires_at: Some(now() + 3600) };
    assert!(!store.is_expired(), "expires_at in the future should NOT be expired");
}

#[test]
fn token_store_is_expired_within_skew_window() {
    let store = TokenStore { access_token: Some("tok".into()), refresh_token: None, expires_at: Some(now() + 30) };
    assert!(store.is_expired(), "token expiring in 30s (within 60s skew) should be treated as expired");
}

#[test]
fn token_store_is_not_expired_outside_skew_window() {
    let store = TokenStore { access_token: Some("tok".into()), refresh_token: None, expires_at: Some(now() + 120) };
    assert!(!store.is_expired(), "token expiring in 120s (outside 60s skew) should NOT be treated as expired");
}

#[test]
fn types_token_store_is_expired_none() {
    let store = TokenStore::default();
    assert!(store.is_expired(), "None expires_at should be treated as expired");
}

#[test]
fn expiry_at_exact_boundaries() {
    let store = TokenStore { access_token: None, refresh_token: None, expires_at: Some(1060) };
    assert!(store.is_expired_at(1000));
    assert!(!store.is_expired_at(999));
    let early = TokenStore { access_token: None, refresh_token: None, expires_at: Some(30) };
    assert!(early.is_expired_at(0));
    assert_eq!(default_expires_in(), 600);
}

#[test]
fn oauth_stalwart_oauth_new_valid_url() {
    let oauth = StalwartOAuth::new("https://mail.example.com", "herald");
    assert!(oauth.is_ok(), "new() should succeed with a valid URL");
    let oauth = oauth.unwrap();
    assert_eq!(oauth.server_url, "https://mail.example.com");
    assert_eq!(oauth.client_id, "herald");
}

#[test]
fn oauth_stalwart_oauth_new_strips_trailing_slash() {
    let oauth = StalwartOAuth::new("https://mail.example.com/", "herald").unwrap();
    assert_eq!(oauth.server_url, "https://mail.example.com");
}

#[test]
fn mod_stalwart_oauth_new_valid_url() {
    let oauth = StalwartOAuth::new("https://mail.example.com", "herald");
    assert!(oauth.is_ok(), "new() should succeed with a valid URL");
    let oauth = oauth.unwrap();
    assert_eq!(oauth.server_url, "https://mail.example.com");
    assert_eq!(oauth.client_id, "herald");
}

#[test]
fn mod_stalwart_oauth_new_strips_trailing_slash() {
    let oauth = StalwartOAuth::new("https://mail.example.com///", "herald").unwrap();
    assert_eq!(oauth.server_url, "https://mail.example.com");
    let (a, b) = oauth.discovery_urls();
    assert_eq!(a, "https://mail.example.com/.well-known/oauth-authorization-server");
    assert_eq!(b, "https://mail.example.com/.well-known/openid-configuration");
}

#[test]
fn oauth_generate_verifier_produces_43_char_base64url() {
    let verifier = generate_verifier();
    assert_eq!(verifier.len(), 43, "32 bytes base64url-no-pad = 43 chars");
    assert!(is_b64url(&verifier), "verifier must be base64url: {verifier}");
}

#[test]
fn pkce_generate_verifier_produces_43_char_base64url() {
    let verifier = generate_verifier();
    assert_eq!(verifier.len(), 43, "32 bytes base64url-no-pad = 43 chars");
    assert!(is_b64url(&verifier), "verifier must be base64url: {verifier}");
}

fn manual_challenge(verifier: &str) -> String {
    let mut hasher = sha2::Sha256::new();
    hasher.update(verifier.as_bytes());
    base64::engine::general_purpose::URL_SAFE_NO_PAD.encode(hasher.finalize())
}

#[test]
fn oauth_generate_challenge_produces_valid_sha256_base64url() {
    let verifier = generate_verifier();
    let challenge = generate_challenge(&verifier);
    assert_eq!(challenge.len(), 43, "SHA-256 base64url-no-pad = 43 chars");
    assert!(is_b64url(&challenge), "challenge must be base64url: {challenge}");
    assert_eq!(challenge, manual_challenge(&verifier));
}

#[test]
fn pkce_generate_challenge_produces_valid_sha256_base64url() {
    let verifier = generate_verifier();
    let challenge = generate_challenge(&verifier);
    assert_eq!(challenge.len(), 43, "SHA-256 base64url-no-pad = 43 chars");
    assert!(is_b64url(&challenge), "challenge must be base64url: {challenge}");
    assert_eq!(challenge, manual_challenge(&verifier));
}

#[test]
fn oauth_generate_state_produces_22_char_base64url() {
    let state = generate_state();
    assert_eq!(state.len(), 22, "16 bytes base64url-no-pad = 22 chars");
    assert!(is_b64url(&state), "state must be base64url: {state}");
}

#[test]
fn pkce_generate_state_produces_22_char_base64url() {
    let state = generate_state();
    assert_eq!(state.len(), 22, "16 bytes base64url-no-pad = 22 chars");
    assert!(is_b64url(&state), "state must be base64url: {state}");
}

#[test]
fn rfc7636_appendix_b_challenge() {
    assert_eq!(
        generate_challenge("dBjftJeZ4CVP-mB92K27uhbUJU1p1r_wW1gFWFOEjXk"),
        "E9Melhoa2OwvFrEMTJguCHaoeK1t8URWbuGJSstw-cM"
    );
}

#[test]
fn token_request_parameters() {
    let p = refresh_params("rt", "cid");
    assert_eq!(p, vec![("grant_type", "refresh_token".to_string()), ("refresh_token", "rt".to_string()), ("client_id", "cid".to_string())]);
    let p = exchange_params("c", "http://127.0.0.1:1/callback", "cid", "v");
    assert_eq!(p[0], ("grant_type", "authorization_code".to_string()));
    assert_eq!(p[4], ("code_verifier", "v".to_string()));
    let p = authorize_params("cid", "r", "ch", "st");
    assert_eq!(p[4], ("code_challenge_method", "S256".to_string()));
    assert_eq!(p[5], ("state", "st".to_string()));
    assert_eq!(redirect_uri(8080), "http://127.0.0.1:8080/callback");
}

#[test]
fn callback_request_parsing() {
    let req = "GET /callback?code=abc&state=xyz HTTP/1.1\r\nHost: 127.0.0.1\r\n\r\n";
    let path = request_path(req);
    assert_eq!(path, "/callback?code=abc&state=xyz");
    assert!(is_callback_path(&path));
    assert!(!is_callback_path("/favicon.ico"));
    assert_eq!(request_path(""), "");
    assert_eq!(request_path("GET"), "");
}

fn pairs(v: &[(&str, &str)]) -> Vec<(String, String)> {
    v.iter().map(|(a, b)| (a.to_string(), b.to_string())).collect()
}

#[test]
fn callback_outcomes() {
    assert_eq!(callback_outcome(&pairs(&[("code", "abc"), ("state", "s")]), "s").unwrap(), "abc");
    match callback_outcome(&pairs(&[("code", "abc"), ("state", "t")]), "s") {
        Err(OAuthError::TokenExchange(m)) => assert_eq!(m, "state mismatch"),
        _ => panic!("expected state mismatch"),
    }
    match callback_outcome(&pairs(&[("state", "s"), ("error", "denied")]), "s") {
        Err(OAuthError::TokenExchange(m)) => assert_eq!(m, "denied"),
        _ => panic!("expected error"),
    }
    match callback_outcome(&pairs(&[("state", "s")]), "s") {
        Err(OAuthError::TokenExchange(m)) => assert_eq!(m, "no code in callback"),
        _ => panic!("expected no code"),
    }
    assert_eq!(callback_outcome(&pairs(&[("state", "x"), ("state", "s"), ("code", "1"), ("code", "2")]), "s").unwrap(), "2");
}

#[test]
fn device_poll_decisions() {
    assert!(matches!(device_poll_decision("authorization_pending"), PollDecision::KeepPolling { extra_secs: 0 }));
    assert!(matches!(device_poll_decision("slow_down"), PollDecision::KeepPolling { extra_secs: 5 }));
    assert!(matches!(device_poll_decision("expired_token"), PollDecision::Stop(OAuthError::DeviceFlowExpired)));
    match device_poll_decision("access_denied") {
        PollDecision::Stop(OAuthError::TokenExchange(m)) => assert_eq!(m, "access denied by user"),
        _ => panic!(),
    }
    match device_poll_decision("weird") {
        PollDecision::Stop(OAuthError::TokenExchange(m)) => assert_eq!(m, "device flow error: weird"),
        _ => panic!(),
    }
}

#[test]
fn login_url_appends_the_encoded_request() {
    let url = login_url("https://auth.example/authorize", "herald", "http://127.0.0.1:8080/callback", "ch", "st").unwrap();
    assert_eq!(
        url,
        "https://auth.example/authorize?response_type=code&client_id=herald&redirect_uri=http%3A%2F%2F127.0.0.1%3A8080%2Fcallback&code_challenge=ch&code_challenge_method=S256&state=st"
    );
    assert!(login_url("not a url", "herald", "r", "c", "s").is_err());
}

#[test]
fn callback_code_reads_the_request_line() {
    let req = "GET /callback?code=a%20b&state=xyz HTTP/1.1\r\nHost: 127.0.0.1\r\n\r\n";
    assert_eq!(callback_code(req, "xyz").unwrap(), "a b");
    match callback_code(req, "other") {
        Err(OAuthError::TokenExchange(m)) => assert_eq!(m, "state mismatch"),
        other => panic!("unexpected {other:?}"),
    }
    match callback_code("GET /callback?state=xyz&error=access_denied HTTP/1.1", "xyz") {
        Err(OAuthError::TokenExchange(m)) => assert_eq!(m, "access_denied"),
        other => panic!("unexpected {other:?}"),
    }
}
