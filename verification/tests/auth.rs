use herald::auth::{accept_token_store, cached_login_step, token_file_name, token_store_for, LoginStep, TokenStoreV2};
use herald::oauth::OAuthTokenResponse;

fn store(access: Option<&str>, refresh: Option<&str>, expires_at: Option<u64>) -> TokenStoreV2 {
    TokenStoreV2 {
        version: 2,
        server_url: "https://mail.example.com".into(),
        profile_name: "work".into(),
        access_token: access.map(String::from),
        refresh_token: refresh.map(String::from),
        expires_at,
    }
}

#[test]
fn token_store_v2_expiry() {
    assert!(store(Some("a"), None, None).is_expired());
    assert!(store(Some("a"), None, Some(0)).is_expired());
    assert!(store(Some("a"), None, Some(1000)).is_expired_at(950));
    assert!(!store(Some("a"), None, Some(1000)).is_expired_at(939));
}

#[test]
fn token_file_name_uses_short_server_hash() {
    // SHA-256("https://mail.example.com") starts with these 4 bytes.
    let name = token_file_name("work", "https://mail.example.com");
    assert!(name.starts_with("work-"));
    assert!(name.ends_with(".json"));
    assert_eq!(name.len(), "work-".len() + 8 + ".json".len());
    let hex = &name[5..13];
    assert!(hex.chars().all(|c| c.is_ascii_hexdigit() && !c.is_ascii_uppercase()));
    assert_ne!(token_file_name("work", "https://other.example.com"), name);
}

#[test]
fn stored_tokens_must_match_server() {
    assert!(accept_token_store(store(None, None, None), "https://mail.example.com").is_some());
    assert!(accept_token_store(store(None, None, None), "https://evil.example.com").is_none());
}

#[test]
fn login_steps() {
    assert!(matches!(cached_login_step(None, 100), LoginStep::FullLogin));
    let fresh = store(Some("acc"), Some("ref"), Some(1000));
    match cached_login_step(Some(&fresh), 100) {
        LoginStep::UseCached(t) => {
            assert_eq!(t.access_token, "acc");
            assert_eq!(t.token_type.as_deref(), Some("Bearer"));
            assert_eq!(t.refresh_token.as_deref(), Some("ref"));
            assert!(t.expires_in.is_none() && t.scope.is_none());
        }
        _ => panic!("expected cached tokens"),
    }
    match cached_login_step(Some(&fresh), 990) {
        LoginStep::Refresh(r) => assert_eq!(r, "ref"),
        _ => panic!("expected refresh"),
    }
    let no_refresh = store(Some("acc"), None, Some(10));
    assert!(matches!(cached_login_step(Some(&no_refresh), 990), LoginStep::FullLogin));
    let no_access = store(None, Some("r"), Some(5000));
    assert!(matches!(cached_login_step(Some(&no_access), 0), LoginStep::Refresh(_)));
}

#[test]
fn cached_record_after_login() {
    let tokens = OAuthTokenResponse {
        access_token: "a".into(),
        token_type: None,
        expires_in: Some(3600),
        refresh_token: Some("r".into()),
        scope: None,
    };
    let s = token_store_for("work", "https://mail.example.com", &tokens, 100);
    assert_eq!(s.version, 2);
    assert_eq!(s.expires_at, Some(3700));
    assert_eq!(s.access_token.as_deref(), Some("a"));
    assert!(!s.is_expired_at(100));
    let tokens = OAuthTokenResponse { expires_in: None, ..tokens };
    assert_eq!(token_store_for("work", "u", &tokens, 100).expires_at, None);
}
