use herald::config::{AuthMethod, Config, ConfigError, EnvVars, FolderMappings, Profile, ProfileMap};
use herald::secret::Secret;
use herald::validate::ValidateError;

fn profile(url: &str, token: &str) -> Profile {
    Profile {
        server_url: url.to_string(),
        auth: AuthMethod::ApiKey { token: Secret::new(token.to_string()) },
        from_email: None,
        from_name: None,
        folders: FolderMappings::default(),
        compose_format: None,
        signature: None,
        allow_insecure: false,
        confirm_actions: true,
    }
}

fn two_profiles() -> Config {
    let mut profiles = ProfileMap::new();
    profiles.insert("work".to_string(), profile("https://work.example.com", "t"));
    profiles.insert("personal".to_string(), profile("https://personal.example.com", "p"));
    Config { default_profile: Some("work".to_string()), profiles }
}

#[test]
fn config_get_profile_by_name() {
    let config = two_profiles();
    let profile = config.get_profile(Some("personal")).unwrap();
    assert_eq!(profile.server_url, "https://personal.example.com");
}

#[test]
fn tests_get_profile_by_name() {
    let config = two_profiles();
    let profile = config.get_profile(Some("personal")).unwrap();
    assert_eq!(profile.server_url, "https://personal.example.com");
}

fn main_only() -> Config {
    let mut profiles = ProfileMap::new();
    profiles.insert("main".to_string(), profile("https://main.example.com", "m"));
    Config { default_profile: Some("main".to_string()), profiles }
}

#[test]
fn config_get_profile_uses_default_when_none() {
    let config = main_only();
    let profile = config.get_profile(None).unwrap();
    assert_eq!(profile.server_url, "https://main.example.com");
}

#[test]
fn tests_get_profile_uses_default_when_none() {
    let config = main_only();
    let profile = config.get_profile(None).unwrap();
    assert_eq!(profile.server_url, "https://main.example.com");
}

fn empty() -> Config {
    Config { default_profile: None, profiles: ProfileMap::new() }
}

#[test]
fn config_get_profile_missing_returns_error() {
    let err = empty().get_profile(Some("nonexistent")).err().unwrap();
    match err {
        ConfigError::ProfileNotFound(name) => assert_eq!(name, "nonexistent"),
        other => panic!("expected ProfileNotFound, got {other:?}"),
    }
}

#[test]
fn tests_get_profile_missing_returns_error() {
    let err = empty().get_profile(Some("nonexistent")).err().unwrap();
    match err {
        ConfigError::ProfileNotFound(name) => assert_eq!(name, "nonexistent"),
        other => panic!("expected ProfileNotFound, got {other:?}"),
    }
}

#[test]
fn config_get_profile_no_default_falls_back_to_literal_default() {
    let err = empty().get_profile(None).err().unwrap();
    match err {
        ConfigError::ProfileNotFound(name) => assert_eq!(name, "default"),
        other => panic!("expected ProfileNotFound(\"default\"), got {other:?}"),
    }
}

#[test]
fn tests_get_profile_no_default_falls_back_to_literal_default() {
    let err = empty().get_profile(None).err().unwrap();
    match err {
        ConfigError::ProfileNotFound(name) => assert_eq!(name, "default"),
        other => panic!("expected ProfileNotFound(\"default\"), got {other:?}"),
    }
}

#[test]
fn get_profile_with_name_reports_resolved_name() {
    let config = two_profiles();
    let (name, p) = config.get_profile_with_name(None).unwrap();
    assert_eq!(name, "work");
    assert_eq!(p.server_url, "https://work.example.com");
}

#[test]
fn insert_replaces_same_name() {
    let mut m = ProfileMap::new();
    assert!(m.is_empty());
    m.insert("a".to_string(), profile("https://one.example.com", "1"));
    m.insert("a".to_string(), profile("https://two.example.com", "2"));
    let (k, p) = m.get_key_value("a").unwrap();
    assert_eq!(k, "a");
    assert_eq!(p.server_url, "https://two.example.com");
    assert!(m.get_key_value("b").is_none());
    assert!(!m.is_empty());
}

fn vars() -> EnvVars {
    EnvVars {
        server_url: Some("https://mail.example.com".into()),
        auth_method: None,
        username: Some("alice".into()),
        password: Some("pw".into()),
        api_key: None,
        client_id: None,
        from_email: Some("alice@example.com".into()),
        from_name: None,
    }
}

#[test]
fn env_app_password_is_the_default_method() {
    let config = Config::from_env_vars(vars()).unwrap();
    assert_eq!(config.default_profile.as_deref(), Some("default"));
    let p = config.get_profile(None).unwrap();
    assert_eq!(p.server_url, "https://mail.example.com");
    assert_eq!(p.from_email.as_deref(), Some("alice@example.com"));
    assert!(p.confirm_actions && !p.allow_insecure);
    match &p.auth {
        AuthMethod::AppPassword { username, password } => {
            assert_eq!(username, "alice");
            assert_eq!(password.expose(), "pw");
        }
        _ => panic!("expected AppPassword"),
    }
}

#[test]
fn env_missing_variables_and_bad_method() {
    let mut v = vars();
    v.server_url = None;
    match Config::from_env_vars(v) {
        Err(ConfigError::MissingEnv(n)) => assert_eq!(n, "HERALD_SERVER_URL"),
        _ => panic!("expected MissingEnv"),
    }
    let mut v = vars();
    v.password = None;
    match Config::from_env_vars(v) {
        Err(ConfigError::MissingEnv(n)) => assert_eq!(n, "HERALD_PASSWORD"),
        _ => panic!("expected MissingEnv"),
    }
    let mut v = vars();
    v.auth_method = Some("oauth-device".into());
    match Config::from_env_vars(v) {
        Err(ConfigError::MissingEnv(n)) => assert_eq!(n, "HERALD_CLIENT_ID"),
        _ => panic!("expected MissingEnv"),
    }
    let mut v = vars();
    v.auth_method = Some("bogus".into());
    match Config::from_env_vars(v) {
        Err(ConfigError::InvalidAuthMethod(m)) => assert_eq!(m, "bogus"),
        _ => panic!("expected InvalidAuthMethod"),
    }
    let mut v = vars();
    v.server_url = Some("http://mail.example.com".into());
    assert!(matches!(Config::from_env_vars(v), Err(ConfigError::Validate(ValidateError::InsecureUrl(_)))));
}

#[test]
fn env_api_key_and_oauth() {
    let mut v = vars();
    v.auth_method = Some("api-key".into());
    v.api_key = Some("k".into());
    let c = Config::from_env_vars(v).unwrap();
    assert!(matches!(&c.get_profile(None).unwrap().auth, AuthMethod::ApiKey { token } if token.expose() == "k"));
    let mut v = vars();
    v.auth_method = Some("oauth-browser".into());
    v.client_id = Some("herald".into());
    let c = Config::from_env_vars(v).unwrap();
    assert!(matches!(&c.get_profile(None).unwrap().auth, AuthMethod::OAuthBrowser { client_id } if client_id == "herald"));
}

#[test]
fn validate_and_resolve() {
    let mut profiles = ProfileMap::new();
    profiles.insert("x".to_string(), profile("http://remote.example.com", "t"));
    let bad = Config { default_profile: None, profiles };
    assert!(matches!(bad.validate_profiles(), Err(ConfigError::Validate(_))));
    assert!(two_profiles().validate_profiles().is_ok());
    let chosen = Config::resolve(empty(), Ok(main_only())).unwrap();
    assert_eq!(chosen.default_profile.as_deref(), Some("main"));
    let chosen = Config::resolve(two_profiles(), Err(ConfigError::NoConfigDir)).unwrap();
    assert_eq!(chosen.default_profile.as_deref(), Some("work"));
}

fn env_of(pairs: &[(&str, &str)]) -> EnvVars {
    let get = |k: &str| pairs.iter().find(|(n, _)| *n == k).map(|(_, v)| v.to_string());
    EnvVars {
        server_url: get("HERALD_SERVER_URL"),
        auth_method: get("HERALD_AUTH_METHOD"),
        username: get("HERALD_USERNAME"),
        password: get("HERALD_PASSWORD"),
        api_key: get("HERALD_API_KEY"),
        client_id: get("HERALD_CLIENT_ID"),
        from_email: get("HERALD_FROM_EMAIL"),
        from_name: get("HERALD_FROM_NAME"),
    }
}

#[test]
fn config_from_env_app_password() {
    let config = Config::from_env_vars(env_of(&[
        ("HERALD_SERVER_URL", "https://mail.example.com"),
        ("HERALD_AUTH_METHOD", "app-password"),
        ("HERALD_USERNAME", "alice"),
        ("HERALD_PASSWORD", "secret123"),
        ("HERALD_FROM_EMAIL", "alice@example.com"),
        ("HERALD_FROM_NAME", "Alice"),
    ]))
    .ok()
    .expect("from_env should succeed");
    let profile = config.get_profile(None).ok().expect("default profile should exist");
    assert_eq!(profile.server_url, "https://mail.example.com");
    assert_eq!(profile.from_email.as_deref(), Some("alice@example.com"));
    assert_eq!(profile.from_name.as_deref(), Some("Alice"));
    match &profile.auth {
        AuthMethod::AppPassword { username, password } => {
            assert_eq!(username, "alice");
            assert_eq!(password.expose(), "secret123");
        }
        _ => panic!("expected AppPassword"),
    }
}

#[test]
fn config_from_env_api_key() {
    let config = Config::from_env_vars(env_of(&[
        ("HERALD_SERVER_URL", "https://mail.example.com"),
        ("HERALD_AUTH_METHOD", "api-key"),
        ("HERALD_API_KEY", "tok_abc123"),
    ]))
    .ok()
    .expect("from_env should succeed");
    let profile = config.get_profile(None).ok().unwrap();
    match &profile.auth {
        AuthMethod::ApiKey { token } => assert_eq!(token.expose(), "tok_abc123"),
        _ => panic!("expected ApiKey"),
    }
}

#[test]
fn config_from_env_oauth_browser() {
    let config = Config::from_env_vars(env_of(&[
        ("HERALD_SERVER_URL", "https://mail.example.com"),
        ("HERALD_AUTH_METHOD", "oauth-browser"),
        ("HERALD_CLIENT_ID", "my-client"),
    ]))
    .ok()
    .expect("from_env should succeed");
    let profile = config.get_profile(None).ok().unwrap();
    match &profile.auth {
        AuthMethod::OAuthBrowser { client_id } => assert_eq!(client_id, "my-client"),
        _ => panic!("expected OAuthBrowser"),
    }
}

#[test]
fn config_from_env_oauth_device() {
    let config = Config::from_env_vars(env_of(&[
        ("HERALD_SERVER_URL", "https://mail.example.com"),
        ("HERALD_AUTH_METHOD", "oauth-device"),
        ("HERALD_CLIENT_ID", "device-client"),
    ]))
    .ok()
    .expect("from_env should succeed");
    let profile = config.get_profile(None).ok().unwrap();
    match &profile.auth {
        AuthMethod::OAuthDevice { client_id } => assert_eq!(client_id, "device-client"),
        _ => panic!("expected OAuthDevice"),
    }
}

#[test]
fn config_from_env_missing_server_url() {
    let err = Config::from_env_vars(env_of(&[])).err().unwrap();
    assert!(
        matches!(err, ConfigError::MissingEnv("HERALD_SERVER_URL")),
        "expected MissingEnv(HERALD_SERVER_URL), got {err:?}"
    );
}

#[test]
fn config_from_env_invalid_auth_method() {
    let err = Config::from_env_vars(env_of(&[
        ("HERALD_SERVER_URL", "https://mail.example.com"),
        ("HERALD_AUTH_METHOD", "bogus"),
    ]))
    .err()
    .unwrap();
    match err {
        ConfigError::InvalidAuthMethod(m) => assert_eq!(m, "bogus"),
        other => panic!("expected InvalidAuthMethod, got {other:?}"),
    }
}

#[test]
fn tests_from_env_app_password() {
    let config = Config::from_env_vars(env_of(&[
        ("HERALD_SERVER_URL", "https://mail.example.com"),
        ("HERALD_AUTH_METHOD", "app-password"),
        ("HERALD_USERNAME", "alice"),
        ("HERALD_PASSWORD", "secret123"),
        ("HERALD_FROM_EMAIL", "alice@example.com"),
        ("HERALD_FROM_NAME", "Alice"),
    ]))
    .ok()
    .expect("from_env should succeed");
    let profile = config.get_profile(None).ok().expect("default profile should exist");
    assert_eq!(profile.server_url, "https://mail.example.com");
    assert_eq!(profile.from_email.as_deref(), Some("alice@example.com"));
    assert_eq!(profile.from_name.as_deref(), Some("Alice"));
    match &profile.auth {
        AuthMethod::AppPassword { username, password } => {
            assert_eq!(username, "alice");
            assert_eq!(password.expose(), "secret123");
        }
        _ => panic!("expected AppPassword"),
    }
}

#[test]
fn tests_from_env_api_key() {
    let config = Config::from_env_vars(env_of(&[
        ("HERALD_SERVER_URL", "https://mail.example.com"),
        ("HERALD_AUTH_METHOD", "api-key"),
        ("HERALD_API_KEY", "tok_abc123"),
    ]))
    .ok()
    .expect("from_env should succeed");
    let profile = config.get_profile(None).ok().unwrap();
    match &profile.auth {
        AuthMethod::ApiKey { token } => assert_eq!(token.expose(), "tok_abc123"),
        _ => panic!("expected ApiKey"),
    }
}

#[test]
fn tests_from_env_oauth_browser() {
    let config = Config::from_env_vars(env_of(&[
        ("HERALD_SERVER_URL", "https://mail.example.com"),
        ("HERALD_AUTH_METHOD", "oauth-browser"),
        ("HERALD_CLIENT_ID", "my-client"),
    ]))
    .ok()
    .expect("from_env should succeed");
    let profile = config.get_profile(None).ok().unwrap();
    match &profile.auth {
        AuthMethod::OAuthBrowser { client_id } => assert_eq!(client_id, "my-client"),
        _ => panic!("expected OAuthBrowser"),
    }
}

#[test]
fn tests_from_env_oauth_device() {
    let config = Config::from_env_vars(env_of(&[
        ("HERALD_SERVER_URL", "https://mail.example.com"),
        ("HERALD_AUTH_METHOD", "oauth-device"),
        ("HERALD_CLIENT_ID", "device-client"),
    ]))
    .ok()
    .expect("from_env should succeed");
    let profile = config.get_profile(None).ok().unwrap();
    match &profile.auth {
        AuthMethod::OAuthDevice { client_id } => assert_eq!(client_id, "device-client"),
        _ => panic!("expected OAuthDevice"),
    }
}

#[test]
fn tests_from_env_missing_server_url() {
    let err = Config::from_env_vars(env_of(&[])).err().unwrap();
    assert!(
        matches!(err, ConfigError::MissingEnv("HERALD_SERVER_URL")),
        "expected MissingEnv(HERALD_SERVER_URL), got {err:?}"
    );
}

#[test]
fn tests_from_env_invalid_auth_method() {
    let err = Config::from_env_vars(env_of(&[
        ("HERALD_SERVER_URL", "https://mail.example.com"),
        ("HERALD_AUTH_METHOD", "bogus"),
    ]))
    .err()
    .unwrap();
    match err {
        ConfigError::InvalidAuthMethod(m) => assert_eq!(m, "bogus"),
        other => panic!("expected InvalidAuthMethod, got {other:?}"),
    }
}
