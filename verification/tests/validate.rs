use herald::validate::{check_parsed_url, validate_header_value, validate_server_url, UrlHost, UrlParts, ValidateError};

#[test]
fn accepts_https_url() {
    assert!(validate_server_url("https://mail.example.com", false).is_ok());
}

#[test]
fn accepts_https_with_path_and_port() {
    assert!(validate_server_url("https://mail.example.com:8443/jmap", false).is_ok());
}

#[test]
fn rejects_http_remote_host() {
    let err = validate_server_url("http://mail.example.com", false).unwrap_err();
    assert!(matches!(err, ValidateError::InsecureUrl(_)));
}

#[test]
fn accepts_http_localhost() {
    assert!(validate_server_url("http://localhost:8080", false).is_ok());
}

#[test]
fn accepts_http_ipv4_loopback() {
    assert!(validate_server_url("http://127.0.0.1:1080", false).is_ok());
}

#[test]
fn accepts_http_ipv6_loopback() {
    assert!(validate_server_url("http://[::1]:8080", false).is_ok());
}

#[test]
fn allow_insecure_permits_any_scheme() {
    assert!(validate_server_url("http://remote.server.io", true).is_ok());
    assert!(validate_server_url("ftp://files.example.com", true).is_ok());
}

#[test]
fn rejects_invalid_url() {
    let err = validate_server_url("not a url at all", false).unwrap_err();
    assert!(matches!(err, ValidateError::UrlParse(_)));
}

#[test]
fn accepts_normal_header_value() {
    assert!(validate_header_value("subject", "Hello World").is_ok());
}

#[test]
fn accepts_unicode_header_value() {
    assert!(validate_header_value("subject", "Greetings from Munchen").is_ok());
}

#[test]
fn rejects_cr_in_header_value() {
    let err = validate_header_value("to", "user@example.com\rBcc: spy@evil.com").unwrap_err();
    assert!(matches!(err, ValidateError::HeaderInjection(_)));
}

#[test]
fn rejects_lf_in_header_value() {
    let err = validate_header_value("subject", "Hello\nBcc: spy@evil.com").unwrap_err();
    assert!(matches!(err, ValidateError::HeaderInjection(_)));
}

#[test]
fn rejects_crlf_in_header_value() {
    let err = validate_header_value("from", "attacker\r\n injected: true").unwrap_err();
    assert!(matches!(err, ValidateError::HeaderInjection(_)));
}

#[test]
fn accepts_empty_header_value() {
    assert!(validate_header_value("x-custom", "").is_ok());
}

#[test]
fn insecure_error_names_the_url_and_header_error_the_header() {
    match validate_server_url("http://example.org/x", false) {
        Err(ValidateError::InsecureUrl(u)) => assert_eq!(u, "http://example.org/x"),
        _ => panic!("expected InsecureUrl"),
    }
    match validate_header_value("cc", "a\nb") {
        Err(ValidateError::HeaderInjection(n)) => assert_eq!(n, "cc"),
        _ => panic!("expected HeaderInjection"),
    }
}

#[test]
fn loopback_ranges_on_parsed_parts() {
    let v4 = UrlParts { scheme: "http".into(), host: Some(UrlHost::Ipv4([127, 5, 6, 7])) };
    assert!(check_parsed_url("u", Ok(v4), false).is_ok());
    let far = UrlParts { scheme: "http".into(), host: Some(UrlHost::Ipv4([128, 0, 0, 1])) };
    assert!(check_parsed_url("u", Ok(far), false).is_err());
    let v6 = UrlParts { scheme: "http".into(), host: Some(UrlHost::Ipv6([0, 0, 0, 0, 0, 0, 0, 2])) };
    assert!(check_parsed_url("u", Ok(v6), false).is_err());
    let none = UrlParts { scheme: "http".into(), host: None };
    assert!(check_parsed_url("u", Ok(none), false).is_err());
    let https = UrlParts { scheme: "https".into(), host: None };
    assert!(check_parsed_url("u", Ok(https), false).is_ok());
}
