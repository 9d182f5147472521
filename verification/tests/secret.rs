use herald::secret::Secret;

#[test]
fn debug_is_redacted() {
    let secret = Secret::new("my-password".to_string());
    let debug_output = secret.redacted();
    assert_eq!(debug_output, "***");
    assert!(!debug_output.contains("my-password"));
}

#[test]
fn display_is_redacted() {
    let secret = Secret::new("my-token".to_string());
    let display_output = secret.redacted().to_string();
    assert_eq!(display_output, "***");
    assert!(!display_output.contains("my-token"));
}

#[test]
fn expose_returns_inner_value() {
    let secret = Secret::new("hidden".to_string());
    assert_eq!(secret.expose(), "hidden");
}

#[test]
fn partial_eq_compares_inner_values() {
    let a = Secret::new("same".to_string());
    let b = Secret::new("same".to_string());
    let c = Secret::new("different".to_string());
    assert!(a == b);
    assert!(a != c);
}

#[test]
fn clone_preserves_inner_value() {
    let original = Secret::new("cloned".to_string());
    let cloned = original.clone();
    assert_eq!(original.expose(), cloned.expose());
}
