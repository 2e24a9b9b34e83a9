use std::collections::HashSet;

use auth_core::errors::SessionError;
use auth_core::token::{generate_token, validate_session_token};

#[test]
fn generated_token_has_expected_shape() {
    let t = generate_token();
    assert_eq!(t.len(), 43);
    assert!(t.chars().all(|c| c.is_ascii_alphanumeric() || c == '-' || c == '_'));
    assert!(validate_session_token(&t).is_ok());
}

#[test]
fn ten_thousand_tokens_are_distinct_and_valid() {
    let mut seen = HashSet::new();
    for _ in 0..10_000 {
        let t = generate_token();
        assert!(validate_session_token(&t).is_ok());
        assert!(seen.insert(t));
    }
    assert_eq!(seen.len(), 10_000);
}

#[test]
fn token_of_length_ten_is_rejected() {
    let r = validate_session_token("abcdefghij");
    assert!(matches!(r, Err(SessionError::InvalidToken)));
}

#[test]
fn empty_token_is_rejected() {
    assert!(matches!(validate_session_token(""), Err(SessionError::InvalidToken)));
}

#[test]
fn token_length_bounds() {
    assert!(validate_session_token(&"a".repeat(39)).is_err());
    assert!(validate_session_token(&"a".repeat(40)).is_ok());
    assert!(validate_session_token(&"a".repeat(50)).is_ok());
    assert!(validate_session_token(&"a".repeat(51)).is_err());
}

#[test]
fn token_characters() {
    let ok = format!("{}-_", "Ab3".repeat(14));
    assert!(validate_session_token(&ok).is_ok());
    let bad = format!("{}!", "a".repeat(44));
    assert!(matches!(validate_session_token(&bad), Err(SessionError::InvalidToken)));
    let space = format!("{} ", "a".repeat(44));
    assert!(validate_session_token(&space).is_err());
    // Unicode letters count as alphanumeric; the length is in bytes.
    let unicode = format!("{}é", "a".repeat(40));
    assert!(validate_session_token(&unicode).is_ok());
}

#[test]
fn standard_base64_characters_are_rejected() {
    for end in ["=", "+", "/"] {
        let t = format!("{}{}", "a".repeat(42), end);
        assert!(matches!(validate_session_token(&t), Err(SessionError::InvalidToken)), "{}", end);
    }
}
