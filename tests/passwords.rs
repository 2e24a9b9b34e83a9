use auth_core::errors::AuthError;
use auth_core::password::{hash_password, verify_password};

#[test]
fn hash_then_verify_with_same_password() {
    let h = hash_password("correct horse battery").unwrap();
    assert!(h.starts_with("$argon2"));
    assert!(verify_password("correct horse battery", &h).is_ok());
}

#[test]
fn verify_with_other_password_fails() {
    let h = hash_password("correct horse battery").unwrap();
    let r = verify_password("correct horse batterz", &h);
    assert!(matches!(r, Err(AuthError::PasswordVerificationError(_))));
}

#[test]
fn two_hashes_of_one_password_differ() {
    let a = hash_password("longenough1").unwrap();
    let b = hash_password("longenough1").unwrap();
    assert_ne!(a, b);
}

#[test]
fn malformed_hash_is_a_hash_error() {
    let r = verify_password("longenough1", "not a phc string");
    assert!(matches!(r, Err(AuthError::PasswordHashError(_))));
    let r = verify_password("longenough1", "");
    assert!(matches!(r, Err(AuthError::PasswordHashError(_))));
}
