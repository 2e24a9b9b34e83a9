use auth_core::cookie::{set_session_cookie, CookieError};
use auth_core::forms::{Identifier, LoginFormData, RegistrationFormData};
use auth_core::server::{login, register};
use auth_core::sessions::get_user_by_session;
use auth_core::store::AuthStore;

const NOW: i64 = 1_700_000_000;

fn registration(name: &str, email: &str, password: &str) -> RegistrationFormData {
    RegistrationFormData {
        name: name.to_string(),
        identifier: Identifier::Email(email.to_string()),
        password: password.to_string(),
    }
}

fn login_form(email: &str, password: &str) -> LoginFormData {
    LoginFormData { identifier: Identifier::Email(email.to_string()), password: password.to_string() }
}

#[test]
fn register_then_login_sets_cookie_for_same_user() {
    let mut store = AuthStore::new();
    let reg = register(&mut store, registration("Armaan Ali", "a@example.com", "longenough1"), NOW).unwrap();
    assert_eq!(reg.status, 200);
    assert_eq!(reg.body.data.as_deref(), Some("The user have been registered successfully"));
    assert!(reg.body.error.is_none());
    let reg_cookie = reg.set_cookie.unwrap();
    assert!(reg_cookie.ends_with("; Path=/; Secure; HttpOnly; SameSite=Lax; Max-Age=3600"));
    let reg_token = reg_cookie.strip_prefix("__Host-session=").unwrap().split(';').next().unwrap();
    let registered = get_user_by_session(&store, reg_token, NOW).unwrap();

    let rep = login(&mut store, login_form("a@example.com", "longenough1"), NOW).unwrap();
    assert_eq!(rep.status, 200);
    assert_eq!(rep.body.data.as_deref(), Some("The user have been logged in successfully"));
    let cookie = rep.set_cookie.unwrap();
    assert!(cookie.starts_with("__Host-session="));
    assert!(cookie.contains("Max-Age=3600"));
    let token = cookie.strip_prefix("__Host-session=").unwrap().split(';').next().unwrap();
    assert!(!rep.body.data.unwrap().contains(token));
    let user = get_user_by_session(&store, token, NOW).unwrap();
    assert_eq!(user.id, registered.id);
}

#[test]
fn duplicate_registration_is_a_conflict() {
    let mut store = AuthStore::new();
    register(&mut store, registration("Armaan Ali", "a@example.com", "longenough1"), NOW).unwrap();
    let rep = register(&mut store, registration("Other", "a@example.com", "longenough2"), NOW).unwrap();
    assert_eq!(rep.status, 409);
    assert_eq!(rep.body.error.as_deref(), Some("email already registered"));
    assert!(rep.set_cookie.is_none());
    assert_eq!(store.user_count(), 1);
}

#[test]
fn invalid_registration_is_unprocessable() {
    let mut store = AuthStore::new();
    let rep = register(&mut store, registration("A", "bad", "short"), NOW).unwrap();
    assert_eq!(rep.status, 422);
    assert_eq!(
        rep.body.error.as_deref(),
        Some("name, length must be between 2 and 100\nidentifier, not a valid email\npassword, length must be at least 8")
    );
    assert!(rep.body.data.is_none());
    assert_eq!(store.user_count(), 0);
}

#[test]
fn wrong_password_gives_generic_message() {
    let mut store = AuthStore::new();
    register(&mut store, registration("Armaan Ali", "a@example.com", "longenough1"), NOW).unwrap();
    let sessions = store.session_count();
    let rep = login(&mut store, login_form("a@example.com", "wrongpassword"), NOW).unwrap();
    assert_eq!(rep.status, 401);
    assert_eq!(rep.body.error.as_deref(), Some("Invalid username or password."));
    assert!(rep.set_cookie.is_none());
    assert_eq!(store.session_count(), sessions);
}

#[test]
fn unknown_user_gives_same_message_as_wrong_password() {
    let mut store = AuthStore::new();
    let rep = login(&mut store, login_form("nobody@example.com", "longenough1"), NOW).unwrap();
    assert_eq!(rep.status, 401);
    assert_eq!(rep.body.error.as_deref(), Some("Invalid username or password."));
}

#[test]
fn cookie_text_is_exact() {
    let c = set_session_cookie("abc-DEF_123").unwrap();
    assert_eq!(c, "__Host-session=abc-DEF_123; Path=/; Secure; HttpOnly; SameSite=Lax; Max-Age=3600");
}

#[test]
fn cookie_refuses_control_characters() {
    assert_eq!(set_session_cookie("abc\ndef").unwrap_err(), CookieError::InvalidHeaderValue);
    assert_eq!(set_session_cookie("abc\u{7f}").unwrap_err(), CookieError::InvalidHeaderValue);
    assert!(set_session_cookie("tab\there").is_ok());
}
