use auth_core::authentication::authenticate;
use auth_core::errors::{AuthError, RegistrationError};
use auth_core::forms::{FieldIssue, Identifier, LoginFormData, RegistrationFormData};
use auth_core::registration::register_user;
use auth_core::store::AuthStore;

const NOW: i64 = 1_700_000_000;

fn form(name: &str, id: Identifier, password: &str) -> RegistrationFormData {
    RegistrationFormData { name: name.to_string(), identifier: id, password: password.to_string() }
}

fn login_form(id: Identifier, password: &str) -> LoginFormData {
    LoginFormData { identifier: id, password: password.to_string() }
}

fn email(s: &str) -> Identifier {
    Identifier::Email(s.to_string())
}

#[test]
fn register_then_authenticate_returns_same_key() {
    let mut store = AuthStore::new();
    let uid = register_user(&mut store, form("Armaan Ali", email("a@example.com"), "longenough1"), NOW).unwrap();
    assert_eq!(store.user_count(), 1);
    assert_eq!(store.identifier_count(), 1);
    let user = store.user_by_id(uid).unwrap();
    assert_eq!(user.display_name, "Armaan Ali");
    assert_eq!(user.role, "user");
    assert_eq!(user.created_at, NOW);
    assert_ne!(user.password_hash, "longenough1");
    let auth = authenticate(&store, login_form(email("a@example.com"), "longenough1"));
    assert_eq!(auth.unwrap(), uid);
}

#[test]
fn register_with_mobile_then_authenticate() {
    let mut store = AuthStore::new();
    let uid = register_user(&mut store, form("Zara", Identifier::Mobile("9123456789".to_string()), "password123"), NOW).unwrap();
    let auth = authenticate(&store, login_form(Identifier::Mobile("9123456789".to_string()), "password123"));
    assert_eq!(auth.unwrap(), uid);
}

#[test]
fn second_registration_of_same_email_is_refused() {
    let mut store = AuthStore::new();
    let first = register_user(&mut store, form("Armaan Ali", email("a@example.com"), "longenough1"), NOW).unwrap();
    let second = register_user(&mut store, form("Someone Else", email("a@example.com"), "otherpassword"), NOW + 5);
    match second {
        Err(RegistrationError::NotUniqueError(field)) => assert_eq!(field, "email"),
        _ => panic!("expected the uniqueness error"),
    }
    assert_eq!(store.user_count(), 1);
    assert_eq!(store.identifier_count(), 1);
    let user = store.user_by_id(first).unwrap();
    assert_eq!(user.display_name, "Armaan Ali");
    assert_eq!(authenticate(&store, login_form(email("a@example.com"), "longenough1")).unwrap(), first);
}

#[test]
fn same_value_of_other_kind_is_not_a_conflict() {
    let mut store = AuthStore::new();
    register_user(&mut store, form("Armaan Ali", email("a@example.com"), "longenough1"), NOW).unwrap();
    let r = form("Armaan Ali", Identifier::Mobile("a@example.com".to_string()), "longenough1");
    assert!(r.validate_uniqueness(&store).is_ok());
    let taken = form("Armaan Ali", email("a@example.com"), "longenough1");
    assert!(matches!(taken.validate_uniqueness(&store), Err(RegistrationError::NotUniqueError(_))));
}

#[test]
fn invalid_form_is_refused_before_anything_is_stored() {
    let mut store = AuthStore::new();
    let r = register_user(&mut store, form("A", email("a@example.com"), "short"), NOW);
    match r {
        Err(RegistrationError::InvalidData(issues)) => {
            assert_eq!(issues, vec![FieldIssue::NameLength, FieldIssue::PasswordTooShort])
        },
        _ => panic!("expected invalid data"),
    }
    assert_eq!(store.user_count(), 0);
    assert_eq!(store.identifier_count(), 0);
}

#[test]
fn wrong_password_is_a_verification_error() {
    let mut store = AuthStore::new();
    register_user(&mut store, form("Armaan Ali", email("a@example.com"), "longenough1"), NOW).unwrap();
    let r = authenticate(&store, login_form(email("a@example.com"), "wrongpassword"));
    assert!(matches!(r, Err(AuthError::PasswordVerificationError(_))));
}

#[test]
fn unknown_identifier_is_user_not_found() {
    let store = AuthStore::new();
    let r = authenticate(&store, login_form(email("nobody@example.com"), "longenough1"));
    assert!(matches!(r, Err(AuthError::UserNotFound)));
}

#[test]
fn keys_are_distinct() {
    let mut store = AuthStore::new();
    let a = register_user(&mut store, form("Armaan Ali", email("a@example.com"), "longenough1"), NOW).unwrap();
    let b = register_user(&mut store, form("Bilal Khan", email("b@example.com"), "longenough2"), NOW).unwrap();
    assert_ne!(a, b);
    assert_eq!(store.user_count(), 2);
}
