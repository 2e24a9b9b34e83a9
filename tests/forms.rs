use auth_core::forms::{FieldIssue, Identifier, IdentifierKind, LoginFormData, RegistrationFormData};
use auth_core::registration::FormData;

fn form(name: &str, id: Identifier, password: &str) -> RegistrationFormData {
    RegistrationFormData { name: name.to_string(), identifier: id, password: password.to_string() }
}

fn email(s: &str) -> Identifier {
    Identifier::Email(s.to_string())
}

fn mobile(s: &str) -> Identifier {
    Identifier::Mobile(s.to_string())
}

#[test]
fn valid_registration_form() {
    assert!(form("Armaan Ali", email("a@example.com"), "longenough1").validate().is_ok());
    assert!(form("Al", mobile("9876543210"), "12345678").validate().is_ok());
}

#[test]
fn name_length_bounds() {
    let one = form("A", email("a@example.com"), "longenough1").validate();
    assert_eq!(one.unwrap_err(), vec![FieldIssue::NameLength]);
    assert!(form(&"n".repeat(100), email("a@example.com"), "longenough1").validate().is_ok());
    let long = form(&"n".repeat(101), email("a@example.com"), "longenough1").validate();
    assert_eq!(long.unwrap_err(), vec![FieldIssue::NameLength]);
}

#[test]
fn password_of_seven_bytes_is_too_short() {
    let r = form("Armaan Ali", email("a@example.com"), "1234567").validate();
    assert_eq!(r.unwrap_err(), vec![FieldIssue::PasswordTooShort]);
}

#[test]
fn email_must_be_valid() {
    let r = form("Armaan Ali", email("not-an-email"), "longenough1").validate();
    assert_eq!(r.unwrap_err(), vec![FieldIssue::InvalidEmail]);
    assert!(form("Armaan Ali", email(""), "longenough1").validate().is_err());
}

#[test]
fn mobile_pattern() {
    assert!(form("Armaan Ali", mobile("6000000000"), "longenough1").validate().is_ok());
    for bad in ["5876543210", "987654321", "98765432100", "98765a3210", ""] {
        let r = form("Armaan Ali", mobile(bad), "longenough1").validate();
        assert_eq!(r.unwrap_err(), vec![FieldIssue::InvalidMobile], "{}", bad);
    }
}

#[test]
fn all_issues_in_field_order() {
    let r = form("A", mobile("123"), "short").validate();
    assert_eq!(
        r.unwrap_err(),
        vec![FieldIssue::NameLength, FieldIssue::InvalidMobile, FieldIssue::PasswordTooShort]
    );
}

#[test]
fn issue_fields_and_messages() {
    assert_eq!(FieldIssue::NameLength.field(), "name");
    assert_eq!(FieldIssue::InvalidEmail.field(), "identifier");
    assert_eq!(FieldIssue::PasswordTooShort.field(), "password");
    assert_eq!(FieldIssue::PasswordTooShort.message(), "length must be at least 8");
}

#[test]
fn login_form_validation() {
    let ok = LoginFormData { identifier: email("a@example.com"), password: "longenough1".to_string() };
    assert!(ok.validate().is_ok());
    let bad = LoginFormData { identifier: mobile("12"), password: "x".to_string() };
    assert_eq!(bad.validate().unwrap_err(), vec![FieldIssue::InvalidMobile, FieldIssue::PasswordTooShort]);
}

#[test]
fn identifier_kind_and_comparison() {
    assert_eq!(email("a@example.com").kind(), IdentifierKind::Email);
    assert_eq!(IdentifierKind::Mobile.as_str(), "mobile");
    assert!(email("a@example.com").same_as(&email("a@example.com")));
    assert!(!email("9876543210").same_as(&mobile("9876543210")));
}

#[test]
fn form_data_validates_like_registration_form() {
    let f = FormData { name: "A".to_string(), identifier: email("a@example.com"), password: "longenough1".to_string() };
    assert_eq!(f.validate().unwrap_err(), vec![FieldIssue::NameLength]);
    let r = f.into_registration();
    assert_eq!(r.name, "A");
}
