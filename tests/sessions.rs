use auth_core::errors::SessionError;
use auth_core::forms::{Identifier, RegistrationFormData};
use auth_core::records::{CreateUser, Session};
use auth_core::registration::register_user;
use auth_core::sessions::{
    cleanup_expired_sessions, create_session, delete_session, get_user_by_session,
    update_session_expiry, update_session_expiry_and_token, update_session_token,
    SESSION_DURATION_SECS,
};
use auth_core::store::AuthStore;
use auth_core::token::validate_session_token;

const NOW: i64 = 1_700_000_000;

fn store_with_user() -> (AuthStore, u64) {
    let mut store = AuthStore::new();
    let user = CreateUser { display_name: "Armaan Ali".to_string(), password_hash: "$argon2id$unused".to_string() };
    let uid = store
        .create_user_with_identifier(user, Identifier::Email("a@example.com".to_string()), NOW)
        .unwrap();
    (store, uid)
}

fn latest_session(store: &AuthStore) -> Session {
    store.session_at(store.session_count() - 1).duplicate()
}

#[test]
fn session_is_active_until_its_expiry() {
    let (mut store, uid) = store_with_user();
    let token = create_session(&mut store, uid, NOW).unwrap();
    assert!(validate_session_token(&token).is_ok());
    let s = latest_session(&store);
    assert_eq!(s.expires_at, NOW + 3600);
    assert_eq!(s.created_at, NOW);
    assert_eq!(s.user_id, uid);
    assert_eq!(get_user_by_session(&store, &token, NOW).unwrap().id, uid);
    assert_eq!(get_user_by_session(&store, &token, NOW + 3600).unwrap().id, uid);
}

#[test]
fn session_expires_after_its_duration() {
    let (mut store, uid) = store_with_user();
    let token = create_session(&mut store, uid, NOW).unwrap();
    match get_user_by_session(&store, &token, NOW + SESSION_DURATION_SECS + 1) {
        Err(SessionError::SessionExpired(at)) => assert_eq!(at, NOW + 3600),
        _ => panic!("expected an expired session"),
    }
}

#[test]
fn short_token_is_rejected_before_lookup() {
    let (mut store, uid) = store_with_user();
    create_session(&mut store, uid, NOW).unwrap();
    let r = get_user_by_session(&store, "abcdefghij", NOW);
    assert!(matches!(r, Err(SessionError::InvalidToken)));
}

#[test]
fn unknown_token_is_not_found() {
    let (store, _) = store_with_user();
    let r = get_user_by_session(&store, &"a".repeat(43), NOW);
    assert!(matches!(r, Err(SessionError::SessionNotFound)));
}

#[test]
fn session_of_missing_user_is_user_not_found() {
    let mut store = AuthStore::new();
    let token = create_session(&mut store, 99, NOW).unwrap();
    assert!(matches!(get_user_by_session(&store, &token, NOW), Err(SessionError::UserNotFound)));
}

#[test]
fn rotation_changes_token_not_expiry() {
    let (mut store, uid) = store_with_user();
    let old = create_session(&mut store, uid, NOW).unwrap();
    let new = update_session_token(&mut store, uid).unwrap();
    assert_ne!(old, new);
    let s = latest_session(&store);
    assert_eq!(s.session_token, new);
    assert_eq!(s.expires_at, NOW + 3600);
    assert!(matches!(get_user_by_session(&store, &old, NOW), Err(SessionError::SessionNotFound)));
    assert_eq!(get_user_by_session(&store, &new, NOW).unwrap().id, uid);
}

#[test]
fn extension_adds_duration_to_previous_expiry() {
    let (mut store, uid) = store_with_user();
    let token = create_session(&mut store, uid, NOW).unwrap();
    update_session_expiry(&mut store, uid).unwrap();
    let s = latest_session(&store);
    assert_eq!(s.expires_at, NOW + 7200);
    assert_eq!(s.session_token, token);
    update_session_expiry(&mut store, uid).unwrap();
    assert_eq!(latest_session(&store).expires_at, NOW + 10800);
}

#[test]
fn rotate_and_extend_in_one_update() {
    let (mut store, uid) = store_with_user();
    let old = create_session(&mut store, uid, NOW).unwrap();
    let new = update_session_expiry_and_token(&mut store, uid).unwrap();
    assert_ne!(old, new);
    let s = latest_session(&store);
    assert_eq!(s.session_token, new);
    assert_eq!(s.expires_at, NOW + 7200);
}

#[test]
fn updates_without_session_are_not_found() {
    let (mut store, uid) = store_with_user();
    assert!(matches!(update_session_token(&mut store, uid), Err(SessionError::SessionNotFound)));
    assert!(matches!(update_session_expiry(&mut store, uid), Err(SessionError::SessionNotFound)));
    assert!(matches!(update_session_expiry_and_token(&mut store, uid), Err(SessionError::SessionNotFound)));
}

#[test]
fn deleting_twice_is_no_error() {
    let (mut store, uid) = store_with_user();
    let token = create_session(&mut store, uid, NOW).unwrap();
    assert!(delete_session(&mut store, &token).is_ok());
    assert_eq!(store.session_count(), 0);
    assert!(delete_session(&mut store, &token).is_ok());
    assert_eq!(store.session_count(), 0);
    assert!(delete_session(&mut store, &"b".repeat(43)).is_ok());
    assert!(matches!(get_user_by_session(&store, &token, NOW), Err(SessionError::SessionNotFound)));
}

#[test]
fn deleting_with_malformed_token_is_refused() {
    let (mut store, uid) = store_with_user();
    create_session(&mut store, uid, NOW).unwrap();
    assert!(matches!(delete_session(&mut store, "short"), Err(SessionError::InvalidToken)));
    assert_eq!(store.session_count(), 1);
}

#[test]
fn sweep_removes_only_expired_sessions() {
    let (mut store, uid) = store_with_user();
    let early = create_session(&mut store, uid, NOW).unwrap();
    let late = create_session(&mut store, uid, NOW + 1000).unwrap();
    cleanup_expired_sessions(&mut store, NOW + 3600).unwrap();
    assert_eq!(store.session_count(), 2);
    cleanup_expired_sessions(&mut store, NOW + 3601).unwrap();
    assert_eq!(store.session_count(), 1);
    assert!(store.session_by_token(&early).is_none());
    assert!(store.session_by_token(&late).is_some());
}

#[test]
fn registered_user_gets_a_session() {
    let mut store = AuthStore::new();
    let form = RegistrationFormData {
        name: "Armaan Ali".to_string(),
        identifier: Identifier::Email("a@example.com".to_string()),
        password: "longenough1".to_string(),
    };
    let uid = register_user(&mut store, form, NOW).unwrap();
    let token = create_session(&mut store, uid, NOW).unwrap();
    assert_eq!(get_user_by_session(&store, &token, NOW).unwrap().display_name, "Armaan Ali");
}

#[test]
fn extension_holds_at_largest_timestamp() {
    let (mut store, uid) = store_with_user();
    let start = i64::MAX - SESSION_DURATION_SECS;
    create_session(&mut store, uid, start).unwrap();
    assert_eq!(latest_session(&store).expires_at, i64::MAX);
    update_session_expiry(&mut store, uid).unwrap();
    assert_eq!(latest_session(&store).expires_at, i64::MAX);
}

#[test]
fn updates_act_on_latest_session_of_user() {
    let (mut store, uid) = store_with_user();
    let first = create_session(&mut store, uid, NOW).unwrap();
    let second = create_session(&mut store, uid, NOW + 10).unwrap();
    update_session_expiry(&mut store, uid).unwrap();
    assert_eq!(store.session_by_token(&first).unwrap().expires_at, NOW + 3600);
    assert_eq!(store.session_by_token(&second).unwrap().expires_at, NOW + 10 + 7200);
}
