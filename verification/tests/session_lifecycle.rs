//! Session manager and store behaviour: wholesale login, idempotent
//! logout, and token-addressed reads and writes.

use session_auth::model::UserInfo;
use session_auth::roles::{UserRole, UserStatus};
use session_auth::session::{SessionManager, SessionRecord, SessionStore};

fn view(id: u128, email: &str) -> UserInfo {
    UserInfo {
        id,
        account_id: 1,
        branch_id: None,
        name: None,
        email: email.to_string(),
        role: UserRole::Manager,
        status: UserStatus::Active,
    }
}

#[test]
fn login_stores_view_and_read_returns_it() {
    let mut session = SessionRecord { user: None };
    SessionManager::login(&mut session, view(9, "m@x.com"));
    let got = SessionManager::get_current_user(&session).expect("no user stored");
    assert_eq!(got.id, 9);
    assert_eq!(got.email, "m@x.com");
    assert!(SessionManager::is_logged_in(&session));
}

#[test]
fn repeated_login_overwrites_wholesale() {
    let mut session = SessionRecord { user: None };
    SessionManager::login(&mut session, view(9, "m@x.com"));
    SessionManager::login(&mut session, view(12, "n@x.com"));
    let got = SessionManager::get_current_user(&session).expect("no user stored");
    assert_eq!(got.id, 12);
    assert_eq!(got.email, "n@x.com");
}

#[test]
fn logout_without_login_succeeds_and_reads_empty() {
    let mut session = SessionRecord { user: None };
    let removed = SessionManager::logout(&mut session);
    assert!(removed.is_none());
    assert!(SessionManager::get_current_user(&session).is_none());
    assert!(!SessionManager::is_logged_in(&session));
}

#[test]
fn logout_returns_what_was_removed() {
    let mut session = SessionRecord { user: None };
    SessionManager::login(&mut session, view(9, "m@x.com"));
    let removed = SessionManager::logout(&mut session).expect("nothing removed");
    assert_eq!(removed.user.id, 9);
    assert!(SessionManager::get_current_user(&session).is_none());
    let removed_again = SessionManager::logout(&mut session);
    assert!(removed_again.is_none());
}

#[test]
fn store_round_trips_sessions_by_token() {
    let mut store = SessionStore::new();
    let token = store.create_session().expect("token collision");
    let mut record = store.load(token).expect("fresh session missing");
    assert!(record.user.is_none());
    SessionManager::login(&mut record, view(5, "s@x.com"));
    store.save(token, record);
    let reloaded = store.load(token).expect("session missing after save");
    let got = SessionManager::get_current_user(&reloaded).expect("no user stored");
    assert_eq!(got.id, 5);
}

#[test]
fn store_remove_destroys_session() {
    let mut store = SessionStore::new();
    let token = store.create_session().expect("token collision");
    let removed = store.remove(token);
    assert!(removed.is_some());
    assert!(store.load(token).is_none());
    assert!(store.remove(token).is_none());
}

#[test]
fn distinct_sessions_get_distinct_tokens() {
    let mut store = SessionStore::new();
    let first = store.create_session().expect("token collision");
    let second = store.create_session().expect("token collision");
    assert_ne!(first, second);
}
