use std::time::Duration;
use tolaria::auth::{gate, login, logout, me, Gate};
use tolaria::csrf::{CSRF_COOKIE, SESSION_COOKIE};
use tolaria::session::SessionStore;
use tolaria::users::UserRecord;

#[test]
fn create_then_get_returns_session() {
    let mut store = SessionStore::new(Duration::from_secs(60).as_nanos());
    let token = store.create(7, "alice").expect("random source");
    let session = store.get(&token).expect("valid session");
    assert_eq!(session.user_id, 7);
    assert_eq!(session.username, "alice");
}

#[test]
fn unknown_token_returns_none() {
    let mut store = SessionStore::new(Duration::from_secs(60).as_nanos());
    assert!(store.get("deadbeef").is_none());
}

#[test]
fn removed_session_is_gone() {
    let mut store = SessionStore::new(Duration::from_secs(60).as_nanos());
    let token = store.create(1, "bob").expect("random source");
    store.remove(&token);
    assert!(store.get(&token).is_none());
}

#[test]
fn expired_session_returns_none() {
    let mut store = SessionStore::new(Duration::from_millis(0).as_nanos());
    let token = store.create(1, "bob").expect("random source");
    assert!(store.get(&token).is_none());
}

#[test]
fn session_expires_at_its_deadline() {
    let mut store = SessionStore::new(Duration::from_millis(5).as_nanos());
    store.insert_at("tok".to_string(), 1, "bob", 0);
    assert!(store.get_at("tok", 4_999_999).is_some());
    assert!(store.get_at("tok", 5_000_000).is_none());
    // The expired session was evicted, so it stays gone.
    assert!(store.get_at("tok", 0).is_none());
}

#[test]
fn tokens_are_unique_and_long() {
    let mut store = SessionStore::new(Duration::from_secs(60).as_nanos());
    let a = store.create(1, "x").expect("random source");
    let b = store.create(1, "x").expect("random source");
    assert_ne!(a, b);
    assert_eq!(a.len(), 64); // 32 bytes hex
}

fn alice() -> UserRecord {
    UserRecord {
        id: 3,
        username: "alice".into(),
        git_name: "Alice".into(),
        git_email: "a@example.com".into(),
    }
}

#[test]
fn good_login_sets_cookie_and_redirects() {
    let mut store = SessionStore::new(Duration::from_secs(60).as_nanos());
    let reply = login(&mut store, Some(alice()), true).expect("random source");
    assert_eq!(reply.location, "/");
    assert_eq!(reply.set_cookies.len(), 2);
    let session = &reply.set_cookies[0];
    assert_eq!(session.name, SESSION_COOKIE);
    assert!(session.http_only);
    assert!(session.secure);
    let csrf = &reply.set_cookies[1];
    assert_eq!(csrf.name, CSRF_COOKIE);
    assert!(!csrf.http_only);
    assert_eq!(csrf.value.len(), 64);
    let s = store.get(&session.value).expect("the cookie names a live session");
    assert_eq!(s.user_id, 3);
    assert_eq!(s.username, "alice");
}

#[test]
fn bad_login_redirects_to_error() {
    let mut store = SessionStore::new(Duration::from_secs(60).as_nanos());
    let reply = login(&mut store, None, false).unwrap();
    assert_eq!(reply.location, "/login?error=1");
    assert!(reply.set_cookies.is_empty());
}

#[test]
fn unauthenticated_api_is_401() {
    let mut store = SessionStore::new(Duration::from_secs(60).as_nanos());
    assert_eq!(gate(&mut store, None, "/api/cmd/list_vault"), Gate::Unauthorized);
    assert_eq!(gate(&mut store, Some("bogus"), "/api/auth/me"), Gate::Unauthorized);
}

#[test]
fn unauthenticated_page_redirects_to_login() {
    let mut store = SessionStore::new(Duration::from_secs(60).as_nanos());
    assert_eq!(gate(&mut store, None, "/"), Gate::RedirectToLogin);
    assert_eq!(gate(&mut store, None, "/api"), Gate::RedirectToLogin);
}

#[test]
fn authenticated_request_passes() {
    let mut store = SessionStore::new(Duration::from_secs(60).as_nanos());
    let token = store.create(1, "alice").expect("random source");
    assert_eq!(gate(&mut store, Some(&token), "/api/cmd/list_vault"), Gate::Pass);
    assert_eq!(gate(&mut store, Some(&token), "/"), Gate::Pass);
}

#[test]
fn me_without_cookie_is_401() {
    let mut store = SessionStore::new(Duration::from_secs(60).as_nanos());
    let err = me(&mut store, None).unwrap_err();
    assert_eq!(err.status, 401);
    assert_eq!(err.message, "not authenticated");
}

#[test]
fn me_with_session_names_the_user_and_logout_ends_it() {
    let mut store = SessionStore::new(Duration::from_secs(60).as_nanos());
    let token = store.create(9, "dora").expect("random source");
    assert_eq!(me(&mut store, Some(&token)).unwrap(), "dora");
    assert_eq!(logout(&mut store, Some(&token)), "/login");
    assert_eq!(me(&mut store, Some(&token)).unwrap_err().status, 401);
}

#[test]
fn session_lives_exactly_its_lifetime() {
    let mut store = SessionStore::new(Duration::from_secs(60).as_nanos());
    store.insert_at("t".to_string(), 4, "carol", 1_000);
    let live = store.get_at("t", 1_000 + 60_000_000_000 - 1).expect("still live");
    assert_eq!(live.user_id, 4);
    assert_eq!(live.username, "carol");
    assert!(store.get_at("t", 1_000 + 60_000_000_000).is_none());
}
