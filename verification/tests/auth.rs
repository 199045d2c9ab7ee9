use aisboost::middleware::{authorization, authorize_now, session_expired};
use aisboost::store::{Session, Store};
use aisboost::types::{Status, User};
use aisboost::users::me;

fn seeded_store(expires_at: i64) -> Store {
    Store {
        sessions: vec![Session { id: "abc".to_string(), user_id: 1, expires_at }],
        users: vec![User { id: 1, email: "u1@example.com".to_string(), created_at: 42 }],
        applications: Vec::new(),
        templates: Vec::new(),
        next_application_id: 1,
        next_template_id: 1,
    }
}

#[test]
fn expired_session_rejected_and_cleaned() {
    let t0 = 100;
    let mut store = seeded_store(t0);
    let r = authorization(&mut store, Some("aisboost.auth=abc"), t0 + 1);
    match r {
        Err(st) => assert_eq!(st, Status::Unauthenticated),
        Ok(_) => panic!("expired session must not authenticate"),
    }
    assert_eq!(store.sessions.len(), 0);
}

#[test]
fn expired_session_rejected_twice() {
    let t0 = 100;
    let mut store = seeded_store(t0);
    let first = authorization(&mut store, Some("aisboost.auth=abc"), t0 + 1);
    assert!(first.is_err());
    let second = authorization(&mut store, Some("aisboost.auth=abc"), t0 + 2);
    match second {
        Err(st) => assert_eq!(st, Status::Unauthenticated),
        Ok(_) => panic!("reused expired session must not authenticate"),
    }
    assert_eq!(store.sessions.len(), 0);
}

#[test]
fn session_at_exact_expiry_rejected() {
    let t0 = 100;
    let mut store = seeded_store(t0);
    let r = authorization(&mut store, Some("aisboost.auth=abc"), t0);
    assert!(r.is_err());
    assert_eq!(store.sessions.len(), 0);
}

#[test]
fn valid_session_grants_identity() {
    let mut store = seeded_store(200);
    let r = authorization(&mut store, Some("aisboost.auth=abc"), 150);
    match r {
        Ok(user) => {
            assert_eq!(user.id, 1);
            assert_eq!(user.email, "u1@example.com");
            assert_eq!(user.created_at, 42);
        }
        Err(_) => panic!("valid session must authenticate"),
    }
    assert_eq!(store.sessions.len(), 1);
}

#[test]
fn session_cookie_found_among_others() {
    let mut store = seeded_store(200);
    let r = authorization(&mut store, Some("lang=en-US; aisboost.auth=abc; theme=dark"), 150);
    assert!(r.is_ok());
}

#[test]
fn missing_cookie_header_rejected() {
    let mut store = seeded_store(200);
    let r = authorization(&mut store, None, 150);
    match r {
        Err(st) => assert_eq!(st, Status::Unauthenticated),
        Ok(_) => panic!("request without cookies must not authenticate"),
    }
    assert_eq!(store.sessions.len(), 1);
}

#[test]
fn missing_session_cookie_rejected() {
    let mut store = seeded_store(200);
    let r = authorization(&mut store, Some("lang=en-US"), 150);
    assert!(r.is_err());
    assert_eq!(store.sessions.len(), 1);
}

#[test]
fn unknown_session_rejected() {
    let mut store = seeded_store(200);
    let r = authorization(&mut store, Some("aisboost.auth=zzz"), 150);
    assert!(r.is_err());
    assert_eq!(store.sessions.len(), 1);
}

#[test]
fn session_without_user_rejected() {
    let mut store = seeded_store(200);
    store.users.clear();
    let r = authorization(&mut store, Some("aisboost.auth=abc"), 150);
    assert!(r.is_err());
    // no join row, so no lazy cleanup either
    assert_eq!(store.sessions.len(), 1);
}

#[test]
fn authorize_now_rejects_empty_store() {
    let mut store = Store::new();
    let r = authorize_now(&mut store, Some("aisboost.auth=abc"));
    assert!(r.is_err());
    assert_eq!(store.sessions.len(), 0);
}

#[test]
fn session_expired_is_at_or_after() {
    assert!(session_expired(100, 100));
    assert!(session_expired(100, 101));
    assert!(!session_expired(100, 99));
}

#[test]
fn me_returns_attached_identity() {
    let user = User { id: 7, email: "me@example.com".to_string(), created_at: 9 };
    let copy = me(&user);
    assert_eq!(copy.id, 7);
    assert_eq!(copy.email, "me@example.com");
    assert_eq!(copy.created_at, 9);
}
