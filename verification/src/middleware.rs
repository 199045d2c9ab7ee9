use vstd::prelude::*;

use crate::store::{lemma_remove_session_wf, Store, StoreView};
use crate::types::{Status, User, UserView};

verus! {

/// The value of the cookie with the given name within a cookie header line,
/// as headers::Cookie resolves it: a function of the two strings alone.
pub uninterp spec fn cookie_of(header: Seq<char>, name: Seq<char>) -> Option<Seq<char>>;

/// Relies on headers::Cookie (decode, then get): decodes a cookie header line
/// and looks the named cookie up; the result depends on the header and the
/// name alone.
#[verifier::external_body]
fn cookie_from_header(header: &str, name: &str) -> (r: Option<String>)
    ensures
        r is Some <==> cookie_of(header@, name@) is Some,
        r is Some ==> r.unwrap()@ == cookie_of(header@, name@).unwrap(),
{
    let value = match headers::HeaderValue::from_str(header) {
        Ok(v) => v,
        Err(_) => return None,
    };
    let mut values = std::iter::once(&value);
    let cookie = match <headers::Cookie as headers::Header>::decode(&mut values) {
        Ok(c) => c,
        Err(_) => return None,
    };
    cookie.get(name).map(|v| v.to_owned())
}

/// Relies on chrono::Utc::now: the number of non-leap seconds since the Unix
/// epoch at the instant of the call. Nothing is promised of the value:
/// callers state what holds of every timestamp.
#[verifier::external_body]
fn now_timestamp() -> (r: i64) {
    chrono::Utc::now().timestamp()
}

/// The expiry rule: a session is spent at every instant at or after its
/// expires_at timestamp.
pub fn session_expired(expires_at: i64, now: i64) -> (r: bool)
    ensures
        r == (now >= expires_at),
{
    now >= expires_at
}

/// The session id a request bears: the value of the "aisboost.auth" cookie
/// within its cookie header, if it carries that header and that cookie.
pub open spec fn spec_session_id(header: Option<Seq<char>>) -> Option<Seq<char>> {
    match header {
        Some(h) => cookie_of(h, "aisboost.auth"@),
        None => None,
    }
}

/// Lifts an optional header to its view.
pub open spec fn spec_header_view(header: Option<&str>) -> Option<Seq<char>> {
    match header {
        Some(h) => Some(h@),
        None => None,
    }
}

/// One step of the authentication gate over the store: the identity attached
/// to the request, if any, and the store afterward. The store changes only by
/// the lazy removal of the expired session the request bears; an expired
/// session is garbage-collected on its first use after expiry.
pub open spec fn spec_authorize(s: StoreView, header: Option<Seq<char>>, now: int) -> (Option<
    UserView,
>, StoreView) {
    match spec_session_id(header) {
        None => (None, s),
        Some(sid) => {
            if s.has_session(sid) && s.has_user(s.session_at(sid).user_id) {
                if now >= s.session_at(sid).expires_at {
                    (None, s.remove_session(sid))
                } else {
                    (Some(s.user_at(s.session_at(sid).user_id)), s)
                }
            } else {
                (None, s)
            }
        },
    }
}

/// The authentication gate: extracts the session cookie, resolves the session
/// joined with its owning user, enforces expiry — deleting the spent session
/// on its first use after expiry — and returns the resolved identity. Every
/// failure is the one Unauthenticated outcome, whatever its cause, so the
/// caller cannot probe which sessions exist.
pub fn authorization(store: &mut Store, cookie_header: Option<&str>, now: i64) -> (r: Result<
    User,
    Status,
>)
    requires
        old(store)@.wf(),
    ensures
        final(store)@.wf(),
        final(store)@ == spec_authorize(
            old(store)@,
            spec_header_view(cookie_header),
            now as int,
        ).1,
        match r {
            Ok(u) => spec_authorize(old(store)@, spec_header_view(cookie_header), now as int).0
                == Some(u@),
            Err(st) => st == Status::Unauthenticated && spec_authorize(
                old(store)@,
                spec_header_view(cookie_header),
                now as int,
            ).0 is None,
        },
{
    let header = match cookie_header {
        Some(h) => h,
        None => {
            return Err(Status::Unauthenticated);
        },
    };
    let sid = match cookie_from_header(header, "aisboost.auth") {
        Some(s) => s,
        None => {
            return Err(Status::Unauthenticated);
        },
    };
    let i = match store.find_session(&sid) {
        Some(i) => i,
        None => {
            return Err(Status::Unauthenticated);
        },
    };
    let user_id = store.sessions[i].user_id;
    let expires_at = store.sessions[i].expires_at;
    let j = match store.find_user(user_id) {
        Some(j) => j,
        None => {
            return Err(Status::Unauthenticated);
        },
    };
    if session_expired(expires_at, now) {
        let ghost old_view = store@;
        let _removed = store.sessions.remove(i);
        proof {
            assert forall|k: int| 0 <= k < store@.sessions.len() implies store@.sessions[k]
                == old_view.sessions.remove(i as int)[k] by {
                if k < i as int {
                    assert(store.sessions@[k] == old(store).sessions@[k]);
                } else {
                    assert(store.sessions@[k] == old(store).sessions@[k + 1]);
                }
            }
            assert(store@.sessions =~= old_view.sessions.remove(i as int));
            assert(store@ =~= old_view.remove_session(sid@));
            lemma_remove_session_wf(old_view, sid@);
        }
        Err(Status::Unauthenticated)
    } else {
        let u = &store.users[j];
        Ok(User { id: u.id, email: u.email.clone(), created_at: u.created_at })
    }
}

/// Resolves a request's identity at the instant of the call.
pub fn authorize_now(store: &mut Store, cookie_header: Option<&str>) -> (r: Result<User, Status>)
    requires
        old(store)@.wf(),
    ensures
        final(store)@.wf(),
        exists|now: int|
            #![trigger spec_authorize(old(store)@, spec_header_view(cookie_header), now)]
            {
                let (outcome, s2) = spec_authorize(
                    old(store)@,
                    spec_header_view(cookie_header),
                    now,
                );
                &&& final(store)@ == s2
                &&& match r {
                    Ok(u) => outcome == Some(u@),
                    Err(st) => st == Status::Unauthenticated && outcome is None,
                }
            },
{
    let now = now_timestamp();
    let r = authorization(store, cookie_header, now);
    proof {
        let (outcome, s2) = spec_authorize(old(store)@, spec_header_view(cookie_header), now as int);
        assert(store@ == s2 && match r {
            Ok(u) => outcome == Some(u@),
            Err(st) => st == Status::Unauthenticated && outcome is None,
        });
    }
    r
}

} // verus!
