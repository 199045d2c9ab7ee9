use vstd::prelude::*;

use crate::applications::{owns_is_at_index, owns_needs_row, spec_applications_for,
    spec_create_application, spec_delete_application, spec_get_application,
    spec_patch_application, spec_visible};
use crate::middleware::{spec_authorize, spec_session_id};
use crate::store::StoreView;
use crate::templates;
use crate::templates::{spec_create_template_raw, spec_delete_template, spec_get_template,
    spec_patch_template, template_in_is_at_index};
use crate::types::{ApplicationPayloadView, ApplicationRowView, ApplicationView, Status,
    TemplatePayloadView, Type};

verus! {

/// A request bearing the id of an expired session is rejected, and — when the
/// session's owning user exists, so the join succeeds — the spent session is
/// removed; a later request bearing the same id, at any time whatever, is
/// rejected again, and that second pass changes nothing.
pub proof fn lemma_expired_session_single_use(
    s: StoreView,
    header: Option<Seq<char>>,
    sid: Seq<char>,
    now1: int,
    now2: int,
)
    requires
        s.wf(),
        spec_session_id(header) == Some(sid),
        s.has_session(sid),
        s.session_at(sid).expires_at <= now1,
    ensures
        spec_authorize(s, header, now1).0 is None,
        ({
            let s1 = spec_authorize(s, header, now1).1;
            &&& spec_authorize(s1, header, now2).0 is None
            &&& spec_authorize(s1, header, now2).1 == s1
            &&& s.has_user(s.session_at(sid).user_id) ==> !s1.has_session(sid)
        }),
{
    let i = s.session_index(sid);
    assert(0 <= i < s.sessions.len() && s.sessions[i].id == sid);
    if s.has_user(s.session_at(sid).user_id) {
        let s1 = s.remove_session(sid);
        assert(!s1.has_session(sid)) by {
            if s1.has_session(sid) {
                let k = choose|k: int| 0 <= k < s1.sessions.len() && s1.sessions[k].id == sid;
                if k < i {
                    assert(s1.sessions[k] == s.sessions[k]);
                } else {
                    assert(s1.sessions[k] == s.sessions[k + 1]);
                }
            }
        }
    }
}

/// An application owned by one user is NotFound to every other user — for
/// detail fetch, replace, and delete alike — with no effect on the store, the
/// very answer an id that exists nowhere receives.
pub proof fn lemma_foreign_application_not_found(
    s: StoreView,
    u1: int,
    u2: int,
    i: int,
    p: ApplicationPayloadView,
)
    requires
        s.wf(),
        u1 != u2,
        0 <= i < s.applications.len(),
        s.applications[i].user_id == u2,
    ensures
        spec_get_application(s, u1, s.applications[i].id) is None,
        spec_patch_application(s, u1, s.applications[i].id, p) == (Status::NotFound, s),
        spec_delete_application(s, u1, s.applications[i].id) == (Status::NotFound, s),
{
    owns_is_at_index(s, u1, s.applications[i].id, i);
}

/// An id no application bears is NotFound to every user, with no effect, for
/// detail fetch, replace, and delete alike.
pub proof fn lemma_absent_application_not_found(
    s: StoreView,
    uid: int,
    aid: int,
    p: ApplicationPayloadView,
)
    requires
        !s.has_application(aid),
    ensures
        spec_get_application(s, uid, aid) is None,
        spec_patch_application(s, uid, aid, p) == (Status::NotFound, s),
        spec_delete_application(s, uid, aid) == (Status::NotFound, s),
{
    owns_needs_row(s, uid, aid);
}

/// A template whose parent is another application is NotFound under this one
/// — for detail fetch, replace, and delete alike — with no effect, whoever
/// owns the application the request is scoped to.
pub proof fn lemma_foreign_template_not_found(
    s: StoreView,
    uid: int,
    aid: int,
    i: int,
    p: TemplatePayloadView,
)
    requires
        s.wf(),
        0 <= i < s.templates.len(),
        s.templates[i].application_id != aid,
    ensures
        spec_get_template(s, uid, aid, s.templates[i].id) is None,
        spec_patch_template(s, uid, aid, s.templates[i].id, p) == (Status::NotFound, s),
        spec_delete_template(s, uid, aid, s.templates[i].id) == (Status::NotFound, s),
{
    template_in_is_at_index(s, aid, s.templates[i].id, i);
}

/// Deleting the same application twice: whatever the first call answered, the
/// second answers NotFound and leaves the store exactly as the first left it.
pub proof fn lemma_application_delete_idempotent(s: StoreView, uid: int, aid: int)
    requires
        s.wf(),
    ensures
        ({
            let s1 = spec_delete_application(s, uid, aid).1;
            spec_delete_application(s1, uid, aid) == (Status::NotFound, s1)
        }),
{
    if s.owns_application(uid, aid) {
        let i = s.application_index(aid);
        assert(0 <= i < s.applications.len() && s.applications[i].id == aid);
        let s1 = spec_delete_application(s, uid, aid).1;
        assert(!s1.owns_application(uid, aid)) by {
            if s1.owns_application(uid, aid) {
                let k = choose|k: int|
                    0 <= k < s1.applications.len() && s1.applications[k].id == aid
                        && s1.applications[k].user_id == uid;
                if k < i {
                    assert(s1.applications[k] == s.applications[k]);
                } else {
                    assert(s1.applications[k] == s.applications[k + 1]);
                }
            }
        }
    }
}

/// Deleting the same template twice: whatever the first call answered, the
/// second answers NotFound and leaves the store exactly as the first left it.
pub proof fn lemma_template_delete_idempotent(s: StoreView, uid: int, aid: int, tid: int)
    requires
        s.wf(),
    ensures
        ({
            let s1 = spec_delete_template(s, uid, aid, tid).1;
            spec_delete_template(s1, uid, aid, tid) == (Status::NotFound, s1)
        }),
{
    if s.owns_application(uid, aid) && s.template_in(aid, tid) {
        let i = s.template_index(tid);
        assert(0 <= i < s.templates.len() && s.templates[i].id == tid);
        let s1 = spec_delete_template(s, uid, aid, tid).1;
        assert(s1.applications == s.applications);
        assert(s1.owns_application(uid, aid));
        assert(!s1.template_in(aid, tid)) by {
            if s1.template_in(aid, tid) {
                let k = choose|k: int|
                    0 <= k < s1.templates.len() && s1.templates[k].id == tid
                        && s1.templates[k].application_id == aid;
                if k < i {
                    assert(s1.templates[k] == s.templates[k]);
                } else {
                    assert(s1.templates[k] == s.templates[k + 1]);
                }
            }
        }
    }
}

/// Every id on a list fetch for a user is the id of some stored row, so it
/// lies below the same bound the stored ids do.
proof fn lemma_applications_for_ids_bounded(apps: Seq<ApplicationRowView>, uid: int, bound: int)
    requires
        forall|k: int| 0 <= k < apps.len() ==> apps[k].id < bound,
    ensures
        forall|j: int|
            0 <= j < spec_applications_for(apps, uid).len() ==> #[trigger] spec_applications_for(
                apps,
                uid,
            )[j].id < bound,
    decreases apps.len(),
{
    if apps.len() > 0 {
        assert(forall|k: int|
            0 <= k < apps.drop_last().len() ==> #[trigger] apps.drop_last()[k].id < bound);
        lemma_applications_for_ids_bounded(apps.drop_last(), uid, bound);
        let lst = spec_applications_for(apps, uid);
        let rest = spec_applications_for(apps.drop_last(), uid);
        assert forall|j: int| 0 <= j < lst.len() implies #[trigger] lst[j].id < bound by {
            if apps.last().user_id == uid && j == lst.len() - 1 {
                assert(lst[j] == spec_visible(apps.last()));
                assert(apps[apps.len() - 1].id < bound);
            } else {
                assert(lst[j] == rest[j]);
            }
        }
    }
}

/// Creating an application from a valid payload then fetching it by the
/// assigned id yields exactly the submitted fields; and the owner's list
/// afterward includes the new record exactly once — at its end, with no other
/// entry bearing its id.
pub proof fn lemma_application_round_trip(s: StoreView, uid: int, p: ApplicationPayloadView)
    requires
        s.wf(),
        crate::types::spec_payload_valid(p),
    ensures
        spec_create_application(s, uid, p).0 == Status::Created,
        ({
            let aid = s.next_application_id;
            let s2 = spec_create_application(s, uid, p).1;
            let expected = ApplicationView {
                id: aid,
                name: p.name,
                duration: p.duration,
                checkpoints: p.checkpoints,
                prefix: p.prefix,
                length: p.length,
            };
            let lst = spec_applications_for(s2.applications, uid);
            &&& spec_get_application(s2, uid, aid) == Some(expected)
            &&& lst.len() > 0 && lst.last() == expected
            &&& forall|j: int| 0 <= j < lst.len() - 1 ==> #[trigger] lst[j].id != aid
        }),
{
    let aid = s.next_application_id;
    let s2 = spec_create_application(s, uid, p).1;
    let row = ApplicationRowView {
        id: aid,
        user_id: uid,
        name: p.name,
        duration: p.duration,
        checkpoints: p.checkpoints,
        prefix: p.prefix,
        length: p.length,
        webhook: None,
        webhook_content: None,
    };
    let n = s.applications.len() as int;
    assert(s2.applications == s.applications.push(row));
    assert(s2.applications[n] == row);
    assert(s2.owns_application(uid, aid));
    assert(s2.application_at(aid) == row) by {
        let k = s2.application_index(aid);
        assert(0 <= k < s2.applications.len() && s2.applications[k].id == aid);
        if k < n {
            assert(s2.applications[k] == s.applications[k]);
        }
    }
    let lst = spec_applications_for(s2.applications, uid);
    assert(s2.applications.drop_last() =~= s.applications);
    assert(lst == spec_applications_for(s.applications, uid).push(spec_visible(row)));
    lemma_applications_for_ids_bounded(s.applications, uid, aid);
    assert forall|j: int| 0 <= j < lst.len() - 1 implies #[trigger] lst[j].id != aid by {
        assert(lst[j] == spec_applications_for(s.applications, uid)[j]);
    }
}

/// A template creation whose kind string lies outside the recognized
/// enumeration is rejected as unprocessable before the ownership check and
/// before any storage effect.
pub proof fn lemma_unknown_kind_rejected(
    s: StoreView,
    uid: int,
    aid: int,
    kind: Seq<char>,
    api_key: Seq<char>,
    api_url: Seq<char>,
)
    requires
        Type::spec_of_str(kind) is None,
    ensures
        spec_create_template_raw(s, uid, aid, kind, api_key, api_url) == (
            Status::UnprocessableEntity,
            s,
        ),
{
}

} // verus!
