use vstd::prelude::*;

use crate::services;
use crate::store::{Store, StoreView};
use crate::types::{payload_valid, spec_payload_valid, Application, ApplicationPayload,
    ApplicationPayloadView, ApplicationRow, ApplicationRowView, ApplicationView, Status};

verus! {

/// The fields of a stored application an owner sees on list and detail
/// fetches: everything but the redundant owner id and the webhook fields.
pub open spec fn spec_visible(a: ApplicationRowView) -> ApplicationView {
    ApplicationView {
        id: a.id,
        name: a.name,
        duration: a.duration,
        checkpoints: a.checkpoints,
        prefix: a.prefix,
        length: a.length,
    }
}

/// What a list fetch reports: the visible fields of every application the
/// user owns, in store order.
pub open spec fn spec_applications_for(apps: Seq<ApplicationRowView>, uid: int) -> Seq<
    ApplicationView,
>
    decreases apps.len(),
{
    if apps.len() == 0 {
        Seq::empty()
    } else {
        let rest = spec_applications_for(apps.drop_last(), uid);
        if apps.last().user_id == uid {
            rest.push(spec_visible(apps.last()))
        } else {
            rest
        }
    }
}

/// What a detail fetch reports: the visible fields of the owned application,
/// or nothing — the same nothing for an absent id and a foreign one.
pub open spec fn spec_get_application(s: StoreView, uid: int, aid: int) -> Option<
    ApplicationView,
> {
    if s.owns_application(uid, aid) {
        Some(spec_visible(s.application_at(aid)))
    } else {
        None
    }
}

/// One create step: an invalid payload is rejected before any storage effect;
/// a valid one becomes a row owned by the user, under the next fresh id, with
/// no webhook configured yet.
pub open spec fn spec_create_application(s: StoreView, uid: int, p: ApplicationPayloadView) -> (
    Status,
    StoreView,
) {
    if !spec_payload_valid(p) {
        (Status::UnprocessableEntity, s)
    } else {
        (
            Status::Created,
            StoreView {
                applications: s.applications.push(
                    ApplicationRowView {
                        id: s.next_application_id,
                        user_id: uid,
                        name: p.name,
                        duration: p.duration,
                        checkpoints: p.checkpoints,
                        prefix: p.prefix,
                        length: p.length,
                        webhook: None,
                        webhook_content: None,
                    },
                ),
                next_application_id: s.next_application_id + 1,
                ..s
            },
        )
    }
}

/// One update step: a full replace of the mutable field set of the owned
/// application; NotFound, and no effect, when the scoped row is absent.
pub open spec fn spec_patch_application(
    s: StoreView,
    uid: int,
    aid: int,
    p: ApplicationPayloadView,
) -> (Status, StoreView) {
    if s.owns_application(uid, aid) {
        let i = s.application_index(aid);
        (
            Status::Okay,
            StoreView {
                applications: s.applications.update(
                    i,
                    ApplicationRowView {
                        name: p.name,
                        duration: p.duration,
                        checkpoints: p.checkpoints,
                        prefix: p.prefix,
                        length: p.length,
                        ..s.applications[i]
                    },
                ),
                ..s
            },
        )
    } else {
        (Status::NotFound, s)
    }
}

/// One delete step: the owned row is removed unconditionally; NotFound, and
/// no effect, when the scoped row is absent.
pub open spec fn spec_delete_application(s: StoreView, uid: int, aid: int) -> (Status, StoreView) {
    if s.owns_application(uid, aid) {
        (
            Status::NoContent,
            StoreView { applications: s.applications.remove(s.application_index(aid)), ..s },
        )
    } else {
        (Status::NotFound, s)
    }
}

/// Lists the applications the authenticated user owns.
pub fn index(store: &Store, user_id: i64) -> (r: Vec<Application>)
    ensures
        r@.map_values(|a: Application| a@) == spec_applications_for(
            store@.applications,
            user_id as int,
        ),
{
    let mut out: Vec<Application> = Vec::new();
    let n = store.applications.len();
    for i in 0..n
        invariant
            n == store.applications.len(),
            out@.map_values(|a: Application| a@) == spec_applications_for(
                store@.applications.take(i as int),
                user_id as int,
            ),
    {
        proof {
            assert(store@.applications.take(i as int + 1).drop_last() =~= store@.applications.take(
                i as int,
            ));
            assert(store@.applications.take(i as int + 1).last() == store@.applications[i as int]);
        }
        let row = &store.applications[i];
        if row.user_id == user_id {
            let ghost prev = out@;
            out.push(
                Application {
                    id: row.id,
                    name: row.name.clone(),
                    duration: row.duration,
                    checkpoints: row.checkpoints,
                    prefix: row.prefix.clone(),
                    length: row.length,
                },
            );
            proof {
                assert(out@.last()@ == spec_visible(store@.applications[i as int]));
                assert(out@.map_values(|a: Application| a@) =~= prev.map_values(
                    |a: Application| a@,
                ).push(spec_visible(store@.applications[i as int])));
            }
        }
    }
    proof {
        assert(store@.applications.take(n as int) =~= store@.applications);
    }
    out
}

/// Creates an application owned by the authenticated user. The payload is
/// validated before any storage effect; a valid one is stored under a fresh
/// id.
pub fn create(store: &mut Store, user_id: i64, payload: ApplicationPayload) -> (r: Status)
    requires
        old(store)@.wf(),
        old(store).next_application_id < i64::MAX,
    ensures
        final(store)@.wf(),
        (r, final(store)@) == spec_create_application(old(store)@, user_id as int, payload@),
{
    if !payload_valid(&payload) {
        return Status::UnprocessableEntity;
    }
    let id = store.next_application_id;
    store.next_application_id = store.next_application_id + 1;
    let row = ApplicationRow {
        id,
        user_id,
        name: payload.name,
        duration: payload.duration,
        checkpoints: payload.checkpoints,
        prefix: payload.prefix,
        length: payload.length,
        webhook: None,
        webhook_content: None,
    };
    store.applications.push(row);
    proof {
        let target = spec_create_application(old(store)@, user_id as int, payload@).1;
        assert(store@.applications =~= target.applications);
        assert(store@ =~= target);
        assert forall|p: int, q: int|
            0 <= p < q < store@.applications.len() implies store@.applications[p].id
            != store@.applications[q].id by {
            if q == store@.applications.len() - 1 {
                assert(store@.applications[p] == old(store)@.applications[p]);
                assert(old(store)@.applications[p].id < old(store)@.next_application_id);
            }
        }
        assert forall|k: int|
            0 <= k < store@.applications.len() implies store@.applications[k].id
            < store@.next_application_id by {
            if k < store@.applications.len() - 1 {
                assert(store@.applications[k] == old(store)@.applications[k]);
            }
        }
    }
    Status::Created
}

/// Fetches the visible fields of one owned application; NotFound whether the
/// id is absent or the application belongs to another user.
pub fn get_by_id(store: &Store, user_id: i64, id: i64) -> (r: Result<Application, Status>)
    requires
        store@.wf(),
    ensures
        match r {
            Ok(a) => spec_get_application(store@, user_id as int, id as int) == Some(a@),
            Err(st) => st == Status::NotFound && spec_get_application(
                store@,
                user_id as int,
                id as int,
            ) is None,
        },
{
    match services::get_by_id(store, user_id, id) {
        Ok(row) => Ok(
            Application {
                id: row.id,
                name: row.name,
                duration: row.duration,
                checkpoints: row.checkpoints,
                prefix: row.prefix,
                length: row.length,
            },
        ),
        Err(st) => Err(st),
    }
}

/// Replaces the mutable field set of one owned application; NotFound, and no
/// effect, whether the id is absent or the application belongs to another
/// user.
pub fn patch_by_id(store: &mut Store, user_id: i64, id: i64, payload: ApplicationPayload) -> (r:
    Status)
    requires
        old(store)@.wf(),
    ensures
        final(store)@.wf(),
        (r, final(store)@) == spec_patch_application(
            old(store)@,
            user_id as int,
            id as int,
            payload@,
        ),
{
    let i = match store.find_application(id) {
        Some(i) => i,
        None => {
            proof {
                owns_needs_row(old(store)@, user_id as int, id as int);
            }
            return Status::NotFound;
        },
    };
    if store.applications[i].user_id != user_id {
        proof {
            owns_is_at_index(old(store)@, user_id as int, id as int, i as int);
        }
        return Status::NotFound;
    }
    proof {
        assert(store@.applications[i as int].user_id == user_id as int);
        assert(store@.owns_application(user_id as int, id as int));
    }
    let webhook = match &store.applications[i].webhook {
        Some(w) => Some(w.clone()),
        None => None,
    };
    let webhook_content = match &store.applications[i].webhook_content {
        Some(w) => Some(w.clone()),
        None => None,
    };
    let new_row = ApplicationRow {
        id: store.applications[i].id,
        user_id: store.applications[i].user_id,
        name: payload.name,
        duration: payload.duration,
        checkpoints: payload.checkpoints,
        prefix: payload.prefix,
        length: payload.length,
        webhook,
        webhook_content,
    };
    let ghost old_view = store@;
    store.applications[i] = new_row;
    proof {
        let target = spec_patch_application(old_view, user_id as int, id as int, payload@).1;
        assert forall|k: int|
            0 <= k < store@.applications.len() implies store@.applications[k]
            == target.applications[k] by {
            if k != i as int {
                assert(store.applications@[k] == old(store).applications@[k]);
            }
        }
        assert(store@.applications =~= target.applications);
        assert(store@ =~= target);
        assert forall|p: int, q: int|
            0 <= p < q < store@.applications.len() implies store@.applications[p].id
            != store@.applications[q].id by {
            assert(store@.applications[p].id == old_view.applications[p].id);
            assert(store@.applications[q].id == old_view.applications[q].id);
        }
        assert forall|k: int|
            0 <= k < store@.applications.len() implies store@.applications[k].id
            < store@.next_application_id by {
            assert(store@.applications[k].id == old_view.applications[k].id);
        }
    }
    Status::Okay
}

/// Deletes one owned application; NotFound, and no effect, whether the id is
/// absent or the application belongs to another user. Deleting what is
/// already gone is NotFound again, never an error.
pub fn delete_by_id(store: &mut Store, user_id: i64, id: i64) -> (r: Status)
    requires
        old(store)@.wf(),
    ensures
        final(store)@.wf(),
        (r, final(store)@) == spec_delete_application(old(store)@, user_id as int, id as int),
{
    let i = match store.find_application(id) {
        Some(i) => i,
        None => {
            proof {
                owns_needs_row(old(store)@, user_id as int, id as int);
            }
            return Status::NotFound;
        },
    };
    if store.applications[i].user_id != user_id {
        proof {
            owns_is_at_index(old(store)@, user_id as int, id as int, i as int);
        }
        return Status::NotFound;
    }
    proof {
        assert(store@.applications[i as int].user_id == user_id as int);
        assert(store@.owns_application(user_id as int, id as int));
    }
    let ghost old_view = store@;
    let _removed = store.applications.remove(i);
    proof {
        let target = spec_delete_application(old_view, user_id as int, id as int).1;
        assert forall|k: int|
            0 <= k < store@.applications.len() implies store@.applications[k]
            == target.applications[k] by {
            if k < i as int {
                assert(store.applications@[k] == old(store).applications@[k]);
            } else {
                assert(store.applications@[k] == old(store).applications@[k + 1]);
            }
        }
        assert(store@.applications =~= target.applications);
        assert(store@ =~= target);
        assert forall|p: int, q: int|
            0 <= p < q < store@.applications.len() implies store@.applications[p].id
            != store@.applications[q].id by {
            if p < i as int {
                assert(store@.applications[p] == old_view.applications[p]);
            } else {
                assert(store@.applications[p] == old_view.applications[p + 1]);
            }
            if q < i as int {
                assert(store@.applications[q] == old_view.applications[q]);
            } else {
                assert(store@.applications[q] == old_view.applications[q + 1]);
            }
        }
        assert forall|k: int|
            0 <= k < store@.applications.len() implies store@.applications[k].id
            < store@.next_application_id by {
            if k < i as int {
                assert(store@.applications[k] == old_view.applications[k]);
            } else {
                assert(store@.applications[k] == old_view.applications[k + 1]);
            }
        }
    }
    Status::NoContent
}

/// An application this user owns can only sit at the index the id resolves
/// to: ids are unique.
pub proof fn owns_is_at_index(s: StoreView, uid: int, aid: int, i: int)
    requires
        s.wf(),
        0 <= i < s.applications.len(),
        s.applications[i].id == aid,
        s.applications[i].user_id != uid,
    ensures
        !s.owns_application(uid, aid),
{
    if s.owns_application(uid, aid) {
        let k = choose|k: int|
            0 <= k < s.applications.len() && s.applications[k].id == aid && s.applications[k].user_id
                == uid;
        assert(k == i);
    }
}

/// Ownership of an id requires a row bearing it.
pub proof fn owns_needs_row(s: StoreView, uid: int, aid: int)
    requires
        !s.has_application(aid),
    ensures
        !s.owns_application(uid, aid),
{
    if s.owns_application(uid, aid) {
        let k = choose|k: int|
            0 <= k < s.applications.len() && s.applications[k].id == aid && s.applications[k].user_id
                == uid;
        assert(s.has_application(aid));
    }
}

} // verus!
