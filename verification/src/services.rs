use vstd::prelude::*;

use crate::store::{Store, StoreView};
use crate::types::{ApplicationRow, ApplicationRowView, Status};

verus! {

/// The ownership resolver's answer: the full row of the application when it
/// exists and the user owns it, nothing otherwise — one answer for "absent"
/// and for "owned by another user" alike.
pub open spec fn spec_resolve_application(s: StoreView, uid: int, aid: int) -> Option<
    ApplicationRowView,
> {
    if s.owns_application(uid, aid) {
        Some(s.application_at(aid))
    } else {
        None
    }
}

/// The ownership resolver: returns the full application row if and only if an
/// application with this id exists and its owner is the given user; otherwise
/// NotFound, never revealing whether the id exists at all. Every
/// application-scoped operation, and every template operation transitively,
/// must pass through this check.
pub fn get_by_id(store: &Store, user_id: i64, id: i64) -> (r: Result<ApplicationRow, Status>)
    requires
        store@.wf(),
    ensures
        match r {
            Ok(row) => spec_resolve_application(store@, user_id as int, id as int) == Some(row@),
            Err(st) => st == Status::NotFound && spec_resolve_application(
                store@,
                user_id as int,
                id as int,
            ) is None,
        },
{
    match store.find_application(id) {
        Some(i) => {
            if store.applications[i].user_id == user_id {
                proof {
                    assert(store@.applications[i as int].user_id == user_id as int);
                    assert(store@.owns_application(user_id as int, id as int));
                }
                let row = &store.applications[i];
                Ok(
                    ApplicationRow {
                        id: row.id,
                        user_id: row.user_id,
                        name: row.name.clone(),
                        duration: row.duration,
                        checkpoints: row.checkpoints,
                        prefix: row.prefix.clone(),
                        length: row.length,
                        webhook: match &row.webhook {
                            Some(w) => Some(w.clone()),
                            None => None,
                        },
                        webhook_content: match &row.webhook_content {
                            Some(w) => Some(w.clone()),
                            None => None,
                        },
                    },
                )
            } else {
                proof {
                    assert(!store@.owns_application(user_id as int, id as int)) by {
                        if store@.owns_application(user_id as int, id as int) {
                            let k = choose|k: int|
                                0 <= k < store@.applications.len() && store@.applications[k].id
                                    == id as int && store@.applications[k].user_id
                                    == user_id as int;
                            assert(k == i as int);
                        }
                    }
                }
                Err(Status::NotFound)
            }
        },
        None => {
            proof {
                assert(!store@.owns_application(user_id as int, id as int)) by {
                    if store@.owns_application(user_id as int, id as int) {
                        let k = choose|k: int|
                            0 <= k < store@.applications.len() && store@.applications[k].id
                                == id as int && store@.applications[k].user_id == user_id as int;
                        assert(store@.has_application(id as int));
                    }
                }
            }
            Err(Status::NotFound)
        },
    }
}

} // verus!
