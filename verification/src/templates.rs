use vstd::prelude::*;

use crate::services;
use crate::store::{Store, StoreView};
use crate::types::{Status, Template, TemplatePayload, TemplatePayloadView, TemplateRow,
    TemplateRowView, TemplateView, Type};

verus! {

/// The fields of a stored template the owner of its parent application sees:
/// everything but the redundant parent id.
pub open spec fn spec_visible(t: TemplateRowView) -> TemplateView {
    TemplateView { id: t.id, kind: t.kind, api_key: t.api_key, api_url: t.api_url }
}

/// What a list fetch reports: the visible fields of every template under the
/// parent application, in store order.
pub open spec fn spec_templates_for(ts: Seq<TemplateRowView>, aid: int) -> Seq<TemplateView>
    decreases ts.len(),
{
    if ts.len() == 0 {
        Seq::empty()
    } else {
        let rest = spec_templates_for(ts.drop_last(), aid);
        if ts.last().application_id == aid {
            rest.push(spec_visible(ts.last()))
        } else {
            rest
        }
    }
}

/// What a template list fetch answers: the templates under the application
/// when the user owns it, nothing otherwise.
pub open spec fn spec_list_templates(s: StoreView, uid: int, aid: int) -> Option<
    Seq<TemplateView>,
> {
    if s.owns_application(uid, aid) {
        Some(spec_templates_for(s.templates, aid))
    } else {
        None
    }
}

/// What a detail fetch reports: the template only when the whole ownership
/// chain holds — the user owns the application and the template sits under
/// it. A template id alone never grants access.
pub open spec fn spec_get_template(s: StoreView, uid: int, aid: int, tid: int) -> Option<
    TemplateView,
> {
    if s.owns_application(uid, aid) && s.template_in(aid, tid) {
        Some(spec_visible(s.template_at(tid)))
    } else {
        None
    }
}

/// One create step: nothing is inserted unless the user owns the parent
/// application; then the payload becomes a row under it, with the kind in its
/// stored string form and a fresh id.
pub open spec fn spec_create_template(s: StoreView, uid: int, aid: int, p: TemplatePayloadView) -> (
    Status,
    StoreView,
) {
    if !s.owns_application(uid, aid) {
        (Status::NotFound, s)
    } else {
        (
            Status::Created,
            StoreView {
                templates: s.templates.push(
                    TemplateRowView {
                        id: s.next_template_id,
                        application_id: aid,
                        kind: p.kind.spec_str(),
                        api_key: p.api_key,
                        api_url: p.api_url,
                    },
                ),
                next_template_id: s.next_template_id + 1,
                ..s
            },
        )
    }
}

/// One create step from the transport's raw form: a kind string outside the
/// recognized enumeration is rejected before the ownership check and before
/// any storage effect.
pub open spec fn spec_create_template_raw(
    s: StoreView,
    uid: int,
    aid: int,
    kind: Seq<char>,
    api_key: Seq<char>,
    api_url: Seq<char>,
) -> (Status, StoreView) {
    match Type::spec_of_str(kind) {
        None => (Status::UnprocessableEntity, s),
        Some(t) => spec_create_template(
            s,
            uid,
            aid,
            TemplatePayloadView { kind: t, api_key: api_key, api_url: api_url },
        ),
    }
}

/// One update step: a full replace of the mutable field set of the template,
/// only when the user owns the parent application and the template sits under
/// it; NotFound, and no effect, otherwise.
pub open spec fn spec_patch_template(
    s: StoreView,
    uid: int,
    aid: int,
    tid: int,
    p: TemplatePayloadView,
) -> (Status, StoreView) {
    if !s.owns_application(uid, aid) {
        (Status::NotFound, s)
    } else if s.template_in(aid, tid) {
        let i = s.template_index(tid);
        (
            Status::Okay,
            StoreView {
                templates: s.templates.update(
                    i,
                    TemplateRowView {
                        kind: p.kind.spec_str(),
                        api_key: p.api_key,
                        api_url: p.api_url,
                        ..s.templates[i]
                    },
                ),
                ..s
            },
        )
    } else {
        (Status::NotFound, s)
    }
}

/// One delete step: the template is removed only when the whole ownership
/// chain holds; NotFound, and no effect, otherwise — deleting what is already
/// gone is NotFound again, never an error.
pub open spec fn spec_delete_template(s: StoreView, uid: int, aid: int, tid: int) -> (
    Status,
    StoreView,
) {
    if !s.owns_application(uid, aid) {
        (Status::NotFound, s)
    } else if s.template_in(aid, tid) {
        (
            Status::NoContent,
            StoreView { templates: s.templates.remove(s.template_index(tid)), ..s },
        )
    } else {
        (Status::NotFound, s)
    }
}

/// Lists the templates under one application, after resolving that the
/// authenticated user owns it.
pub fn index(store: &Store, user_id: i64, application_id: i64) -> (r: Result<Vec<Template>, Status>)
    requires
        store@.wf(),
    ensures
        match r {
            Ok(ts) => spec_list_templates(store@, user_id as int, application_id as int) == Some(
                ts@.map_values(|t: Template| t@),
            ),
            Err(st) => st == Status::NotFound && spec_list_templates(
                store@,
                user_id as int,
                application_id as int,
            ) is None,
        },
{
    if let Err(st) = services::get_by_id(store, user_id, application_id) {
        return Err(st);
    }
    let mut out: Vec<Template> = Vec::new();
    let n = store.templates.len();
    for i in 0..n
        invariant
            n == store.templates.len(),
            out@.map_values(|t: Template| t@) == spec_templates_for(
                store@.templates.take(i as int),
                application_id as int,
            ),
    {
        proof {
            assert(store@.templates.take(i as int + 1).drop_last() =~= store@.templates.take(
                i as int,
            ));
            assert(store@.templates.take(i as int + 1).last() == store@.templates[i as int]);
        }
        let row = &store.templates[i];
        if row.application_id == application_id {
            let ghost prev = out@;
            out.push(
                Template {
                    id: row.id,
                    kind: row.kind.clone(),
                    api_key: row.api_key.clone(),
                    api_url: row.api_url.clone(),
                },
            );
            proof {
                assert(out@.last()@ == spec_visible(store@.templates[i as int]));
                assert(out@.map_values(|t: Template| t@) =~= prev.map_values(
                    |t: Template| t@,
                ).push(spec_visible(store@.templates[i as int])));
            }
        }
    }
    proof {
        assert(store@.templates.take(n as int) =~= store@.templates);
    }
    Ok(out)
}

/// Creates a template under one application, after resolving that the
/// authenticated user owns it; the resolver's failure is returned unchanged
/// and nothing is inserted.
pub fn create(store: &mut Store, user_id: i64, application_id: i64, payload: TemplatePayload) -> (r:
    Status)
    requires
        old(store)@.wf(),
        old(store).next_template_id < i64::MAX,
    ensures
        final(store)@.wf(),
        (r, final(store)@) == spec_create_template(
            old(store)@,
            user_id as int,
            application_id as int,
            payload@,
        ),
{
    if let Err(st) = services::get_by_id(store, user_id, application_id) {
        return st;
    }
    let id = store.next_template_id;
    store.next_template_id = store.next_template_id + 1;
    let row = TemplateRow {
        id,
        application_id,
        kind: payload.kind.to_string(),
        api_key: payload.api_key,
        api_url: payload.api_url,
    };
    store.templates.push(row);
    proof {
        let target = spec_create_template(
            old(store)@,
            user_id as int,
            application_id as int,
            payload@,
        ).1;
        assert(store@.templates =~= target.templates);
        assert(store@ =~= target);
        assert forall|p: int, q: int|
            0 <= p < q < store@.templates.len() implies store@.templates[p].id
            != store@.templates[q].id by {
            if q == store@.templates.len() - 1 {
                assert(store@.templates[p] == old(store)@.templates[p]);
                assert(old(store)@.templates[p].id < old(store)@.next_template_id);
            }
        }
        assert forall|k: int|
            0 <= k < store@.templates.len() implies store@.templates[k].id
            < store@.next_template_id by {
            if k < store@.templates.len() - 1 {
                assert(store@.templates[k] == old(store)@.templates[k]);
            }
        }
    }
    Status::Created
}

/// Creates a template from the transport's raw form: the kind string must be
/// one of the recognized provider names, or the request fails before any
/// storage call.
pub fn create_raw(
    store: &mut Store,
    user_id: i64,
    application_id: i64,
    kind: &str,
    api_key: String,
    api_url: String,
) -> (r: Status)
    requires
        old(store)@.wf(),
        old(store).next_template_id < i64::MAX,
    ensures
        final(store)@.wf(),
        (r, final(store)@) == spec_create_template_raw(
            old(store)@,
            user_id as int,
            application_id as int,
            kind@,
            api_key@,
            api_url@,
        ),
{
    match Type::from_string(kind) {
        None => Status::UnprocessableEntity,
        Some(t) => create(
            store,
            user_id,
            application_id,
            TemplatePayload { kind: t, api_key, api_url },
        ),
    }
}

/// Fetches one template by the whole chain — template under application under
/// user — in a single scoped lookup; NotFound whenever any link fails, never
/// saying which.
pub fn get_by_id(store: &Store, user_id: i64, application_id: i64, id: i64) -> (r: Result<
    Template,
    Status,
>)
    requires
        store@.wf(),
    ensures
        match r {
            Ok(t) => spec_get_template(store@, user_id as int, application_id as int, id as int)
                == Some(t@),
            Err(st) => st == Status::NotFound && spec_get_template(
                store@,
                user_id as int,
                application_id as int,
                id as int,
            ) is None,
        },
{
    let i = match store.find_template(id) {
        Some(i) => i,
        None => {
            proof {
                template_in_needs_row(store@, application_id as int, id as int);
            }
            return Err(Status::NotFound);
        },
    };
    if store.templates[i].application_id != application_id {
        proof {
            template_in_is_at_index(store@, application_id as int, id as int, i as int);
        }
        return Err(Status::NotFound);
    }
    proof {
        assert(store@.templates[i as int].application_id == application_id as int);
        assert(store@.template_in(application_id as int, id as int));
    }
    if let Err(st) = services::get_by_id(store, user_id, application_id) {
        return Err(st);
    }
    let row = &store.templates[i];
    Ok(
        Template {
            id: row.id,
            kind: row.kind.clone(),
            api_key: row.api_key.clone(),
            api_url: row.api_url.clone(),
        },
    )
}

/// Replaces the mutable field set of one template, after resolving the whole
/// ownership chain; NotFound, and no effect, whenever any link fails.
pub fn patch_by_id(
    store: &mut Store,
    user_id: i64,
    application_id: i64,
    id: i64,
    payload: TemplatePayload,
) -> (r: Status)
    requires
        old(store)@.wf(),
    ensures
        final(store)@.wf(),
        (r, final(store)@) == spec_patch_template(
            old(store)@,
            user_id as int,
            application_id as int,
            id as int,
            payload@,
        ),
{
    if let Err(st) = services::get_by_id(store, user_id, application_id) {
        return st;
    }
    let i = match store.find_template(id) {
        Some(i) => i,
        None => {
            proof {
                template_in_needs_row(store@, application_id as int, id as int);
            }
            return Status::NotFound;
        },
    };
    if store.templates[i].application_id != application_id {
        proof {
            template_in_is_at_index(store@, application_id as int, id as int, i as int);
        }
        return Status::NotFound;
    }
    proof {
        assert(store@.templates[i as int].application_id == application_id as int);
        assert(store@.template_in(application_id as int, id as int));
    }
    let new_row = TemplateRow {
        id: store.templates[i].id,
        application_id: store.templates[i].application_id,
        kind: payload.kind.to_string(),
        api_key: payload.api_key,
        api_url: payload.api_url,
    };
    let ghost old_view = store@;
    store.templates[i] = new_row;
    proof {
        let target = spec_patch_template(
            old_view,
            user_id as int,
            application_id as int,
            id as int,
            payload@,
        ).1;
        assert forall|k: int|
            0 <= k < store@.templates.len() implies store@.templates[k] == target.templates[k] by {
            if k != i as int {
                assert(store.templates@[k] == old(store).templates@[k]);
            }
        }
        assert(store@.templates =~= target.templates);
        assert(store@ =~= target);
        assert forall|p: int, q: int|
            0 <= p < q < store@.templates.len() implies store@.templates[p].id
            != store@.templates[q].id by {
            assert(store@.templates[p].id == old_view.templates[p].id);
            assert(store@.templates[q].id == old_view.templates[q].id);
        }
        assert forall|k: int|
            0 <= k < store@.templates.len() implies store@.templates[k].id
            < store@.next_template_id by {
            assert(store@.templates[k].id == old_view.templates[k].id);
        }
    }
    Status::Okay
}

/// Deletes one template, after resolving the whole ownership chain; NotFound,
/// and no effect, whenever any link fails.
pub fn delete_by_id(store: &mut Store, user_id: i64, application_id: i64, id: i64) -> (r: Status)
    requires
        old(store)@.wf(),
    ensures
        final(store)@.wf(),
        (r, final(store)@) == spec_delete_template(
            old(store)@,
            user_id as int,
            application_id as int,
            id as int,
        ),
{
    if let Err(st) = services::get_by_id(store, user_id, application_id) {
        return st;
    }
    let i = match store.find_template(id) {
        Some(i) => i,
        None => {
            proof {
                template_in_needs_row(store@, application_id as int, id as int);
            }
            return Status::NotFound;
        },
    };
    if store.templates[i].application_id != application_id {
        proof {
            template_in_is_at_index(store@, application_id as int, id as int, i as int);
        }
        return Status::NotFound;
    }
    proof {
        assert(store@.templates[i as int].application_id == application_id as int);
        assert(store@.template_in(application_id as int, id as int));
    }
    let ghost old_view = store@;
    let _removed = store.templates.remove(i);
    proof {
        let target = spec_delete_template(
            old_view,
            user_id as int,
            application_id as int,
            id as int,
        ).1;
        assert forall|k: int|
            0 <= k < store@.templates.len() implies store@.templates[k] == target.templates[k] by {
            if k < i as int {
                assert(store.templates@[k] == old(store).templates@[k]);
            } else {
                assert(store.templates@[k] == old(store).templates@[k + 1]);
            }
        }
        assert(store@.templates =~= target.templates);
        assert(store@ =~= target);
        assert forall|p: int, q: int|
            0 <= p < q < store@.templates.len() implies store@.templates[p].id
            != store@.templates[q].id by {
            if p < i as int {
                assert(store@.templates[p] == old_view.templates[p]);
            } else {
                assert(store@.templates[p] == old_view.templates[p + 1]);
            }
            if q < i as int {
                assert(store@.templates[q] == old_view.templates[q]);
            } else {
                assert(store@.templates[q] == old_view.templates[q + 1]);
            }
        }
        assert forall|k: int|
            0 <= k < store@.templates.len() implies store@.templates[k].id
            < store@.next_template_id by {
            if k < i as int {
                assert(store@.templates[k] == old_view.templates[k]);
            } else {
                assert(store@.templates[k] == old_view.templates[k + 1]);
            }
        }
    }
    Status::NoContent
}

/// A template under this parent can only sit at the index the id resolves to:
/// ids are unique.
pub proof fn template_in_is_at_index(s: StoreView, aid: int, tid: int, i: int)
    requires
        s.wf(),
        0 <= i < s.templates.len(),
        s.templates[i].id == tid,
        s.templates[i].application_id != aid,
    ensures
        !s.template_in(aid, tid),
{
    if s.template_in(aid, tid) {
        let k = choose|k: int|
            0 <= k < s.templates.len() && s.templates[k].id == tid && s.templates[k].application_id
                == aid;
        assert(k == i);
    }
}

/// A template id under a parent requires a row bearing the id.
pub proof fn template_in_needs_row(s: StoreView, aid: int, tid: int)
    requires
        !s.has_template(tid),
    ensures
        !s.template_in(aid, tid),
{
    if s.template_in(aid, tid) {
        let k = choose|k: int|
            0 <= k < s.templates.len() && s.templates[k].id == tid && s.templates[k].application_id
                == aid;
        assert(s.has_template(tid));
    }
}

} // verus!
