use vstd::prelude::*;

use crate::types::{ApplicationRow, ApplicationRowView, TemplateRow, TemplateRowView, User,
    UserView};

verus! {

/// A session: a short-lived bearer capability. Possession of a valid,
/// non-expired session id stands in for its owner's identity.
pub struct Session {
    pub id: String,
    pub user_id: i64,
    pub expires_at: i64,
}

/// Mathematical image of a session.
#[verifier::ext_equal]
pub struct SessionView {
    pub id: Seq<char>,
    pub user_id: int,
    pub expires_at: int,
}

impl View for Session {
    type V = SessionView;

    open spec fn view(&self) -> SessionView {
        SessionView {
            id: self.id@,
            user_id: self.user_id as int,
            expires_at: self.expires_at as int,
        }
    }
}

/// The backing store: every row the core reads or writes, together with the
/// counters that assign fresh row ids.
pub struct Store {
    pub sessions: Vec<Session>,
    pub users: Vec<User>,
    pub applications: Vec<ApplicationRow>,
    pub templates: Vec<TemplateRow>,
    pub next_application_id: i64,
    pub next_template_id: i64,
}

/// Mathematical image of the whole store.
#[verifier::ext_equal]
pub struct StoreView {
    pub sessions: Seq<SessionView>,
    pub users: Seq<UserView>,
    pub applications: Seq<ApplicationRowView>,
    pub templates: Seq<TemplateRowView>,
    pub next_application_id: int,
    pub next_template_id: int,
}

impl View for Store {
    type V = StoreView;

    open spec fn view(&self) -> StoreView {
        StoreView {
            sessions: self.sessions@.map_values(|s: Session| s@),
            users: self.users@.map_values(|u: User| u@),
            applications: self.applications@.map_values(|a: ApplicationRow| a@),
            templates: self.templates@.map_values(|t: TemplateRow| t@),
            next_application_id: self.next_application_id as int,
            next_template_id: self.next_template_id as int,
        }
    }
}

impl StoreView {
    /// Well-formedness: row ids are unique within each table, and every
    /// assigned id lies below the counter that will assign the next one.
    pub open spec fn wf(self) -> bool {
        &&& forall|i: int, j: int|
            0 <= i < j < self.sessions.len() ==> self.sessions[i].id != self.sessions[j].id
        &&& forall|i: int, j: int|
            0 <= i < j < self.users.len() ==> self.users[i].id != self.users[j].id
        &&& forall|i: int, j: int|
            0 <= i < j < self.applications.len()
                ==> self.applications[i].id != self.applications[j].id
        &&& forall|i: int, j: int|
            0 <= i < j < self.templates.len() ==> self.templates[i].id != self.templates[j].id
        &&& forall|i: int|
            0 <= i < self.applications.len() ==> self.applications[i].id < self.next_application_id
        &&& forall|i: int|
            0 <= i < self.templates.len() ==> self.templates[i].id < self.next_template_id
    }

    pub open spec fn has_session(self, sid: Seq<char>) -> bool {
        exists|i: int| 0 <= i < self.sessions.len() && self.sessions[i].id == sid
    }

    pub open spec fn session_index(self, sid: Seq<char>) -> int {
        choose|i: int| 0 <= i < self.sessions.len() && self.sessions[i].id == sid
    }

    pub open spec fn session_at(self, sid: Seq<char>) -> SessionView {
        self.sessions[self.session_index(sid)]
    }

    /// The store with the session of the given id removed; the store
    /// unchanged when no session bears it.
    pub open spec fn remove_session(self, sid: Seq<char>) -> StoreView {
        if self.has_session(sid) {
            StoreView { sessions: self.sessions.remove(self.session_index(sid)), ..self }
        } else {
            self
        }
    }

    pub open spec fn has_user(self, uid: int) -> bool {
        exists|i: int| 0 <= i < self.users.len() && self.users[i].id == uid
    }

    pub open spec fn user_index(self, uid: int) -> int {
        choose|i: int| 0 <= i < self.users.len() && self.users[i].id == uid
    }

    pub open spec fn user_at(self, uid: int) -> UserView {
        self.users[self.user_index(uid)]
    }

    /// The ownership predicate at the application level: an application with
    /// this id exists and belongs to this user.
    pub open spec fn owns_application(self, uid: int, aid: int) -> bool {
        exists|i: int|
            0 <= i < self.applications.len() && self.applications[i].id == aid
                && self.applications[i].user_id == uid
    }

    pub open spec fn has_application(self, aid: int) -> bool {
        exists|i: int| 0 <= i < self.applications.len() && self.applications[i].id == aid
    }

    pub open spec fn application_index(self, aid: int) -> int {
        choose|i: int| 0 <= i < self.applications.len() && self.applications[i].id == aid
    }

    pub open spec fn application_at(self, aid: int) -> ApplicationRowView {
        self.applications[self.application_index(aid)]
    }

    /// The scoping predicate at the template level: a template with this id
    /// exists under this parent application.
    pub open spec fn template_in(self, aid: int, tid: int) -> bool {
        exists|i: int|
            0 <= i < self.templates.len() && self.templates[i].id == tid
                && self.templates[i].application_id == aid
    }

    pub open spec fn has_template(self, tid: int) -> bool {
        exists|i: int| 0 <= i < self.templates.len() && self.templates[i].id == tid
    }

    pub open spec fn template_index(self, tid: int) -> int {
        choose|i: int| 0 <= i < self.templates.len() && self.templates[i].id == tid
    }

    pub open spec fn template_at(self, tid: int) -> TemplateRowView {
        self.templates[self.template_index(tid)]
    }
}

/// Removing a session preserves well-formedness: the surviving rows keep
/// their distinct ids, and no other table changes.
pub proof fn lemma_remove_session_wf(s: StoreView, sid: Seq<char>)
    requires
        s.wf(),
    ensures
        s.remove_session(sid).wf(),
{
    if s.has_session(sid) {
        let i = s.session_index(sid);
        let r = s.remove_session(sid);
        assert forall|p: int, q: int|
            0 <= p < q < r.sessions.len() implies r.sessions[p].id != r.sessions[q].id by {
            if p < i {
                assert(r.sessions[p] == s.sessions[p]);
            } else {
                assert(r.sessions[p] == s.sessions[p + 1]);
            }
            if q < i {
                assert(r.sessions[q] == s.sessions[q]);
            } else {
                assert(r.sessions[q] == s.sessions[q + 1]);
            }
        }
    }
}

impl Store {
    /// An empty store, assigning ids from 1 upward.
    pub fn new() -> (r: Store)
        ensures
            r@.wf(),
            r@.sessions.len() == 0,
            r@.users.len() == 0,
            r@.applications.len() == 0,
            r@.templates.len() == 0,
            r@.next_application_id == 1,
            r@.next_template_id == 1,
    {
        Store {
            sessions: Vec::new(),
            users: Vec::new(),
            applications: Vec::new(),
            templates: Vec::new(),
            next_application_id: 1,
            next_template_id: 1,
        }
    }

    /// Finds the position of the session bearing the given id.
    pub(crate) fn find_session(&self, sid: &String) -> (r: Option<usize>)
        requires
            self@.wf(),
        ensures
            match r {
                Some(i) => i < self.sessions.len() && self@.sessions[i as int].id == sid@
                    && self@.has_session(sid@) && self@.session_index(sid@) == i as int,
                None => !self@.has_session(sid@),
            },
    {
        let n = self.sessions.len();
        for i in 0..n
            invariant
                n == self.sessions.len(),
                self@.wf(),
                forall|k: int| 0 <= k < i ==> self@.sessions[k].id != sid@,
        {
            if self.sessions[i].id == *sid {
                proof {
                    assert(self@.sessions[i as int].id == sid@);
                    assert(self@.has_session(sid@));
                    let j = self@.session_index(sid@);
                    assert(0 <= j < self@.sessions.len() && self@.sessions[j].id == sid@);
                    assert(j == i as int);
                }
                return Some(i);
            }
        }
        None
    }

    /// Finds the position of the user with the given id.
    pub(crate) fn find_user(&self, uid: i64) -> (r: Option<usize>)
        requires
            self@.wf(),
        ensures
            match r {
                Some(i) => i < self.users.len() && self@.users[i as int].id == uid as int
                    && self@.has_user(uid as int) && self@.user_index(uid as int) == i as int,
                None => !self@.has_user(uid as int),
            },
    {
        let n = self.users.len();
        for i in 0..n
            invariant
                n == self.users.len(),
                self@.wf(),
                forall|k: int| 0 <= k < i ==> self@.users[k].id != uid as int,
        {
            if self.users[i].id == uid {
                proof {
                    assert(self@.users[i as int].id == uid as int);
                    assert(self@.has_user(uid as int));
                    let j = self@.user_index(uid as int);
                    assert(0 <= j < self@.users.len() && self@.users[j].id == uid as int);
                    assert(j == i as int);
                }
                return Some(i);
            }
        }
        None
    }

    /// Finds the position of the application with the given id, regardless of
    /// its owner.
    pub(crate) fn find_application(&self, aid: i64) -> (r: Option<usize>)
        requires
            self@.wf(),
        ensures
            match r {
                Some(i) => i < self.applications.len()
                    && self@.applications[i as int].id == aid as int
                    && self@.has_application(aid as int)
                    && self@.application_index(aid as int) == i as int,
                None => !self@.has_application(aid as int),
            },
    {
        let n = self.applications.len();
        for i in 0..n
            invariant
                n == self.applications.len(),
                self@.wf(),
                forall|k: int| 0 <= k < i ==> self@.applications[k].id != aid as int,
        {
            if self.applications[i].id == aid {
                proof {
                    assert(self@.applications[i as int].id == aid as int);
                    assert(self@.has_application(aid as int));
                    let j = self@.application_index(aid as int);
                    assert(0 <= j < self@.applications.len()
                        && self@.applications[j].id == aid as int);
                    assert(j == i as int);
                }
                return Some(i);
            }
        }
        None
    }

    /// Finds the position of the template with the given id, regardless of
    /// its parent.
    pub(crate) fn find_template(&self, tid: i64) -> (r: Option<usize>)
        requires
            self@.wf(),
        ensures
            match r {
                Some(i) => i < self.templates.len()
                    && self@.templates[i as int].id == tid as int
                    && self@.has_template(tid as int)
                    && self@.template_index(tid as int) == i as int,
                None => !self@.has_template(tid as int),
            },
    {
        let n = self.templates.len();
        for i in 0..n
            invariant
                n == self.templates.len(),
                self@.wf(),
                forall|k: int| 0 <= k < i ==> self@.templates[k].id != tid as int,
        {
            if self.templates[i].id == tid {
                proof {
                    assert(self@.templates[i as int].id == tid as int);
                    assert(self@.has_template(tid as int));
                    let j = self@.template_index(tid as int);
                    assert(0 <= j < self@.templates.len() && self@.templates[j].id == tid as int);
                    assert(j == i as int);
                }
                return Some(i);
            }
        }
        None
    }
}

} // verus!
