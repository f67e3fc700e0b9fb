//! The persistence gateway, modeled as an in-memory store.
//!
//! A relational engine would give each statement atomicity and assign
//! entity ids on insert; this module carries exactly that interface: one
//! operation per entity and verb, each a single atomic step on the store
//! value. Ids grow from 1; an insert whose referenced row is missing, or
//! for which no fresh id is left, is rejected the way such an engine
//! rejects a statement.

use vstd::prelude::*;

use crate::lookup::{find_index, lemma_find_index_at, lemma_find_index_properties};
use crate::models::{
    AppUser, AppUserView, NewAppUser, NewProject, NewTask, PatchProject, Project, ProjectView,
    Task, TaskView,
};

verus! {

/// The store rejected a statement: a referenced row is missing or no
/// fresh id is left.
#[derive(Clone, Copy, Debug, PartialEq, Eq, Structural)]
pub struct StoreError {}

/// All persisted rows, together with the id counters the store assigns from.
pub struct Store {
    pub users: Vec<AppUser>,
    pub projects: Vec<Project>,
    pub tasks: Vec<Task>,
    pub next_user_id: i32,
    pub next_project_id: i32,
    pub next_task_id: i32,
}

/// Mathematical image of a [`Store`].
#[verifier::ext_equal]
pub ghost struct StoreView {
    pub users: Seq<AppUserView>,
    pub projects: Seq<ProjectView>,
    pub tasks: Seq<TaskView>,
    pub next_user_id: int,
    pub next_project_id: int,
    pub next_task_id: int,
}

impl View for Store {
    type V = StoreView;

    open spec fn view(&self) -> StoreView {
        StoreView {
            users: self.users@.map_values(|u: AppUser| u@),
            projects: self.projects@.map_values(|p: Project| p@),
            tasks: self.tasks@.map_values(|t: Task| t@),
            next_user_id: self.next_user_id as int,
            next_project_id: self.next_project_id as int,
            next_task_id: self.next_task_id as int,
        }
    }
}

/// Predicate picking the user with the given id.
pub open spec fn user_has_id(uid: int) -> spec_fn(AppUserView) -> bool {
    |u: AppUserView| u.id == uid
}

/// Predicate picking the user with the given email.
pub open spec fn user_has_email(email: Seq<char>) -> spec_fn(AppUserView) -> bool {
    |u: AppUserView| u.email == email
}

/// Predicate picking the project with the given id.
pub open spec fn project_has_id(pid: int) -> spec_fn(ProjectView) -> bool {
    |p: ProjectView| p.id == pid
}

/// Predicate picking the task with the given id.
pub open spec fn task_has_id(tid: int) -> spec_fn(TaskView) -> bool {
    |t: TaskView| t.id == tid
}

/// The first user with the given id, if any.
pub open spec fn find_user_by_id(users: Seq<AppUserView>, uid: int) -> Option<AppUserView> {
    match find_index(users, user_has_id(uid)) {
        Some(i) => Some(users[i]),
        None => None,
    }
}

/// The first user with the given email, if any.
pub open spec fn find_user_by_email(users: Seq<AppUserView>, email: Seq<char>) -> Option<
    AppUserView,
> {
    match find_index(users, user_has_email(email)) {
        Some(i) => Some(users[i]),
        None => None,
    }
}

/// The first project with the given id, if any.
pub open spec fn find_project(projects: Seq<ProjectView>, pid: int) -> Option<ProjectView> {
    match find_index(projects, project_has_id(pid)) {
        Some(i) => Some(projects[i]),
        None => None,
    }
}

/// The first task with the given id, if any.
pub open spec fn find_task(tasks: Seq<TaskView>, tid: int) -> Option<TaskView> {
    match find_index(tasks, task_has_id(tid)) {
        Some(i) => Some(tasks[i]),
        None => None,
    }
}

impl StoreView {
    /// There is a user row with this id.
    pub open spec fn has_user(self, uid: int) -> bool {
        exists|i: int| 0 <= i < self.users.len() && #[trigger] self.users[i].id == uid
    }

    /// There is a project row with this id.
    pub open spec fn has_project(self, pid: int) -> bool {
        exists|i: int| 0 <= i < self.projects.len() && #[trigger] self.projects[i].id == pid
    }

    /// User rows: ids assigned below the counter, ids and emails unique.
    pub open spec fn users_wf(self) -> bool {
        &&& forall|i: int|
            0 <= i < self.users.len() ==> 1 <= #[trigger] self.users[i].id < self.next_user_id
        &&& forall|i: int, j: int|
            0 <= i < j < self.users.len() ==> #[trigger] self.users[i].id
                != #[trigger] self.users[j].id
        &&& forall|i: int, j: int|
            0 <= i < j < self.users.len() ==> #[trigger] self.users[i].email
                != #[trigger] self.users[j].email
    }

    /// Project rows: ids assigned below the counter and unique, and every
    /// project is owned by an existing user.
    pub open spec fn projects_wf(self) -> bool {
        &&& forall|i: int|
            0 <= i < self.projects.len() ==> 1 <= #[trigger] self.projects[i].id
                < self.next_project_id
        &&& forall|i: int, j: int|
            0 <= i < j < self.projects.len() ==> #[trigger] self.projects[i].id
                != #[trigger] self.projects[j].id
        &&& forall|i: int|
            0 <= i < self.projects.len() ==> self.has_user(#[trigger] self.projects[i].owner_id)
    }

    /// Task rows: ids assigned below the counter and unique.
    pub open spec fn tasks_wf(self) -> bool {
        &&& forall|i: int|
            0 <= i < self.tasks.len() ==> 1 <= #[trigger] self.tasks[i].id < self.next_task_id
        &&& forall|i: int, j: int|
            0 <= i < j < self.tasks.len() ==> #[trigger] self.tasks[i].id
                != #[trigger] self.tasks[j].id
    }

    /// Well-formedness of the whole store.
    pub open spec fn wf(self) -> bool {
        &&& 1 <= self.next_user_id <= i32::MAX
        &&& 1 <= self.next_project_id <= i32::MAX
        &&& 1 <= self.next_task_id <= i32::MAX
        &&& self.users_wf()
        &&& self.projects_wf()
        &&& self.tasks_wf()
    }
}

/// In a store with unique project ids, the project found for a member's id
/// is that member.
pub proof fn lemma_find_project_of_member(projects: Seq<ProjectView>, i: int)
    requires
        forall|a: int, b: int|
            0 <= a < b < projects.len() ==> #[trigger] projects[a].id != #[trigger] projects[b].id,
        0 <= i < projects.len(),
    ensures
        find_project(projects, projects[i].id) == Some(projects[i]),
{
    lemma_find_index_at(projects, project_has_id(projects[i].id), i);
}

/// In a store with unique task ids, the task found for a member's id is
/// that member.
pub proof fn lemma_find_task_of_member(tasks: Seq<TaskView>, i: int)
    requires
        forall|a: int, b: int|
            0 <= a < b < tasks.len() ==> #[trigger] tasks[a].id != #[trigger] tasks[b].id,
        0 <= i < tasks.len(),
    ensures
        find_task(tasks, tasks[i].id) == Some(tasks[i]),
{
    lemma_find_index_at(tasks, task_has_id(tasks[i].id), i);
}

/// A project id is found exactly when some row has it.
pub proof fn lemma_found_project_iff_member(projects: Seq<ProjectView>, pid: int)
    ensures
        (find_project(projects, pid) is Some) == (exists|i: int|
            0 <= i < projects.len() && #[trigger] projects[i].id == pid),
        find_project(projects, pid) matches Some(p) ==> p.id == pid,
{
    lemma_find_index_properties(projects, project_has_id(pid));
    match find_index(projects, project_has_id(pid)) {
        Some(i) => {
            assert(projects[i].id == pid);
        },
        None => {
            assert forall|i: int| 0 <= i < projects.len() implies #[trigger] projects[i].id
                != pid by {
                assert(!project_has_id(pid)(projects[i]));
            }
        },
    }
}

/// The same user rows witness the same user ids.
proof fn lemma_has_user_same_users(s0: StoreView, s1: StoreView, uid: int)
    requires
        s1.users == s0.users,
        s0.has_user(uid),
    ensures
        s1.has_user(uid),
{
    let k = choose|k: int| 0 <= k < s0.users.len() && #[trigger] s0.users[k].id == uid;
    assert(s1.users[k] == s0.users[k]);
    assert(s1.users[k].id == uid);
}

/// Appending a fresh user with an unused email keeps the store well formed.
proof fn lemma_wf_after_insert_user(s0: StoreView, s1: StoreView, u: AppUserView)
    requires
        s0.wf(),
        s0.next_user_id < i32::MAX,
        u.id == s0.next_user_id,
        forall|i: int| 0 <= i < s0.users.len() ==> #[trigger] s0.users[i].email != u.email,
        s1 == (StoreView { users: s0.users.push(u), next_user_id: s0.next_user_id + 1, ..s0 }),
    ensures
        s1.wf(),
{
    assert forall|i: int| 0 <= i < s1.users.len() implies 1 <= #[trigger] s1.users[i].id
        < s1.next_user_id by {
        if i < s0.users.len() {
            assert(s1.users[i] == s0.users[i]);
        }
    }
    assert forall|i: int, j: int| 0 <= i < j < s1.users.len() implies #[trigger] s1.users[i].id
        != #[trigger] s1.users[j].id by {
        assert(s1.users[i] == s0.users[i]);
        if j < s0.users.len() {
            assert(s1.users[j] == s0.users[j]);
        }
    }
    assert forall|i: int, j: int| 0 <= i < j < s1.users.len() implies #[trigger] s1.users[i].email
        != #[trigger] s1.users[j].email by {
        assert(s1.users[i] == s0.users[i]);
        if j < s0.users.len() {
            assert(s1.users[j] == s0.users[j]);
        }
    }
    assert forall|i: int| 0 <= i < s1.projects.len() implies s1.has_user(
        #[trigger] s1.projects[i].owner_id,
    ) by {
        assert(s0.has_user(s0.projects[i].owner_id));
        let k = choose|k: int| 0 <= k < s0.users.len() && #[trigger] s0.users[k].id
            == s0.projects[i].owner_id;
        assert(s1.users[k] == s0.users[k]);
        assert(s1.users[k].id == s1.projects[i].owner_id);
    }
}

/// Appending a fresh project owned by an existing user keeps the store
/// well formed.
proof fn lemma_wf_after_insert_project(s0: StoreView, s1: StoreView, p: ProjectView)
    requires
        s0.wf(),
        s0.next_project_id < i32::MAX,
        p.id == s0.next_project_id,
        s0.has_user(p.owner_id),
        s1 == (StoreView {
            projects: s0.projects.push(p),
            next_project_id: s0.next_project_id + 1,
            ..s0
        }),
    ensures
        s1.wf(),
{
    assert forall|i: int| 0 <= i < s1.projects.len() implies 1 <= #[trigger] s1.projects[i].id
        < s1.next_project_id by {
        if i < s0.projects.len() {
            assert(s1.projects[i] == s0.projects[i]);
        }
    }
    assert forall|i: int, j: int|
        0 <= i < j < s1.projects.len() implies #[trigger] s1.projects[i].id
        != #[trigger] s1.projects[j].id by {
        assert(s1.projects[i] == s0.projects[i]);
        if j < s0.projects.len() {
            assert(s1.projects[j] == s0.projects[j]);
        }
    }
    assert forall|i: int| 0 <= i < s1.projects.len() implies s1.has_user(
        #[trigger] s1.projects[i].owner_id,
    ) by {
        let oid = s1.projects[i].owner_id;
        if i < s0.projects.len() {
            assert(s1.projects[i] == s0.projects[i]);
            assert(s0.has_user(oid));
        } else {
            assert(s1.projects[i] == p);
            assert(s0.has_user(oid));
        }
        let k = choose|k: int| 0 <= k < s0.users.len() && #[trigger] s0.users[k].id == oid;
        assert(s1.users[k].id == oid);
    }
}

/// Appending a fresh task keeps the store well formed.
proof fn lemma_wf_after_insert_task(s0: StoreView, s1: StoreView, t: TaskView)
    requires
        s0.wf(),
        s0.next_task_id < i32::MAX,
        t.id == s0.next_task_id,
        s1 == (StoreView { tasks: s0.tasks.push(t), next_task_id: s0.next_task_id + 1, ..s0 }),
    ensures
        s1.wf(),
{
    assert forall|i: int| 0 <= i < s1.tasks.len() implies 1 <= #[trigger] s1.tasks[i].id
        < s1.next_task_id by {
        if i < s0.tasks.len() {
            assert(s1.tasks[i] == s0.tasks[i]);
        }
    }
    assert forall|i: int, j: int| 0 <= i < j < s1.tasks.len() implies #[trigger] s1.tasks[i].id
        != #[trigger] s1.tasks[j].id by {
        assert(s1.tasks[i] == s0.tasks[i]);
        if j < s0.tasks.len() {
            assert(s1.tasks[j] == s0.tasks[j]);
        }
    }
    assert forall|i: int| 0 <= i < s1.projects.len() implies s1.has_user(
        #[trigger] s1.projects[i].owner_id,
    ) by {
        assert(s0.has_user(s0.projects[i].owner_id));
        lemma_has_user_same_users(s0, s1, s1.projects[i].owner_id);
    }
}

/// Removing a project row keeps the store well formed.
proof fn lemma_wf_after_remove_project(s0: StoreView, s1: StoreView, at: int)
    requires
        s0.wf(),
        0 <= at < s0.projects.len(),
        s1 == (StoreView { projects: s0.projects.remove(at), ..s0 }),
    ensures
        s1.wf(),
{
    assert forall|i: int| 0 <= i < s1.projects.len() implies 1 <= #[trigger] s1.projects[i].id
        < s1.next_project_id by {
        let i0: int = if i < at {
            i
        } else {
            i + 1
        };
        assert(s1.projects[i] == s0.projects[i0]);
    }
    assert forall|i: int| 0 <= i < s1.projects.len() implies s1.has_user(
        #[trigger] s1.projects[i].owner_id,
    ) by {
        let i0: int = if i < at {
            i
        } else {
            i + 1
        };
        assert(s1.projects[i] == s0.projects[i0]);
        assert(s0.has_user(s0.projects[i0].owner_id));
        lemma_has_user_same_users(s0, s1, s1.projects[i].owner_id);
    }
    assert forall|i: int, j: int|
        0 <= i < j < s1.projects.len() implies #[trigger] s1.projects[i].id
        != #[trigger] s1.projects[j].id by {
        let i0: int = if i < at {
            i
        } else {
            i + 1
        };
        let j0: int = if j < at {
            j
        } else {
            j + 1
        };
        assert(s1.projects[i] == s0.projects[i0]);
        assert(s1.projects[j] == s0.projects[j0]);
    }
}

/// Removing a task row keeps the store well formed.
proof fn lemma_wf_after_remove_task(s0: StoreView, s1: StoreView, at: int)
    requires
        s0.wf(),
        0 <= at < s0.tasks.len(),
        s1 == (StoreView { tasks: s0.tasks.remove(at), ..s0 }),
    ensures
        s1.wf(),
{
    assert forall|i: int| 0 <= i < s1.tasks.len() implies 1 <= #[trigger] s1.tasks[i].id
        < s1.next_task_id by {
        let i0: int = if i < at {
            i
        } else {
            i + 1
        };
        assert(s1.tasks[i] == s0.tasks[i0]);
    }
    assert forall|i: int, j: int| 0 <= i < j < s1.tasks.len() implies #[trigger] s1.tasks[i].id
        != #[trigger] s1.tasks[j].id by {
        let i0: int = if i < at {
            i
        } else {
            i + 1
        };
        let j0: int = if j < at {
            j
        } else {
            j + 1
        };
        assert(s1.tasks[i] == s0.tasks[i0]);
        assert(s1.tasks[j] == s0.tasks[j0]);
    }
    assert forall|i: int| 0 <= i < s1.projects.len() implies s1.has_user(
        #[trigger] s1.projects[i].owner_id,
    ) by {
        assert(s1.projects[i] == s0.projects[i]);
        assert(s0.has_user(s0.projects[i].owner_id));
        lemma_has_user_same_users(s0, s1, s1.projects[i].owner_id);
    }
}

/// Patching titles keeps the store well formed: ids and owners are
/// untouched.
proof fn lemma_wf_after_patch(s0: StoreView, s1: StoreView, pid: int, title: Seq<char>)
    requires
        s0.wf(),
        s1 == (StoreView { projects: patch_projects(s0.projects, pid, title), ..s0 }),
    ensures
        s1.wf(),
{
    assert forall|i: int| 0 <= i < s1.projects.len() implies 1 <= #[trigger] s1.projects[i].id
        < s1.next_project_id by {
        assert(s1.projects[i].id == s0.projects[i].id);
    }
    assert forall|i: int| 0 <= i < s1.projects.len() implies s1.has_user(
        #[trigger] s1.projects[i].owner_id,
    ) by {
        assert(s1.projects[i].owner_id == s0.projects[i].owner_id);
        assert(s0.has_user(s0.projects[i].owner_id));
        lemma_has_user_same_users(s0, s1, s1.projects[i].owner_id);
    }
    assert forall|i: int, j: int|
        0 <= i < j < s1.projects.len() implies #[trigger] s1.projects[i].id
        != #[trigger] s1.projects[j].id by {
        assert(s1.projects[i].id == s0.projects[i].id);
        assert(s1.projects[j].id == s0.projects[j].id);
    }
}

impl Project {
    /// Look a project up by id; `None` when no row has that id.
    pub fn by_id(store: &Store, project_id: i32) -> (r: Option<Project>)
        ensures
            match r {
                Some(p) => find_project(store@.projects, project_id as int) == Some(p@),
                None => find_project(store@.projects, project_id as int) is None,
            },
    {
        let mut i: usize = 0;
        while i < store.projects.len()
            invariant
                0 <= i <= store.projects.len(),
                forall|j: int| 0 <= j < i ==> !project_has_id(project_id as int)(#[trigger] store@.projects[j]),
            decreases store.projects.len() - i,
        {
            proof {
                assert(store@.projects[i as int] == store.projects@[i as int]@);
            }
            if store.projects[i].id == project_id {
                proof {
                    lemma_find_index_at(store@.projects, project_has_id(project_id as int), i as int);
                }
                return Some(store.projects[i].clone());
            }
            i += 1;
        }
        proof {
            lemma_find_index_properties(store@.projects, project_has_id(project_id as int));
        }
        None
    }
}

impl Task {
    /// Look a task up by id; `None` when no row has that id.
    pub fn by_id(store: &Store, task_id: i32) -> (r: Option<Task>)
        ensures
            match r {
                Some(t) => find_task(store@.tasks, task_id as int) == Some(t@),
                None => find_task(store@.tasks, task_id as int) is None,
            },
    {
        let mut i: usize = 0;
        while i < store.tasks.len()
            invariant
                0 <= i <= store.tasks.len(),
                forall|j: int| 0 <= j < i ==> !task_has_id(task_id as int)(#[trigger] store@.tasks[j]),
            decreases store.tasks.len() - i,
        {
            if store.tasks[i].id == task_id {
                proof {
                    lemma_find_index_at(store@.tasks, task_has_id(task_id as int), i as int);
                }
                return Some(store.tasks[i].clone());
            }
            i += 1;
        }
        proof {
            lemma_find_index_properties(store@.tasks, task_has_id(task_id as int));
        }
        None
    }
}

impl AppUser {
    /// Look a user up by email; `None` when no row has that email.
    pub fn by_email(store: &Store, user_email: &String) -> (r: Option<AppUser>)
        ensures
            match r {
                Some(u) => find_user_by_email(store@.users, user_email@) == Some(u@),
                None => find_user_by_email(store@.users, user_email@) is None,
            },
    {
        let mut i: usize = 0;
        while i < store.users.len()
            invariant
                0 <= i <= store.users.len(),
                forall|j: int| 0 <= j < i ==> !user_has_email(user_email@)(#[trigger] store@.users[j]),
            decreases store.users.len() - i,
        {
            if store.users[i].email == *user_email {
                proof {
                    lemma_find_index_at(store@.users, user_has_email(user_email@), i as int);
                }
                return Some(store.users[i].clone());
            }
            i += 1;
        }
        proof {
            lemma_find_index_properties(store@.users, user_has_email(user_email@));
        }
        None
    }
}

impl Store {
    /// An empty store; the first id the store assigns is 1.
    pub fn new() -> (r: Store)
        ensures
            r@.wf(),
            r@.users.len() == 0,
            r@.projects.len() == 0,
            r@.tasks.len() == 0,
            r@.next_user_id == 1,
            r@.next_project_id == 1,
            r@.next_task_id == 1,
    {
        Store {
            users: Vec::new(),
            projects: Vec::new(),
            tasks: Vec::new(),
            next_user_id: 1,
            next_project_id: 1,
            next_task_id: 1,
        }
    }

    /// Whether a user row with this id exists.
    pub fn contains_user(&self, user_id: i32) -> (r: bool)
        ensures
            r == self@.has_user(user_id as int),
    {
        let mut i: usize = 0;
        while i < self.users.len()
            invariant
                0 <= i <= self.users.len(),
                forall|j: int| 0 <= j < i ==> #[trigger] self@.users[j].id != user_id as int,
            decreases self.users.len() - i,
        {
            if self.users[i].id == user_id {
                assert(self@.users[i as int].id == user_id as int);
                return true;
            }
            i += 1;
        }
        false
    }

    /// Whether a project row with this id exists.
    pub fn contains_project(&self, project_id: i32) -> (r: bool)
        ensures
            r == self@.has_project(project_id as int),
    {
        let mut i: usize = 0;
        while i < self.projects.len()
            invariant
                0 <= i <= self.projects.len(),
                forall|j: int| 0 <= j < i ==> #[trigger] self@.projects[j].id != project_id as int,
            decreases self.projects.len() - i,
        {
            if self.projects[i].id == project_id {
                assert(self@.projects[i as int].id == project_id as int);
                return true;
            }
            i += 1;
        }
        false
    }

    /// Insert a user row; the store assigns the id. Rejected when the email
    /// is already taken or no fresh id is left.
    pub fn insert_user(&mut self, new_user: NewAppUser) -> (r: Result<AppUser, StoreError>)
        requires
            old(self)@.wf(),
        ensures
            final(self)@.wf(),
            ({
                let s0 = old(self)@;
                if find_user_by_email(s0.users, new_user.email@) is Some || s0.next_user_id
                    == i32::MAX {
                    r is Err && final(self)@ == s0
                } else {
                    r matches Ok(u) && u@ == (AppUserView {
                        id: s0.next_user_id,
                        email: new_user.email@,
                    }) && final(self)@ == (StoreView {
                        users: s0.users.push(u@),
                        next_user_id: s0.next_user_id + 1,
                        ..s0
                    })
                }
            }),
    {
        if AppUser::by_email(self, &new_user.email).is_some() {
            return Err(StoreError {});
        }
        if self.next_user_id == i32::MAX {
            return Err(StoreError {});
        }
        let user = AppUser { id: self.next_user_id, email: new_user.email };
        let stored = user.clone();
        proof {
            lemma_find_index_properties(old(self)@.users, user_has_email(user@.email));
        }
        self.users.push(stored);
        self.next_user_id = self.next_user_id + 1;
        proof {
            assert(self@.users =~= old(self)@.users.push(user@));
            assert(self@ =~= (StoreView {
                users: old(self)@.users.push(user@),
                next_user_id: old(self)@.next_user_id + 1,
                ..old(self)@
            }));
            assert forall|i: int| 0 <= i < old(self)@.users.len() implies #[trigger] old(
                self,
            )@.users[i].email != user@.email by {
                assert(!user_has_email(user@.email)(old(self)@.users[i]));
            }
            lemma_wf_after_insert_user(old(self)@, self@, user@);
        }
        Ok(user)
    }

    /// Insert a project row; the store assigns the id and starts the
    /// priority at 0. Rejected when the owner does not exist or no fresh
    /// id is left.
    pub fn insert_project(&mut self, new_project: NewProject) -> (r: Result<Project, StoreError>)
        requires
            old(self)@.wf(),
        ensures
            final(self)@.wf(),
            ({
                let s0 = old(self)@;
                if !s0.has_user(new_project.owner_id as int) || s0.next_project_id == i32::MAX {
                    r is Err && final(self)@ == s0
                } else {
                    r matches Ok(p) && p@ == (ProjectView {
                        id: s0.next_project_id,
                        owner_id: new_project.owner_id as int,
                        title: new_project.title@,
                        priority: 0,
                    }) && final(self)@ == (StoreView {
                        projects: s0.projects.push(p@),
                        next_project_id: s0.next_project_id + 1,
                        ..s0
                    })
                }
            }),
    {
        if !self.contains_user(new_project.owner_id) {
            return Err(StoreError {});
        }
        if self.next_project_id == i32::MAX {
            return Err(StoreError {});
        }
        let project = Project {
            id: self.next_project_id,
            owner_id: new_project.owner_id,
            title: new_project.title,
            priority: 0,
        };
        let stored = project.clone();
        self.projects.push(stored);
        self.next_project_id = self.next_project_id + 1;
        proof {
            assert(self@.projects =~= old(self)@.projects.push(project@));
            assert(self@ =~= (StoreView {
                projects: old(self)@.projects.push(project@),
                next_project_id: old(self)@.next_project_id + 1,
                ..old(self)@
            }));
            lemma_wf_after_insert_project(old(self)@, self@, project@);
        }
        Ok(project)
    }

    /// Insert a task row; the store assigns the id and starts the task
    /// uncompleted. Rejected when the referenced project does not exist
    /// or no fresh id is left.
    pub fn insert_task(&mut self, new_task: NewTask) -> (r: Result<Task, StoreError>)
        requires
            old(self)@.wf(),
        ensures
            final(self)@.wf(),
            ({
                let s0 = old(self)@;
                if !s0.has_project(new_task.project_id as int) || s0.next_task_id == i32::MAX {
                    r is Err && final(self)@ == s0
                } else {
                    r matches Ok(t) && t@ == (TaskView {
                        id: s0.next_task_id,
                        project_id: new_task.project_id as int,
                        task_list_id: match new_task.task_list_id {
                            Some(l) => Some(l as int),
                            None => None,
                        },
                        title: new_task.title@,
                        completed: false,
                    }) && final(self)@ == (StoreView {
                        tasks: s0.tasks.push(t@),
                        next_task_id: s0.next_task_id + 1,
                        ..s0
                    })
                }
            }),
    {
        if !self.contains_project(new_task.project_id) {
            return Err(StoreError {});
        }
        if self.next_task_id == i32::MAX {
            return Err(StoreError {});
        }
        let task = Task {
            id: self.next_task_id,
            project_id: new_task.project_id,
            task_list_id: new_task.task_list_id,
            title: new_task.title,
            completed: false,
        };
        let stored = task.clone();
        self.tasks.push(stored);
        self.next_task_id = self.next_task_id + 1;
        proof {
            assert(self@.tasks =~= old(self)@.tasks.push(task@));
            assert(self@ =~= (StoreView {
                tasks: old(self)@.tasks.push(task@),
                next_task_id: old(self)@.next_task_id + 1,
                ..old(self)@
            }));
            lemma_wf_after_insert_task(old(self)@, self@, task@);
        }
        Ok(task)
    }

    /// Delete the project row with this id, returning the deleted row,
    /// or `None` when no row has the id. Task rows are left as they are.
    pub fn delete_project(&mut self, project_id: i32) -> (r: Option<Project>)
        requires
            old(self)@.wf(),
        ensures
            final(self)@.wf(),
            ({
                let s0 = old(self)@;
                match find_index(s0.projects, project_has_id(project_id as int)) {
                    Some(i) => r matches Some(p) && p@ == s0.projects[i] && final(self)@
                        == (StoreView { projects: s0.projects.remove(i), ..s0 }),
                    None => r is None && final(self)@ == s0,
                }
            }),
    {
        let mut i: usize = 0;
        while i < self.projects.len()
            invariant
                *self == *old(self),
                old(self)@.wf(),
                0 <= i <= self.projects.len(),
                forall|j: int|
                    0 <= j < i ==> !project_has_id(project_id as int)(
                        #[trigger] self@.projects[j],
                    ),
            decreases self.projects.len() - i,
        {
            if self.projects[i].id == project_id {
                proof {
                    assert(self@.projects[i as int] == self.projects@[i as int]@);
                    lemma_find_index_at(self@.projects, project_has_id(project_id as int), i as int);
                }
                let removed = self.projects.remove(i);
                proof {
                    assert(self@.projects =~= old(self)@.projects.remove(i as int));
                    assert(self@ =~= (StoreView {
                        projects: old(self)@.projects.remove(i as int),
                        ..old(self)@
                    }));
                    lemma_wf_after_remove_project(old(self)@, self@, i as int);
                }
                return Some(removed);
            }
            i += 1;
        }
        proof {
            lemma_find_index_properties(self@.projects, project_has_id(project_id as int));
        }
        None
    }

    /// Delete the task row with this id, returning the deleted row, or
    /// `None` when no row has the id.
    pub fn delete_task(&mut self, task_id: i32) -> (r: Option<Task>)
        requires
            old(self)@.wf(),
        ensures
            final(self)@.wf(),
            ({
                let s0 = old(self)@;
                match find_index(s0.tasks, task_has_id(task_id as int)) {
                    Some(i) => r matches Some(t) && t@ == s0.tasks[i] && final(self)@
                        == (StoreView { tasks: s0.tasks.remove(i), ..s0 }),
                    None => r is None && final(self)@ == s0,
                }
            }),
    {
        let mut i: usize = 0;
        while i < self.tasks.len()
            invariant
                *self == *old(self),
                old(self)@.wf(),
                0 <= i <= self.tasks.len(),
                forall|j: int|
                    0 <= j < i ==> !task_has_id(task_id as int)(#[trigger] self@.tasks[j]),
            decreases self.tasks.len() - i,
        {
            if self.tasks[i].id == task_id {
                proof {
                    assert(self@.tasks[i as int] == self.tasks@[i as int]@);
                    lemma_find_index_at(self@.tasks, task_has_id(task_id as int), i as int);
                }
                let removed = self.tasks.remove(i);
                proof {
                    assert(self@.tasks =~= old(self)@.tasks.remove(i as int));
                    assert(self@ =~= (StoreView {
                        tasks: old(self)@.tasks.remove(i as int),
                        ..old(self)@
                    }));
                    lemma_wf_after_remove_task(old(self)@, self@, i as int);
                }
                return Some(removed);
            }
            i += 1;
        }
        proof {
            lemma_find_index_properties(self@.tasks, task_has_id(task_id as int));
        }
        None
    }

    /// Apply a partial update: every project row whose id matches takes
    /// the patch's title; everything else is untouched.
    pub fn patch_project(&mut self, change: &PatchProject)
        requires
            old(self)@.wf(),
        ensures
            final(self)@.wf(),
            final(self)@ == (StoreView {
                projects: patch_projects(
                    old(self)@.projects,
                    change.id as int,
                    change.title@,
                ),
                ..old(self)@
            }),
    {
        let ghost target = patch_projects(old(self)@.projects, change.id as int, change.title@);
        let mut patched: Vec<Project> = Vec::new();
        let mut i: usize = 0;
        while i < self.projects.len()
            invariant
                *self == *old(self),
                old(self)@.wf(),
                target == patch_projects(old(self)@.projects, change.id as int, change.title@),
                0 <= i <= self.projects.len(),
                patched@.len() == i,
                forall|j: int| 0 <= j < i ==> #[trigger] patched@[j]@ == target[j],
            decreases self.projects.len() - i,
        {
            let p = &self.projects[i];
            if p.id == change.id {
                patched.push(
                    Project {
                        id: p.id,
                        owner_id: p.owner_id,
                        title: change.title.clone(),
                        priority: p.priority,
                    },
                );
            } else {
                patched.push(p.clone());
            }
            i += 1;
        }
        self.projects = patched;
        proof {
            assert(self@.projects =~= target);
            assert(self@ =~= (StoreView { projects: target, ..old(self)@ }));
            lemma_wf_after_patch(old(self)@, self@, change.id as int, change.title@);
        }
    }
}

/// The project rows after a patch: the matching row takes the new title,
/// every other row is kept.
pub open spec fn patch_projects(projects: Seq<ProjectView>, pid: int, title: Seq<char>) -> Seq<
    ProjectView,
> {
    projects.map_values(
        |p: ProjectView|
            if p.id == pid {
                (ProjectView { title, ..p })
            } else {
                p
            },
    )
}

} // verus!
