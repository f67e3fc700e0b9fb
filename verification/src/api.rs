//! The decision core of every HTTP endpoint.
//!
//! Each handler takes the request's payload as plain values, the store,
//! and the caller's session identity, and returns either the row the
//! endpoint reports or the error the transport turns into HTTP 400.
//! Two rules hold throughout: a caller identity is resolved before any
//! resource is touched, and every single-resource mutation re-checks
//! ownership of that exact id immediately before acting.

use vstd::prelude::*;

use crate::config::AuthMode;
use crate::lookup::find_index;
use crate::models::{
    project_views, task_views, AppUser, NewProject, NewTask, PatchProject, Project, ProjectView,
    Task, TaskView,
};
use crate::store::{
    find_project, find_task, find_user_by_email, lemma_found_project_iff_member, patch_projects,
    project_has_id, task_has_id, Store, StoreView,
};

verus! {

/// A request's session identity: the email the login flow stored in the
/// session cookie.
pub struct Identity {
    pub email: String,
}

impl View for Identity {
    type V = Seq<char>;

    open spec fn view(&self) -> Seq<char> {
        self.email@
    }
}

impl Clone for Identity {
    fn clone(&self) -> (r: Self)
        ensures
            r@ == self@,
    {
        Identity { email: self.email.clone() }
    }
}

/// Why a request failed. Every kind collapses to HTTP 400 on the wire;
/// a missing resource is reported as `AuthorizationDenied`, exactly as
/// a resource the caller does not own.
#[derive(Clone, Copy, Debug, PartialEq, Eq, Structural)]
pub enum ApiError {
    /// No session identity, or one naming no stored user.
    AuthenticationUnresolved,
    /// The caller resolved but does not own the resource, or the
    /// resource does not exist.
    AuthorizationDenied,
    /// The store rejected the statement.
    StoreFailure,
}

impl ApiError {
    /// The status every failure is reported with.
    pub fn status_code(&self) -> (r: u16)
        ensures
            r == 400,
    {
        400
    }
}

/// The kind of resource an authorization question is about.
#[derive(Clone, Copy, Debug, PartialEq, Eq, Structural)]
pub enum ResourceKind {
    Project,
    Task,
}

/// The email carried by a session identity, if one is present.
pub open spec fn ident_view(ident: Option<Identity>) -> Option<Seq<char>> {
    match ident {
        Some(i) => Some(i@),
        None => None,
    }
}

/// The user id a caller resolves to, if any: the fixed id in test mode,
/// else the id of the stored user whose email the session names.
pub open spec fn spec_user_id(s: StoreView, mode: AuthMode, ident: Option<Seq<char>>) -> Option<
    int,
> {
    match mode {
        AuthMode::FixedUser { user_id } => Some(user_id as int),
        AuthMode::Sessions => match ident {
            Some(email) => match find_user_by_email(s.users, email) {
                Some(u) => Some(u.id),
                None => None,
            },
            None => None,
        },
    }
}

/// A user owns a project exactly when the project exists and names the
/// user as its owner. A missing project authorizes nobody.
pub open spec fn spec_project_owned(s: StoreView, uid: int, pid: int) -> bool {
    match find_project(s.projects, pid) {
        Some(p) => p.owner_id == uid,
        None => false,
    }
}

/// Authorization for a task is its parent project's, resolved through
/// the task's `project_id`. A missing task authorizes nobody.
pub open spec fn spec_task_authorized(s: StoreView, uid: int, tid: int) -> bool {
    match find_task(s.tasks, tid) {
        Some(t) => spec_project_owned(s, uid, t.project_id),
        None => false,
    }
}

/// The full authorization rule over a resolved caller.
pub open spec fn spec_authorize(s: StoreView, uid: int, kind: ResourceKind, rid: int) -> bool {
    match kind {
        ResourceKind::Project => spec_project_owned(s, uid, rid),
        ResourceKind::Task => spec_task_authorized(s, uid, rid),
    }
}

/// Resolution and project ownership combined; false when the caller does
/// not resolve.
pub open spec fn spec_check_project_owner(
    s: StoreView,
    mode: AuthMode,
    ident: Option<Seq<char>>,
    pid: int,
) -> bool {
    match spec_user_id(s, mode, ident) {
        Some(uid) => spec_project_owned(s, uid, pid),
        None => false,
    }
}

/// Resolution and task ownership combined; false when the caller does
/// not resolve.
pub open spec fn spec_check_task_owner(
    s: StoreView,
    mode: AuthMode,
    ident: Option<Seq<char>>,
    tid: int,
) -> bool {
    match spec_user_id(s, mode, ident) {
        Some(uid) => spec_task_authorized(s, uid, tid),
        None => false,
    }
}

/// Resolve the caller to a user id, failing closed: no identity, or an
/// email naming no stored user, resolves to nothing.
pub fn user_id_from_identity(
    store: &Store,
    mode: &AuthMode,
    req_identity: &Option<Identity>,
) -> (r: Result<i32, ApiError>)
    ensures
        match r {
            Ok(uid) => spec_user_id(store@, *mode, ident_view(*req_identity)) == Some(uid as int),
            Err(e) => spec_user_id(store@, *mode, ident_view(*req_identity)) is None && e
                == ApiError::AuthenticationUnresolved,
        },
{
    match mode {
        AuthMode::FixedUser { user_id } => Ok(*user_id),
        AuthMode::Sessions => match req_identity {
            None => Err(ApiError::AuthenticationUnresolved),
            Some(ident) => match AppUser::by_email(store, &ident.email) {
                Some(u) => Ok(u.id),
                None => Err(ApiError::AuthenticationUnresolved),
            },
        },
    }
}

/// Decide whether a resolved caller may act on a resource, re-reading
/// current state: the project is fetched by id, a task delegates to its
/// parent project.
pub fn authorize(store: &Store, user_id: i32, kind: ResourceKind, resource_id: i32) -> (r: bool)
    ensures
        r == spec_authorize(store@, user_id as int, kind, resource_id as int),
{
    match kind {
        ResourceKind::Project => match Project::by_id(store, resource_id) {
            Some(p) => p.owner_id == user_id,
            None => false,
        },
        ResourceKind::Task => match Task::by_id(store, resource_id) {
            Some(t) => match Project::by_id(store, t.project_id) {
                Some(p) => p.owner_id == user_id,
                None => false,
            },
            None => false,
        },
    }
}

/// Whether the caller resolves and owns the project with this id.
pub fn check_project_owner(
    store: &Store,
    mode: &AuthMode,
    req_identity: &Option<Identity>,
    pid: i32,
) -> (r: bool)
    ensures
        r == spec_check_project_owner(store@, *mode, ident_view(*req_identity), pid as int),
{
    match user_id_from_identity(store, mode, req_identity) {
        Ok(uid) => authorize(store, uid, ResourceKind::Project, pid),
        Err(_) => false,
    }
}

/// Whether the caller resolves and owns the parent project of the task
/// with this id.
pub fn check_task_owner(
    store: &Store,
    mode: &AuthMode,
    req_identity: &Option<Identity>,
    tid: i32,
) -> (r: bool)
    ensures
        r == spec_check_task_owner(store@, *mode, ident_view(*req_identity), tid as int),
{
    match user_id_from_identity(store, mode, req_identity) {
        Ok(uid) => authorize(store, uid, ResourceKind::Task, tid),
        Err(_) => false,
    }
}

/// The projects a user owns, in storage order.
pub open spec fn owned_projects(projects: Seq<ProjectView>, uid: int) -> Seq<ProjectView>
    decreases projects.len(),
{
    if projects.len() == 0 {
        Seq::empty()
    } else if projects.last().owner_id == uid {
        owned_projects(projects.drop_last(), uid).push(projects.last())
    } else {
        owned_projects(projects.drop_last(), uid)
    }
}

/// The tasks under a project, in storage order.
pub open spec fn project_tasks(tasks: Seq<TaskView>, pid: int) -> Seq<TaskView>
    decreases tasks.len(),
{
    if tasks.len() == 0 {
        Seq::empty()
    } else if tasks.last().project_id == pid {
        project_tasks(tasks.drop_last(), pid).push(tasks.last())
    } else {
        project_tasks(tasks.drop_last(), pid)
    }
}

/// Create a task under a project the caller owns. The store assigns the
/// id and the task starts uncompleted.
pub fn create_task(
    task_item: NewTask,
    store: &mut Store,
    mode: &AuthMode,
    req_identity: &Option<Identity>,
) -> (r: Result<Task, ApiError>)
    requires
        old(store)@.wf(),
    ensures
        final(store)@.wf(),
        ({
            let s0 = old(store)@;
            let uid_o = spec_user_id(s0, *mode, ident_view(*req_identity));
            let pid = task_item.project_id as int;
            match r {
                Ok(t) => {
                    &&& uid_o matches Some(uid) && spec_project_owned(s0, uid, pid)
                    &&& s0.next_task_id < i32::MAX
                    &&& t@ == (TaskView {
                        id: s0.next_task_id,
                        project_id: pid,
                        task_list_id: match task_item.task_list_id {
                            Some(l) => Some(l as int),
                            None => None,
                        },
                        title: task_item.title@,
                        completed: false,
                    })
                    &&& final(store)@ == (StoreView {
                        tasks: s0.tasks.push(t@),
                        next_task_id: s0.next_task_id + 1,
                        ..s0
                    })
                },
                Err(e) => {
                    &&& final(store)@ == s0
                    &&& match e {
                        ApiError::AuthenticationUnresolved => uid_o is None,
                        ApiError::AuthorizationDenied => uid_o matches Some(uid)
                            && !spec_project_owned(s0, uid, pid),
                        ApiError::StoreFailure => uid_o matches Some(uid) && spec_project_owned(
                            s0,
                            uid,
                            pid,
                        ) && s0.next_task_id == i32::MAX,
                    }
                },
            }
        }),
{
    let uid = match user_id_from_identity(store, mode, req_identity) {
        Ok(u) => u,
        Err(e) => {
            return Err(e);
        },
    };
    if !authorize(store, uid, ResourceKind::Project, task_item.project_id) {
        return Err(ApiError::AuthorizationDenied);
    }
    proof {
        lemma_found_project_iff_member(store@.projects, task_item.project_id as int);
    }
    match store.insert_task(task_item) {
        Ok(t) => Ok(t),
        Err(_) => Err(ApiError::StoreFailure),
    }
}

/// Create a project for the caller. Whatever owner the client supplied
/// in the payload is ignored: the caller's resolved id becomes the
/// owner, and the priority starts at 0.
pub fn create_project(
    project_item: NewProject,
    store: &mut Store,
    mode: &AuthMode,
    req_identity: &Option<Identity>,
) -> (r: Result<Project, ApiError>)
    requires
        old(store)@.wf(),
    ensures
        final(store)@.wf(),
        ({
            let s0 = old(store)@;
            let uid_o = spec_user_id(s0, *mode, ident_view(*req_identity));
            match r {
                Ok(p) => {
                    &&& uid_o matches Some(uid) && s0.has_user(uid) && p@ == (ProjectView {
                        id: s0.next_project_id,
                        owner_id: uid,
                        title: project_item.title@,
                        priority: 0,
                    })
                    &&& s0.next_project_id < i32::MAX
                    &&& final(store)@ == (StoreView {
                        projects: s0.projects.push(p@),
                        next_project_id: s0.next_project_id + 1,
                        ..s0
                    })
                },
                Err(e) => {
                    &&& final(store)@ == s0
                    &&& match e {
                        ApiError::AuthenticationUnresolved => uid_o is None,
                        ApiError::AuthorizationDenied => false,
                        ApiError::StoreFailure => uid_o matches Some(uid) && (!s0.has_user(uid)
                            || s0.next_project_id == i32::MAX),
                    }
                },
            }
        }),
{
    let uid = match user_id_from_identity(store, mode, req_identity) {
        Ok(u) => u,
        Err(e) => {
            return Err(e);
        },
    };
    match store.insert_project(NewProject { title: project_item.title, owner_id: uid }) {
        Ok(p) => Ok(p),
        Err(_) => Err(ApiError::StoreFailure),
    }
}

/// List the tasks of one project, scoped by ownership in the same query:
/// a caller who does not own the project gets the empty list, never an
/// authorization error.
pub fn get_tasks(
    project_id: i32,
    store: &Store,
    mode: &AuthMode,
    req_identity: &Option<Identity>,
) -> (r: Result<Vec<Task>, ApiError>)
    ensures
        ({
            let uid_o = spec_user_id(store@, *mode, ident_view(*req_identity));
            match r {
                Ok(list) => uid_o matches Some(uid) && task_views(list@) == (if spec_project_owned(
                    store@,
                    uid,
                    project_id as int,
                ) {
                    project_tasks(store@.tasks, project_id as int)
                } else {
                    Seq::<TaskView>::empty()
                }),
                Err(e) => uid_o is None && e == ApiError::AuthenticationUnresolved,
            }
        }),
{
    let uid = match user_id_from_identity(store, mode, req_identity) {
        Ok(u) => u,
        Err(e) => {
            return Err(e);
        },
    };
    let mut out: Vec<Task> = Vec::new();
    if !authorize(store, uid, ResourceKind::Project, project_id) {
        proof {
            assert(task_views(out@) =~= Seq::<TaskView>::empty());
        }
        return Ok(out);
    }
    let mut i: usize = 0;
    while i < store.tasks.len()
        invariant
            0 <= i <= store.tasks.len(),
            task_views(out@) == project_tasks(store@.tasks.take(i as int), project_id as int),
        decreases store.tasks.len() - i,
    {
        proof {
            assert(store@.tasks.take(i + 1).drop_last() =~= store@.tasks.take(i as int));
            assert(store@.tasks.take(i + 1).last() == store@.tasks[i as int]);
            assert(store@.tasks[i as int] == store.tasks@[i as int]@);
        }
        if store.tasks[i].project_id == project_id {
            let t = store.tasks[i].clone();
            proof {
                assert(task_views(out@.push(t)) =~= task_views(out@).push(t@));
            }
            out.push(t);
        }
        i += 1;
    }
    proof {
        assert(store@.tasks.take(store.tasks.len() as int) =~= store@.tasks);
    }
    Ok(out)
}

/// List the caller's own projects; other users' projects never appear.
pub fn get_projects(store: &Store, mode: &AuthMode, req_identity: &Option<Identity>) -> (r: Result<
    Vec<Project>,
    ApiError,
>)
    ensures
        ({
            let uid_o = spec_user_id(store@, *mode, ident_view(*req_identity));
            match r {
                Ok(list) => uid_o matches Some(uid) && project_views(list@) == owned_projects(
                    store@.projects,
                    uid,
                ),
                Err(e) => uid_o is None && e == ApiError::AuthenticationUnresolved,
            }
        }),
{
    let uid = match user_id_from_identity(store, mode, req_identity) {
        Ok(u) => u,
        Err(e) => {
            return Err(e);
        },
    };
    let mut out: Vec<Project> = Vec::new();
    proof {
        assert(project_views(out@) =~= Seq::<ProjectView>::empty());
    }
    let mut i: usize = 0;
    while i < store.projects.len()
        invariant
            0 <= i <= store.projects.len(),
            project_views(out@) == owned_projects(store@.projects.take(i as int), uid as int),
        decreases store.projects.len() - i,
    {
        proof {
            assert(store@.projects.take(i + 1).drop_last() =~= store@.projects.take(i as int));
            assert(store@.projects.take(i + 1).last() == store@.projects[i as int]);
            assert(store@.projects[i as int] == store.projects@[i as int]@);
        }
        if store.projects[i].owner_id == uid {
            let p = store.projects[i].clone();
            proof {
                assert(project_views(out@.push(p)) =~= project_views(out@).push(p@));
            }
            out.push(p);
        }
        i += 1;
    }
    proof {
        assert(store@.projects.take(store.projects.len() as int) =~= store@.projects);
    }
    Ok(out)
}

/// Delete one task, after re-checking that the caller owns its parent
/// project; the deleted row is echoed back.
pub fn delete_task(
    task_id: i32,
    store: &mut Store,
    mode: &AuthMode,
    req_identity: &Option<Identity>,
) -> (r: Result<Task, ApiError>)
    requires
        old(store)@.wf(),
    ensures
        final(store)@.wf(),
        ({
            let s0 = old(store)@;
            let uid_o = spec_user_id(s0, *mode, ident_view(*req_identity));
            match r {
                Ok(t) => {
                    &&& uid_o matches Some(uid) && spec_task_authorized(s0, uid, task_id as int)
                    &&& find_task(s0.tasks, task_id as int) == Some(t@)
                    &&& match find_index(s0.tasks, task_has_id(task_id as int)) {
                        Some(i) => final(store)@ == (StoreView {
                            tasks: s0.tasks.remove(i),
                            ..s0
                        }),
                        None => false,
                    }
                },
                Err(e) => {
                    &&& final(store)@ == s0
                    &&& match e {
                        ApiError::AuthenticationUnresolved => uid_o is None,
                        ApiError::AuthorizationDenied => uid_o matches Some(uid)
                            && !spec_task_authorized(s0, uid, task_id as int),
                        ApiError::StoreFailure => false,
                    }
                },
            }
        }),
{
    let uid = match user_id_from_identity(store, mode, req_identity) {
        Ok(u) => u,
        Err(e) => {
            return Err(e);
        },
    };
    if !authorize(store, uid, ResourceKind::Task, task_id) {
        return Err(ApiError::AuthorizationDenied);
    }
    match store.delete_task(task_id) {
        Some(t) => Ok(t),
        None => {
            proof {
                assert(false);
            }
            Err(ApiError::StoreFailure)
        },
    }
}

/// Delete one project, after re-checking that the caller owns that exact
/// id; the deleted row is echoed back. A missing id is a plain denial,
/// never a store fault.
pub fn delete_project(
    project_id: i32,
    store: &mut Store,
    mode: &AuthMode,
    req_identity: &Option<Identity>,
) -> (r: Result<Project, ApiError>)
    requires
        old(store)@.wf(),
    ensures
        final(store)@.wf(),
        ({
            let s0 = old(store)@;
            let uid_o = spec_user_id(s0, *mode, ident_view(*req_identity));
            match r {
                Ok(p) => {
                    &&& uid_o matches Some(uid) && spec_project_owned(s0, uid, project_id as int)
                    &&& find_project(s0.projects, project_id as int) == Some(p@)
                    &&& match find_index(s0.projects, project_has_id(project_id as int)) {
                        Some(i) => final(store)@ == (StoreView {
                            projects: s0.projects.remove(i),
                            ..s0
                        }),
                        None => false,
                    }
                },
                Err(e) => {
                    &&& final(store)@ == s0
                    &&& match e {
                        ApiError::AuthenticationUnresolved => uid_o is None,
                        ApiError::AuthorizationDenied => uid_o matches Some(uid)
                            && !spec_project_owned(s0, uid, project_id as int),
                        ApiError::StoreFailure => false,
                    }
                },
            }
        }),
{
    let uid = match user_id_from_identity(store, mode, req_identity) {
        Ok(u) => u,
        Err(e) => {
            return Err(e);
        },
    };
    if !authorize(store, uid, ResourceKind::Project, project_id) {
        return Err(ApiError::AuthorizationDenied);
    }
    match store.delete_project(project_id) {
        Some(p) => Ok(p),
        None => {
            proof {
                assert(false);
            }
            Err(ApiError::StoreFailure)
        },
    }
}

/// Patch one project's title, after re-checking that the caller owns the
/// patched id; the request payload is echoed back on success.
pub fn update_project(
    p: PatchProject,
    store: &mut Store,
    mode: &AuthMode,
    req_identity: &Option<Identity>,
) -> (r: Result<PatchProject, ApiError>)
    requires
        old(store)@.wf(),
    ensures
        final(store)@.wf(),
        ({
            let s0 = old(store)@;
            let uid_o = spec_user_id(s0, *mode, ident_view(*req_identity));
            match r {
                Ok(echo) => {
                    &&& uid_o matches Some(uid) && spec_project_owned(s0, uid, p.id as int)
                    &&& echo@ == p@
                    &&& final(store)@ == (StoreView {
                        projects: patch_projects(s0.projects, p.id as int, p.title@),
                        ..s0
                    })
                },
                Err(e) => {
                    &&& final(store)@ == s0
                    &&& match e {
                        ApiError::AuthenticationUnresolved => uid_o is None,
                        ApiError::AuthorizationDenied => uid_o matches Some(uid)
                            && !spec_project_owned(s0, uid, p.id as int),
                        ApiError::StoreFailure => false,
                    }
                },
            }
        }),
{
    let uid = match user_id_from_identity(store, mode, req_identity) {
        Ok(u) => u,
        Err(e) => {
            return Err(e);
        },
    };
    if !authorize(store, uid, ResourceKind::Project, p.id) {
        return Err(ApiError::AuthorizationDenied);
    }
    store.patch_project(&p);
    Ok(p)
}

/// Ownership is exclusive: a stored project whose owner is not `uid` is
/// never authorized to `uid`.
pub proof fn lemma_authorize_denies_non_owner(s: StoreView, uid: int, i: int)
    requires
        s.wf(),
        0 <= i < s.projects.len(),
        s.projects[i].owner_id != uid,
    ensures
        !spec_authorize(s, uid, ResourceKind::Project, s.projects[i].id),
{
    crate::store::lemma_find_project_of_member(s.projects, i);
}

/// A stored task is authorized exactly as its parent project is: the
/// task has no owner of its own.
pub proof fn lemma_task_authorization_is_project_authorization(s: StoreView, uid: int, i: int)
    requires
        s.wf(),
        0 <= i < s.tasks.len(),
    ensures
        spec_authorize(s, uid, ResourceKind::Task, s.tasks[i].id) == spec_authorize(
            s,
            uid,
            ResourceKind::Project,
            s.tasks[i].project_id,
        ),
{
    crate::store::lemma_find_task_of_member(s.tasks, i);
}

/// Patching a title commutes with ownership scoping: listing an owner's
/// projects after a patch gives the patch applied to the owner's list.
/// The patch never moves a project into or out of anyone's list.
pub proof fn lemma_patch_commutes_with_owner_filter(
    projects: Seq<ProjectView>,
    uid: int,
    pid: int,
    title: Seq<char>,
)
    ensures
        owned_projects(patch_projects(projects, pid, title), uid) == patch_projects(
            owned_projects(projects, uid),
            pid,
            title,
        ),
    decreases projects.len(),
{
    let patched = patch_projects(projects, pid, title);
    if projects.len() == 0 {
        assert(patched =~= Seq::<ProjectView>::empty());
        assert(patch_projects(owned_projects(projects, uid), pid, title) =~= Seq::<
            ProjectView,
        >::empty());
    } else {
        let rest = projects.drop_last();
        let last = projects.last();
        lemma_patch_commutes_with_owner_filter(rest, uid, pid, title);
        assert(patched.drop_last() =~= patch_projects(rest, pid, title));
        assert(patched.last() == (if last.id == pid {
            (ProjectView { title: title, ..last })
        } else {
            last
        }));
        if last.owner_id == uid {
            assert(patch_projects(owned_projects(rest, uid).push(last), pid, title)
                =~= patch_projects(owned_projects(rest, uid), pid, title).push(patched.last()));
        }
        assert(owned_projects(patched, uid) =~= patch_projects(
            owned_projects(projects, uid),
            pid,
            title,
        ));
    }
}

/// The round trip in place: after a title patch, the owner's listed
/// projects are as before, except that every listed project with the
/// patched id carries the new title and nothing else of it changed.
pub proof fn lemma_patch_then_list_round_trip(
    projects: Seq<ProjectView>,
    uid: int,
    pid: int,
    title: Seq<char>,
)
    ensures
        ({
            let before = owned_projects(projects, uid);
            let after = owned_projects(patch_projects(projects, pid, title), uid);
            &&& after.len() == before.len()
            &&& forall|j: int|
                0 <= j < before.len() ==> #[trigger] after[j] == (if before[j].id == pid {
                    (ProjectView { title: title, ..before[j] })
                } else {
                    before[j]
                })
        }),
{
    lemma_patch_commutes_with_owner_filter(projects, uid, pid, title);
}

/// A caller's session, as the transport hands it in.
pub struct Session {
    pub identity: Option<Identity>,
}

/// A response directing the client to another location.
pub struct Redirect {
    pub location: String,
    pub status_code: u16,
}

/// Invalidate the session and send the client back to the root page.
pub fn logout(session: &mut Session) -> (r: Redirect)
    ensures
        final(session).identity is None,
        r.location@ == "/"@,
        r.status_code == 302,
{
    session.identity = None;
    Redirect { location: "/".to_owned(), status_code: 302 }
}

} // verus!
