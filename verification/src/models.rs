//! Entity definitions: users, projects, tasks, and the payload shapes
//! used to create or change them.

use vstd::prelude::*;

verus! {

/// A registered user, created on first successful login and immutable
/// thereafter.
pub struct AppUser {
    pub id: i32,
    pub email: String,
}

/// Mathematical image of an [`AppUser`].
#[verifier::ext_equal]
pub ghost struct AppUserView {
    pub id: int,
    pub email: Seq<char>,
}

impl View for AppUser {
    type V = AppUserView;

    open spec fn view(&self) -> AppUserView {
        AppUserView { id: self.id as int, email: self.email@ }
    }
}

impl Clone for AppUser {
    fn clone(&self) -> (r: Self)
        ensures
            r@ == self@,
    {
        AppUser { id: self.id, email: self.email.clone() }
    }
}

/// A project owned by exactly one user; only its owner may see or change it.
pub struct Project {
    pub id: i32,
    pub owner_id: i32,
    pub title: String,
    pub priority: i32,
}

/// Mathematical image of a [`Project`].
#[verifier::ext_equal]
pub ghost struct ProjectView {
    pub id: int,
    pub owner_id: int,
    pub title: Seq<char>,
    pub priority: int,
}

impl View for Project {
    type V = ProjectView;

    open spec fn view(&self) -> ProjectView {
        ProjectView {
            id: self.id as int,
            owner_id: self.owner_id as int,
            title: self.title@,
            priority: self.priority as int,
        }
    }
}

impl Clone for Project {
    fn clone(&self) -> (r: Self)
        ensures
            r@ == self@,
    {
        Project {
            id: self.id,
            owner_id: self.owner_id,
            title: self.title.clone(),
            priority: self.priority,
        }
    }
}

/// A task under a project; it has no owner of its own, authorization is
/// resolved through its parent project.
pub struct Task {
    pub id: i32,
    pub project_id: i32,
    pub task_list_id: Option<i32>,
    pub title: String,
    pub completed: bool,
}

/// Mathematical image of a [`Task`].
#[verifier::ext_equal]
pub ghost struct TaskView {
    pub id: int,
    pub project_id: int,
    pub task_list_id: Option<int>,
    pub title: Seq<char>,
    pub completed: bool,
}

impl View for Task {
    type V = TaskView;

    open spec fn view(&self) -> TaskView {
        TaskView {
            id: self.id as int,
            project_id: self.project_id as int,
            task_list_id: match self.task_list_id {
                Some(l) => Some(l as int),
                None => None,
            },
            title: self.title@,
            completed: self.completed,
        }
    }
}

impl Clone for Task {
    fn clone(&self) -> (r: Self)
        ensures
            r@ == self@,
    {
        Task {
            id: self.id,
            project_id: self.project_id,
            task_list_id: self.task_list_id,
            title: self.title.clone(),
            completed: self.completed,
        }
    }
}

/// A group of tasks under a project. Present in the data model but not
/// exercised by any endpoint; reserved for future use.
pub struct TaskList {
    pub id: i32,
    pub title: String,
    pub project_id: i32,
}

/// Payload for creating a project. The `owner_id` a client supplies is
/// never honoured: creation substitutes the caller's id.
pub struct NewProject {
    pub title: String,
    pub owner_id: i32,
}

/// Payload for changing a project; only the title is mutable.
pub struct PatchProject {
    pub title: String,
    pub id: i32,
}

/// Mathematical image of a [`PatchProject`].
#[verifier::ext_equal]
pub ghost struct PatchProjectView {
    pub title: Seq<char>,
    pub id: int,
}

impl View for PatchProject {
    type V = PatchProjectView;

    open spec fn view(&self) -> PatchProjectView {
        PatchProjectView { title: self.title@, id: self.id as int }
    }
}

impl Clone for PatchProject {
    fn clone(&self) -> (r: Self)
        ensures
            r@ == self@,
    {
        PatchProject { title: self.title.clone(), id: self.id }
    }
}

impl PatchProject {
    /// Apply the patch to a project in place: the title is replaced,
    /// every other field is kept.
    pub fn patch(&self, target: &mut Project)
        ensures
            final(target)@ == (ProjectView { title: self@.title, ..old(target)@ }),
    {
        target.title = self.title.clone();
    }
}

/// Payload for provisioning a user on first login.
pub struct NewAppUser {
    pub email: String,
}

/// Payload for creating a task under an existing project.
pub struct NewTask {
    pub title: String,
    pub project_id: i32,
    pub task_list_id: Option<i32>,
}

/// The mathematical images of a sequence of projects.
pub open spec fn project_views(ps: Seq<Project>) -> Seq<ProjectView> {
    ps.map_values(|p: Project| p@)
}

/// The mathematical images of a sequence of tasks.
pub open spec fn task_views(ts: Seq<Task>) -> Seq<TaskView> {
    ts.map_values(|t: Task| t@)
}

} // verus!
