//! The client-side state reconciler.
//!
//! The GUI issues requests asynchronously; each finished request pushes
//! exactly one [`Update`] onto an in-process queue. Once per frame the
//! UI thread hands the reconciler at most one dequeued message, and the
//! reconciler folds it into the local entity caches. Selection is held
//! by project id, never by a shared handle into the list.

use vstd::pervasive::VecAdditionalExecFns;
use vstd::prelude::*;

use crate::lookup::{find_index, lemma_find_index_at, lemma_find_index_properties};
use crate::models::{
    project_views, task_views, PatchProject, PatchProjectView, Project, ProjectView, Task,
    TaskView,
};
use crate::store::{project_has_id, task_has_id};

verus! {

/// A message produced by a completed request, consumed once by the
/// reconciliation step.
pub enum Update {
    ProjectList(Vec<Project>),
    TaskList(Vec<Task>),
    ProjectCreated(Project),
    ProjectDeleted(Project),
    TaskDeleted(Task),
    ProjectChanged(PatchProject),
    TaskCreated(Task),
}

/// The project rows after a message patched one: the first row with the
/// patched id takes the new title, everything else is kept.
pub open spec fn patch_first_project(projects: Seq<ProjectView>, change: PatchProjectView) -> Seq<
    ProjectView,
> {
    match find_index(projects, project_has_id(change.id)) {
        Some(i) => projects.update(i, (ProjectView { title: change.title, ..projects[i] })),
        None => projects,
    }
}

/// The project rows after a deletion: the first row with the id is
/// dropped; a list without the id is kept whole.
pub open spec fn without_first_project(projects: Seq<ProjectView>, pid: int) -> Seq<ProjectView> {
    match find_index(projects, project_has_id(pid)) {
        Some(i) => projects.remove(i),
        None => projects,
    }
}

/// The task rows after a deletion: the first row with the id is dropped;
/// a list without the id is kept whole.
pub open spec fn without_first_task(tasks: Seq<TaskView>, tid: int) -> Seq<TaskView> {
    match find_index(tasks, task_has_id(tid)) {
        Some(i) => tasks.remove(i),
        None => tasks,
    }
}

/// The GUI's local mirror of server state, plus the text the user is
/// typing. Entity references are ids, not shared handles.
pub struct TemplateApp {
    pub edit_project_name: String,
    pub task_text: String,
    pub project_name: String,
    pub edit_project: Option<i32>,
    pub selected_project: Option<i32>,
    pub tasks: Vec<Task>,
    pub projects: Vec<Project>,
}

impl TemplateApp {
    /// A fresh client state: nothing cached, nothing selected.
    pub fn new() -> (r: TemplateApp)
        ensures
            r.edit_project_name@.len() == 0,
            r.task_text@.len() == 0,
            r.project_name@.len() == 0,
            r.edit_project is None,
            r.selected_project is None,
            r.tasks@.len() == 0,
            r.projects@.len() == 0,
    {
        TemplateApp {
            edit_project_name: String::new(),
            task_text: String::new(),
            project_name: String::new(),
            edit_project: None,
            selected_project: None,
            tasks: Vec::new(),
            projects: Vec::new(),
        }
    }

    /// Fold at most one dequeued message into the local state. Lists
    /// replace the cache wholesale, created rows append, deleted rows
    /// are removed by id, a change patches the matching row in place,
    /// and deleting the selected project clears the selection.
    pub fn update(&mut self, message: Option<Update>)
        ensures
            final(self).edit_project_name == old(self).edit_project_name,
            final(self).task_text == old(self).task_text,
            final(self).project_name == old(self).project_name,
            final(self).edit_project == old(self).edit_project,
            ({
                let s0 = *old(self);
                let s1 = *final(self);
                match message {
                    None => {
                        &&& s1.projects == s0.projects
                        &&& s1.tasks == s0.tasks
                        &&& s1.selected_project == s0.selected_project
                    },
                    Some(m) => match m {
                        Update::ProjectList(list) => {
                            &&& s1.projects == list
                            &&& s1.tasks == s0.tasks
                            &&& s1.selected_project == s0.selected_project
                        },
                        Update::TaskList(list) => {
                            &&& s1.tasks == list
                            &&& s1.projects == s0.projects
                            &&& s1.selected_project == s0.selected_project
                        },
                        Update::ProjectCreated(p) => {
                            &&& s1.projects@ == s0.projects@.push(p)
                            &&& s1.tasks == s0.tasks
                            &&& s1.selected_project == s0.selected_project
                        },
                        Update::TaskCreated(t) => {
                            &&& s1.tasks@ == s0.tasks@.push(t)
                            &&& s1.projects == s0.projects
                            &&& s1.selected_project == s0.selected_project
                        },
                        Update::TaskDeleted(t) => {
                            &&& task_views(s1.tasks@) == without_first_task(
                                task_views(s0.tasks@),
                                t.id as int,
                            )
                            &&& s1.projects == s0.projects
                            &&& s1.selected_project == s0.selected_project
                        },
                        Update::ProjectChanged(change) => {
                            &&& project_views(s1.projects@) == patch_first_project(
                                project_views(s0.projects@),
                                change@,
                            )
                            &&& s1.tasks == s0.tasks
                            &&& s1.selected_project == s0.selected_project
                        },
                        Update::ProjectDeleted(p) => {
                            &&& project_views(s1.projects@) == without_first_project(
                                project_views(s0.projects@),
                                p.id as int,
                            )
                            &&& s1.tasks == s0.tasks
                            &&& s1.selected_project == (if s0.selected_project == Some(p.id) {
                                None
                            } else {
                                s0.selected_project
                            })
                        },
                    },
                }
            }),
    {
        match message {
            None => {},
            Some(m) => match m {
                Update::ProjectList(list) => {
                    self.projects = list;
                },
                Update::TaskList(list) => {
                    self.tasks = list;
                },
                Update::ProjectCreated(p) => {
                    self.projects.push(p);
                },
                Update::TaskCreated(t) => {
                    self.tasks.push(t);
                },
                Update::TaskDeleted(t) => {
                    self.remove_task_by_id(t.id);
                },
                Update::ProjectChanged(change) => {
                    self.patch_project_by_id(&change);
                },
                Update::ProjectDeleted(p) => {
                    match self.selected_project {
                        Some(sel) => {
                            if sel == p.id {
                                self.selected_project = None;
                            }
                        },
                        None => {},
                    }
                    self.remove_project_by_id(p.id);
                },
            },
        }
    }

    /// Drop the first cached task with this id, if any.
    fn remove_task_by_id(&mut self, task_id: i32)
        ensures
            task_views(final(self).tasks@) == without_first_task(
                task_views(old(self).tasks@),
                task_id as int,
            ),
            final(self).projects == old(self).projects,
            final(self).selected_project == old(self).selected_project,
            final(self).edit_project == old(self).edit_project,
            final(self).edit_project_name == old(self).edit_project_name,
            final(self).task_text == old(self).task_text,
            final(self).project_name == old(self).project_name,
    {
        let ghost tv = task_views(old(self).tasks@);
        let mut i: usize = 0;
        while i < self.tasks.len()
            invariant
                *self == *old(self),
                tv == task_views(self.tasks@),
                0 <= i <= self.tasks.len(),
                forall|j: int| 0 <= j < i ==> !task_has_id(task_id as int)(#[trigger] tv[j]),
            decreases self.tasks.len() - i,
        {
            if self.tasks[i].id == task_id {
                proof {
                    assert(tv[i as int] == self.tasks@[i as int]@);
                    lemma_find_index_at(tv, task_has_id(task_id as int), i as int);
                }
                self.tasks.remove(i);
                proof {
                    assert(task_views(self.tasks@) =~= tv.remove(i as int));
                }
                return ;
            }
            i += 1;
        }
        proof {
            lemma_find_index_properties(tv, task_has_id(task_id as int));
        }
    }

    /// Drop the first cached project with this id, if any.
    fn remove_project_by_id(&mut self, project_id: i32)
        ensures
            project_views(final(self).projects@) == without_first_project(
                project_views(old(self).projects@),
                project_id as int,
            ),
            final(self).tasks == old(self).tasks,
            final(self).selected_project == old(self).selected_project,
            final(self).edit_project == old(self).edit_project,
            final(self).edit_project_name == old(self).edit_project_name,
            final(self).task_text == old(self).task_text,
            final(self).project_name == old(self).project_name,
    {
        let ghost pv = project_views(old(self).projects@);
        let mut i: usize = 0;
        while i < self.projects.len()
            invariant
                *self == *old(self),
                pv == project_views(self.projects@),
                0 <= i <= self.projects.len(),
                forall|j: int| 0 <= j < i ==> !project_has_id(project_id as int)(#[trigger] pv[j]),
            decreases self.projects.len() - i,
        {
            if self.projects[i].id == project_id {
                proof {
                    assert(pv[i as int] == self.projects@[i as int]@);
                    lemma_find_index_at(pv, project_has_id(project_id as int), i as int);
                }
                self.projects.remove(i);
                proof {
                    assert(project_views(self.projects@) =~= pv.remove(i as int));
                }
                return ;
            }
            i += 1;
        }
        proof {
            lemma_find_index_properties(pv, project_has_id(project_id as int));
        }
    }

    /// Patch the first cached project with the change's id in place,
    /// if any: only the title moves.
    fn patch_project_by_id(&mut self, change: &PatchProject)
        ensures
            project_views(final(self).projects@) == patch_first_project(
                project_views(old(self).projects@),
                change@,
            ),
            final(self).tasks == old(self).tasks,
            final(self).selected_project == old(self).selected_project,
            final(self).edit_project == old(self).edit_project,
            final(self).edit_project_name == old(self).edit_project_name,
            final(self).task_text == old(self).task_text,
            final(self).project_name == old(self).project_name,
    {
        let ghost pv = project_views(old(self).projects@);
        let mut i: usize = 0;
        while i < self.projects.len()
            invariant
                *self == *old(self),
                pv == project_views(self.projects@),
                0 <= i <= self.projects.len(),
                forall|j: int| 0 <= j < i ==> !project_has_id(change.id as int)(#[trigger] pv[j]),
            decreases self.projects.len() - i,
        {
            if self.projects[i].id == change.id {
                proof {
                    assert(pv[i as int] == self.projects@[i as int]@);
                    lemma_find_index_at(pv, project_has_id(change.id as int), i as int);
                }
                let mut patched = self.projects[i].clone();
                change.patch(&mut patched);
                self.projects.set(i, patched);
                proof {
                    assert(project_views(self.projects@) =~= pv.update(
                        i as int,
                        (ProjectView { title: change@.title, ..pv[i as int] }),
                    ));
                }
                return ;
            }
            i += 1;
        }
        proof {
            lemma_find_index_properties(pv, project_has_id(change.id as int));
        }
    }
}

} // verus!
