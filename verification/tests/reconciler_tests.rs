use task_notes::models::{PatchProject, Project, Task};
use task_notes::reconciler::{TemplateApp, Update};

fn project(id: i32, title: &str) -> Project {
    Project { id, owner_id: 1, title: title.to_owned(), priority: 0 }
}

fn task(id: i32, project_id: i32, title: &str) -> Task {
    Task { id, project_id, task_list_id: None, title: title.to_owned(), completed: false }
}

fn app_with_projects() -> TemplateApp {
    let mut app = TemplateApp::new();
    app.update(Some(Update::ProjectList(vec![project(1, "Groceries"), project(2, "Chores")])));
    app
}

#[test]
fn new_state_is_empty() {
    let app = TemplateApp::new();
    assert!(app.projects.is_empty());
    assert!(app.tasks.is_empty());
    assert!(app.selected_project.is_none());
    assert!(app.edit_project.is_none());
    assert!(app.project_name.is_empty());
}

#[test]
fn deleting_the_selected_project_clears_the_selection() {
    let mut app = app_with_projects();
    app.selected_project = Some(1);
    app.update(Some(Update::ProjectDeleted(project(1, "Groceries"))));
    assert!(app.selected_project.is_none());
    assert_eq!(app.projects.len(), 1);
    assert!(app.projects.iter().all(|p| p.id != 1));
}

#[test]
fn deleting_another_project_keeps_the_selection() {
    let mut app = app_with_projects();
    app.selected_project = Some(2);
    app.update(Some(Update::ProjectDeleted(project(1, "Groceries"))));
    assert_eq!(app.selected_project, Some(2));
    assert_eq!(app.projects.len(), 1);
    assert_eq!(app.projects[0].id, 2);
}

#[test]
fn deleting_an_unknown_project_changes_nothing() {
    let mut app = app_with_projects();
    app.update(Some(Update::ProjectDeleted(project(9, "Gone"))));
    assert_eq!(app.projects.len(), 2);
}

#[test]
fn lists_replace_the_cache_wholesale() {
    let mut app = app_with_projects();
    app.update(Some(Update::ProjectList(vec![project(5, "Only")])));
    assert_eq!(app.projects.len(), 1);
    assert_eq!(app.projects[0].id, 5);

    app.update(Some(Update::TaskList(vec![task(1, 5, "a"), task(2, 5, "b")])));
    assert_eq!(app.tasks.len(), 2);
    app.update(Some(Update::TaskList(vec![])));
    assert!(app.tasks.is_empty());
}

#[test]
fn created_rows_append() {
    let mut app = app_with_projects();
    app.update(Some(Update::ProjectCreated(project(3, "New"))));
    assert_eq!(app.projects.len(), 3);
    assert_eq!(app.projects[2].id, 3);

    app.update(Some(Update::TaskCreated(task(1, 3, "t"))));
    assert_eq!(app.tasks.len(), 1);
    assert_eq!(app.tasks[0].title, "t".to_owned());
}

#[test]
fn task_deletion_removes_by_id() {
    let mut app = TemplateApp::new();
    app.update(Some(Update::TaskList(vec![task(1, 1, "a"), task(2, 1, "b")])));
    app.update(Some(Update::TaskDeleted(task(1, 1, "a"))));
    assert_eq!(app.tasks.len(), 1);
    assert_eq!(app.tasks[0].id, 2);
    app.update(Some(Update::TaskDeleted(task(9, 1, "zz"))));
    assert_eq!(app.tasks.len(), 1);
}

#[test]
fn change_patches_the_matching_project_in_place() {
    let mut app = app_with_projects();
    app.update(Some(Update::ProjectChanged(PatchProject { id: 2, title: "X".to_owned() })));
    assert_eq!(app.projects[0].title, "Groceries".to_owned());
    assert_eq!(app.projects[1].title, "X".to_owned());
    assert_eq!(app.projects[1].id, 2);
    assert_eq!(app.projects[1].owner_id, 1);
}

#[test]
fn an_empty_frame_changes_nothing() {
    let mut app = app_with_projects();
    app.selected_project = Some(1);
    app.update(None);
    assert_eq!(app.projects.len(), 2);
    assert_eq!(app.selected_project, Some(1));
}
