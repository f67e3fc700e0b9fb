use task_notes::api::{
    authorize, check_project_owner, check_task_owner, create_project, create_task, delete_project,
    delete_task, get_projects, get_tasks, logout, update_project, user_id_from_identity, ApiError,
    Identity, ResourceKind, Session,
};
use task_notes::config::AuthMode;
use task_notes::models::{NewProject, NewTask, PatchProject};
use task_notes::store::Store;

fn alice() -> Option<Identity> {
    Some(Identity { email: "alice@example.com".to_owned() })
}

fn bob() -> Option<Identity> {
    Some(Identity { email: "bob@example.com".to_owned() })
}

/// A store with users alice (id 1) and bob (id 2).
fn seeded_store() -> Store {
    let mut store = Store::new();
    store
        .insert_user(task_notes::models::NewAppUser { email: "alice@example.com".to_owned() })
        .unwrap();
    store
        .insert_user(task_notes::models::NewAppUser { email: "bob@example.com".to_owned() })
        .unwrap();
    store
}

#[test]
fn scenario_project_creation_and_scoping() {
    let mut store = seeded_store();
    let mode = AuthMode::Sessions;
    let created = create_project(
        NewProject { title: "Groceries".to_owned(), owner_id: 1 },
        &mut store,
        &mode,
        &alice(),
    )
    .unwrap();
    assert_eq!(created.id, 1);
    assert_eq!(created.owner_id, 1);
    assert_eq!(created.title, "Groceries".to_owned());
    assert_eq!(created.priority, 0);

    let bobs = get_projects(&store, &mode, &bob()).unwrap();
    assert_eq!(bobs.len(), 0);

    let alices = get_projects(&store, &mode, &alice()).unwrap();
    assert_eq!(alices.len(), 1);
    assert_eq!(alices[0].id, 1);
    assert_eq!(alices[0].title, "Groceries".to_owned());
}

#[test]
fn scenario_task_creation_and_foreign_delete() {
    let mut store = seeded_store();
    let mode = AuthMode::Sessions;
    create_project(
        NewProject { title: "Groceries".to_owned(), owner_id: 1 },
        &mut store,
        &mode,
        &alice(),
    )
    .unwrap();
    let task = create_task(
        NewTask { title: "Buy milk".to_owned(), project_id: 1, task_list_id: None },
        &mut store,
        &mode,
        &alice(),
    )
    .unwrap();
    assert_eq!(task.id, 1);
    assert_eq!(task.project_id, 1);
    assert_eq!(task.task_list_id, None);
    assert_eq!(task.title, "Buy milk".to_owned());
    assert!(!task.completed);

    let denied = delete_task(1, &mut store, &mode, &bob());
    match denied {
        Err(e) => assert_eq!(e.status_code(), 400),
        Ok(_) => panic!("a stranger deleted the task"),
    }
    // The task is still there.
    assert_eq!(get_tasks(1, &store, &mode, &alice()).unwrap().len(), 1);
}

#[test]
fn patch_then_get_round_trip() {
    let mut store = seeded_store();
    let mode = AuthMode::Sessions;
    create_project(
        NewProject { title: "Groceries".to_owned(), owner_id: 1 },
        &mut store,
        &mode,
        &alice(),
    )
    .unwrap();
    create_project(
        NewProject { title: "Chores".to_owned(), owner_id: 1 },
        &mut store,
        &mode,
        &alice(),
    )
    .unwrap();
    let echoed = update_project(
        PatchProject { id: 1, title: "X".to_owned() },
        &mut store,
        &mode,
        &alice(),
    )
    .unwrap();
    assert_eq!(echoed.id, 1);
    assert_eq!(echoed.title, "X".to_owned());

    let listed = get_projects(&store, &mode, &alice()).unwrap();
    assert_eq!(listed.len(), 2);
    assert_eq!(listed[0].id, 1);
    assert_eq!(listed[0].title, "X".to_owned());
    assert_eq!(listed[0].owner_id, 1);
    assert_eq!(listed[0].priority, 0);
    assert_eq!(listed[1].id, 2);
    assert_eq!(listed[1].title, "Chores".to_owned());
}

#[test]
fn create_project_ignores_client_owner() {
    let mut store = seeded_store();
    let mode = AuthMode::Sessions;
    let created = create_project(
        NewProject { title: "Sneaky".to_owned(), owner_id: 999 },
        &mut store,
        &mode,
        &bob(),
    )
    .unwrap();
    assert_eq!(created.owner_id, 2);
}

#[test]
fn delete_missing_project_is_denied_not_a_fault() {
    let mut store = seeded_store();
    let mode = AuthMode::Sessions;
    let r = delete_project(41, &mut store, &mode, &alice());
    match r {
        Err(ApiError::AuthorizationDenied) => {},
        _ => panic!("expected a denial"),
    }
}

#[test]
fn authorize_denies_non_owner() {
    let mut store = seeded_store();
    let mode = AuthMode::Sessions;
    create_project(
        NewProject { title: "Groceries".to_owned(), owner_id: 1 },
        &mut store,
        &mode,
        &alice(),
    )
    .unwrap();
    assert!(authorize(&store, 1, ResourceKind::Project, 1));
    assert!(!authorize(&store, 2, ResourceKind::Project, 1));
    assert!(!authorize(&store, 1, ResourceKind::Project, 7));
}

#[test]
fn task_authorization_follows_parent_project() {
    let mut store = seeded_store();
    let mode = AuthMode::Sessions;
    create_project(
        NewProject { title: "Groceries".to_owned(), owner_id: 1 },
        &mut store,
        &mode,
        &alice(),
    )
    .unwrap();
    create_task(
        NewTask { title: "Buy milk".to_owned(), project_id: 1, task_list_id: None },
        &mut store,
        &mode,
        &alice(),
    )
    .unwrap();
    for uid in [1, 2, 3] {
        assert_eq!(
            authorize(&store, uid, ResourceKind::Task, 1),
            authorize(&store, uid, ResourceKind::Project, 1),
        );
    }
    // A missing task authorizes nobody.
    assert!(!authorize(&store, 1, ResourceKind::Task, 9));
}

#[test]
fn unresolved_identity_is_authentication_error() {
    let mut store = seeded_store();
    let mode = AuthMode::Sessions;
    match create_project(
        NewProject { title: "T".to_owned(), owner_id: 1 },
        &mut store,
        &mode,
        &None,
    ) {
        Err(ApiError::AuthenticationUnresolved) => {},
        _ => panic!("expected unresolved authentication"),
    }
    let stranger = Some(Identity { email: "carol@example.com".to_owned() });
    match get_projects(&store, &mode, &stranger) {
        Err(ApiError::AuthenticationUnresolved) => {},
        _ => panic!("expected unresolved authentication"),
    }
    match user_id_from_identity(&store, &mode, &None) {
        Err(ApiError::AuthenticationUnresolved) => {},
        _ => panic!("expected unresolved authentication"),
    }
}

#[test]
fn fixed_user_mode_bypasses_sessions_explicitly() {
    let mut store = seeded_store();
    let mode = AuthMode::FixedUser { user_id: 1 };
    assert_eq!(user_id_from_identity(&store, &mode, &None).unwrap(), 1);
    let created = create_project(
        NewProject { title: "T".to_owned(), owner_id: 5 },
        &mut store,
        &mode,
        &None,
    )
    .unwrap();
    assert_eq!(created.owner_id, 1);
}

#[test]
fn fixed_user_without_row_is_a_store_failure() {
    let mut store = seeded_store();
    let mode = AuthMode::FixedUser { user_id: 77 };
    match create_project(
        NewProject { title: "T".to_owned(), owner_id: 77 },
        &mut store,
        &mode,
        &None,
    ) {
        Err(ApiError::StoreFailure) => {},
        _ => panic!("expected the store to reject the unknown owner"),
    }
}

#[test]
fn get_tasks_scopes_by_ownership_silently() {
    let mut store = seeded_store();
    let mode = AuthMode::Sessions;
    create_project(
        NewProject { title: "Groceries".to_owned(), owner_id: 1 },
        &mut store,
        &mode,
        &alice(),
    )
    .unwrap();
    create_task(
        NewTask { title: "Buy milk".to_owned(), project_id: 1, task_list_id: None },
        &mut store,
        &mode,
        &alice(),
    )
    .unwrap();
    create_task(
        NewTask { title: "Buy eggs".to_owned(), project_id: 1, task_list_id: None },
        &mut store,
        &mode,
        &alice(),
    )
    .unwrap();
    let mine = get_tasks(1, &store, &mode, &alice()).unwrap();
    assert_eq!(mine.len(), 2);
    assert_eq!(mine[0].title, "Buy milk".to_owned());
    assert_eq!(mine[1].title, "Buy eggs".to_owned());
    // A non-owner gets an empty 200 list, not an error.
    let theirs = get_tasks(1, &store, &mode, &bob()).unwrap();
    assert_eq!(theirs.len(), 0);
    match get_tasks(1, &store, &mode, &None) {
        Err(ApiError::AuthenticationUnresolved) => {},
        _ => panic!("expected unresolved authentication"),
    }
}

#[test]
fn delete_task_returns_deleted_row() {
    let mut store = seeded_store();
    let mode = AuthMode::Sessions;
    create_project(
        NewProject { title: "Groceries".to_owned(), owner_id: 1 },
        &mut store,
        &mode,
        &alice(),
    )
    .unwrap();
    create_task(
        NewTask { title: "Buy milk".to_owned(), project_id: 1, task_list_id: None },
        &mut store,
        &mode,
        &alice(),
    )
    .unwrap();
    let deleted = delete_task(1, &mut store, &mode, &alice()).unwrap();
    assert_eq!(deleted.id, 1);
    assert_eq!(deleted.title, "Buy milk".to_owned());
    assert_eq!(get_tasks(1, &store, &mode, &alice()).unwrap().len(), 0);
}

#[test]
fn delete_project_returns_deleted_row() {
    let mut store = seeded_store();
    let mode = AuthMode::Sessions;
    create_project(
        NewProject { title: "Groceries".to_owned(), owner_id: 1 },
        &mut store,
        &mode,
        &alice(),
    )
    .unwrap();
    let deleted = delete_project(1, &mut store, &mode, &alice()).unwrap();
    assert_eq!(deleted.id, 1);
    assert_eq!(deleted.title, "Groceries".to_owned());
    assert_eq!(get_projects(&store, &mode, &alice()).unwrap().len(), 0);
}

#[test]
fn update_by_non_owner_is_denied_and_changes_nothing() {
    let mut store = seeded_store();
    let mode = AuthMode::Sessions;
    create_project(
        NewProject { title: "Groceries".to_owned(), owner_id: 1 },
        &mut store,
        &mode,
        &alice(),
    )
    .unwrap();
    match update_project(
        PatchProject { id: 1, title: "Stolen".to_owned() },
        &mut store,
        &mode,
        &bob(),
    ) {
        Err(ApiError::AuthorizationDenied) => {},
        _ => panic!("expected a denial"),
    }
    let listed = get_projects(&store, &mode, &alice()).unwrap();
    assert_eq!(listed[0].title, "Groceries".to_owned());
}

#[test]
fn ownership_checks_resolve_then_authorize() {
    let mut store = seeded_store();
    let mode = AuthMode::Sessions;
    create_project(
        NewProject { title: "Groceries".to_owned(), owner_id: 1 },
        &mut store,
        &mode,
        &alice(),
    )
    .unwrap();
    create_task(
        NewTask { title: "Buy milk".to_owned(), project_id: 1, task_list_id: None },
        &mut store,
        &mode,
        &alice(),
    )
    .unwrap();
    assert!(check_project_owner(&store, &mode, &alice(), 1));
    assert!(!check_project_owner(&store, &mode, &bob(), 1));
    assert!(!check_project_owner(&store, &mode, &None, 1));
    assert!(check_task_owner(&store, &mode, &alice(), 1));
    assert!(!check_task_owner(&store, &mode, &bob(), 1));
    assert!(!check_task_owner(&store, &mode, &alice(), 3));
}

#[test]
fn logout_clears_the_session() {
    let mut session = Session { identity: alice() };
    let redirect = logout(&mut session);
    assert!(session.identity.is_none());
    assert_eq!(redirect.location, "/".to_owned());
    assert_eq!(redirect.status_code, 302);
}

#[test]
fn every_api_error_reports_status_400() {
    assert_eq!(ApiError::AuthenticationUnresolved.status_code(), 400);
    assert_eq!(ApiError::AuthorizationDenied.status_code(), 400);
    assert_eq!(ApiError::StoreFailure.status_code(), 400);
}
