use promptforge::projects::{
    active_project_for, add_project, add_project_with, delete_project, empty_store,
    get_active_project, list_projects, set_active_project, update_project, update_project_at,
    Project, ProjectError, ProjectStore,
};

fn s(t: &str) -> String {
    t.to_string()
}

fn store_with_two() -> ProjectStore {
    let mut store = empty_store();
    add_project_with(&mut store, s("Alpha"), s("first"), s("proj_1"), s("1s")).unwrap();
    add_project_with(&mut store, s("Beta"), s("second"), s("proj_2"), s("2s")).unwrap();
    store
}

#[test]
fn adding_trims_and_activates_the_first_project() {
    let mut store = empty_store();
    let p = add_project_with(&mut store, s("  Alpha "), s(" notes\n"), s("proj_1"), s("10s")).unwrap();
    assert_eq!(p.name, "Alpha");
    assert_eq!(p.description, "notes");
    assert!(p.links.is_empty());
    assert_eq!(p.created_at, "10s");
    assert_eq!(p.updated_at, "10s");
    assert_eq!(store.projects.len(), 1);
    assert_eq!(store.active_project_id.as_deref(), Some("proj_1"));
}

#[test]
fn adding_a_second_project_keeps_the_active_one() {
    let store = store_with_two();
    assert_eq!(store.projects.len(), 2);
    assert_eq!(store.projects[1].name, "Beta");
    assert_eq!(store.active_project_id.as_deref(), Some("proj_1"));
    assert_eq!(active_project_for(&store).unwrap().name, "Alpha");
}

#[test]
fn adding_with_a_blank_name_is_refused() {
    let mut store = store_with_two();
    let r = add_project_with(&mut store, s("   "), s("x"), s("proj_3"), s("3s"));
    assert!(matches!(r, Err(ProjectError::EmptyName)));
    assert_eq!(store.projects.len(), 2);
    assert_eq!(r.unwrap_err().message(), "Project name cannot be empty");
}

#[test]
fn adding_with_the_clock_stamps_the_project() {
    let mut store = empty_store();
    let p = add_project(&mut store, s("Gamma"), s("")).unwrap();
    assert!(p.id.starts_with("proj_"));
    assert!(p.created_at.ends_with('s'));
    assert_eq!(p.created_at, p.updated_at);
    assert_eq!(store.active_project_id.as_deref(), Some(p.id.as_str()));
}

#[test]
fn updating_edits_the_named_project() {
    let mut store = store_with_two();
    let p = update_project_at(
        &mut store,
        s("proj_2"),
        s(" Beta 2 "),
        s(" more "),
        vec![s("https://example.com")],
        s("9s"),
    )
    .unwrap();
    assert_eq!(p.id, "proj_2");
    assert_eq!(p.name, "Beta 2");
    assert_eq!(p.description, "more");
    assert_eq!(p.links, vec![s("https://example.com")]);
    assert_eq!(p.created_at, "2s");
    assert_eq!(p.updated_at, "9s");
    assert_eq!(store.projects[1].name, "Beta 2");
    assert_eq!(store.projects[0].name, "Alpha");
}

#[test]
fn updating_an_unknown_project_is_refused() {
    let mut store = store_with_two();
    let r = update_project(&mut store, s("proj_9"), s("X"), s(""), vec![]);
    match r {
        Err(ProjectError::NotFound(id)) => assert_eq!(id, "proj_9"),
        other => panic!("unexpected {other:?}"),
    }
    let r = update_project(&mut store, s("proj_9"), s(" "), s(""), vec![]);
    assert!(matches!(r, Err(ProjectError::EmptyName)));
    assert_eq!(ProjectError::NotFound(s("proj_9")).message(), "Project proj_9 not found");
}

#[test]
fn updating_with_the_clock_stamps_the_edit() {
    let mut store = store_with_two();
    let p = update_project(&mut store, s("proj_1"), s("A"), s("d"), vec![]).unwrap();
    assert!(p.updated_at.ends_with('s'));
    assert_eq!(p.created_at, "1s");
}

#[test]
fn deleting_the_active_project_activates_the_first_left() {
    let mut store = store_with_two();
    delete_project(&mut store, s("proj_1")).unwrap();
    assert_eq!(store.projects.len(), 1);
    assert_eq!(store.active_project_id.as_deref(), Some("proj_2"));
    delete_project(&mut store, s("proj_2")).unwrap();
    assert!(store.projects.is_empty());
    assert!(store.active_project_id.is_none());
}

#[test]
fn deleting_another_project_keeps_the_active_one() {
    let mut store = store_with_two();
    delete_project(&mut store, s("proj_2")).unwrap();
    assert_eq!(store.active_project_id.as_deref(), Some("proj_1"));
}

#[test]
fn deleting_twice_is_refused() {
    let mut store = store_with_two();
    delete_project(&mut store, s("proj_2")).unwrap();
    let r = delete_project(&mut store, s("proj_2"));
    assert!(matches!(r, Err(ProjectError::NotFound(_))));
    assert_eq!(store.projects.len(), 1);
}

#[test]
fn deleting_removes_every_duplicate() {
    let mut store = store_with_two();
    add_project_with(&mut store, s("Again"), s(""), s("proj_2"), s("3s")).unwrap();
    delete_project(&mut store, s("proj_2")).unwrap();
    assert_eq!(store.projects.len(), 1);
    assert_eq!(store.projects[0].id, "proj_1");
}

#[test]
fn setting_the_active_project() {
    let mut store = store_with_two();
    set_active_project(&mut store, s("proj_2")).unwrap();
    assert_eq!(get_active_project(&store).unwrap().name, "Beta");
    let r = set_active_project(&mut store, s("nope"));
    assert!(matches!(r, Err(ProjectError::NotFound(_))));
    assert_eq!(store.active_project_id.as_deref(), Some("proj_2"));
}

#[test]
fn a_dangling_active_identifier_has_no_project() {
    let store = ProjectStore {
        active_project_id: Some(s("gone")),
        projects: vec![Project {
            id: s("proj_1"),
            name: s("A"),
            description: s(""),
            links: vec![],
            created_at: s("1s"),
            updated_at: s("1s"),
        }],
    };
    assert!(active_project_for(&store).is_none());
    assert!(active_project_for(&empty_store()).is_none());
}

#[test]
fn listing_copies_the_store() {
    let store = store_with_two();
    let listed = list_projects(&store);
    assert_eq!(listed.active_project_id, store.active_project_id);
    assert_eq!(listed.projects.len(), 2);
    assert_eq!(listed.projects[1].description, "second");
}
