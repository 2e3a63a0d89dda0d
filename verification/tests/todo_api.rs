use rust_graphql_todoapi::{
    ApiError, CreateTodoInput, Mutation, Query, TodoStore, UpdateTodoInput,
};

fn create(store: &mut TodoStore, title: &str) -> rust_graphql_todoapi::Todo {
    Mutation::create_todo(store, CreateTodoInput { title: title.to_string() })
        .expect("creation should succeed")
}

#[test]
fn api_version_is_1_0() {
    assert_eq!(Query::api_version(), "1.0");
}

#[test]
fn empty_store_lists_nothing() {
    let store = TodoStore::new();
    let todos = Query::todos(&store).expect("listing should succeed");
    assert!(todos.is_empty());
}

#[test]
fn create_assigns_id_1_then_lists_it() {
    let mut store = TodoStore::new();
    let created = create(&mut store, "buy milk");
    assert_eq!(created.id, 1);
    assert_eq!(created.title, "buy milk");
    assert!(!created.completed);

    let todos = Query::todos(&store).expect("listing should succeed");
    assert_eq!(todos.len(), 1);
    assert!(todos[0] == created);
}

#[test]
fn create_then_read_returns_equal_record() {
    let mut store = TodoStore::new();
    let created = create(&mut store, "water the plants");
    let read = Query::todo(&store, created.id).expect("the record was just created");
    assert!(read == created);
}

#[test]
fn create_accepts_empty_title() {
    let mut store = TodoStore::new();
    let created = create(&mut store, "");
    assert_eq!(created.title, "");
    let read = Query::todo(&store, created.id).expect("the record was just created");
    assert!(read == created);
}

#[test]
fn create_keeps_every_character_of_the_title() {
    let mut store = TodoStore::new();
    let title = "caf\u{e9} \u{2615} \u{725b}\u{4e73}";
    let created = create(&mut store, title);
    assert_eq!(created.title, title);
    let read = Query::todo(&store, created.id).expect("the record was just created");
    assert!(read == created);
}

#[test]
fn consecutive_creations_get_distinct_ids() {
    let mut store = TodoStore::new();
    let first = create(&mut store, "one");
    let second = create(&mut store, "two");
    let third = create(&mut store, "three");
    assert_ne!(first.id, second.id);
    assert_ne!(second.id, third.id);
    assert_ne!(first.id, third.id);
    assert_eq!((first.id, second.id, third.id), (1, 2, 3));
}

#[test]
fn update_sets_flag_and_keeps_title() {
    let mut store = TodoStore::new();
    create(&mut store, "buy milk");
    let updated = Mutation::update_todo(&mut store, 1, UpdateTodoInput { completed: true })
        .expect("the record exists");
    assert_eq!(updated.id, 1);
    assert_eq!(updated.title, "buy milk");
    assert!(updated.completed);

    let read = Query::todo(&store, 1).expect("the record exists");
    assert!(read == updated);
}

#[test]
fn update_is_targeted_at_one_record() {
    let mut store = TodoStore::new();
    let first = create(&mut store, "left alone");
    create(&mut store, "to be toggled");
    let updated = Mutation::update_todo(&mut store, 2, UpdateTodoInput { completed: true })
        .expect("the record exists");
    assert!(updated.completed);

    let untouched = Query::todo(&store, 1).expect("the record exists");
    assert!(untouched == first);
}

#[test]
fn update_twice_yields_same_record() {
    let mut store = TodoStore::new();
    create(&mut store, "buy milk");
    let once = Mutation::update_todo(&mut store, 1, UpdateTodoInput { completed: true })
        .expect("the record exists");
    let twice = Mutation::update_todo(&mut store, 1, UpdateTodoInput { completed: true })
        .expect("the record exists");
    assert!(once == twice);
}

#[test]
fn delete_then_read_reports_not_found() {
    let mut store = TodoStore::new();
    create(&mut store, "buy milk");
    let deleted = Mutation::delete_todo(&mut store, 1).expect("deletion cannot fail here");
    assert!(deleted);

    let err = Query::todo(&store, 1).expect_err("the record is gone");
    assert!(err == ApiError::NotFound);
    assert_eq!(err.type_tag(), "NOT_FOUND");
    assert_eq!(err.message(), "Todo not found");

    let again = Mutation::delete_todo(&mut store, 1).expect("deletion cannot fail here");
    assert!(!again);
}

#[test]
fn missing_id_gives_not_found_or_false() {
    let mut store = TodoStore::new();
    let err = Query::todo(&store, 999).expect_err("nothing was created");
    assert!(err == ApiError::NotFound);

    let err = Mutation::update_todo(&mut store, 999, UpdateTodoInput { completed: true })
        .expect_err("nothing was created");
    assert!(err == ApiError::NotFound);

    let deleted = Mutation::delete_todo(&mut store, 999).expect("deletion cannot fail here");
    assert!(!deleted);
}

#[test]
fn list_holds_exactly_the_records_not_deleted() {
    let mut store = TodoStore::new();
    let first = create(&mut store, "one");
    create(&mut store, "two");
    let third = create(&mut store, "three");
    let deleted = Mutation::delete_todo(&mut store, 2).expect("deletion cannot fail here");
    assert!(deleted);

    let todos = Query::todos(&store).expect("listing should succeed");
    assert_eq!(todos.len(), 2);
    assert!(todos.iter().any(|t| *t == first));
    assert!(todos.iter().any(|t| *t == third));
    assert!(todos.iter().all(|t| t.id != 2));
}

#[test]
fn internal_error_carries_internal_tag() {
    let err = ApiError::Internal;
    assert_eq!(err.type_tag(), "INTERNAL");
    assert_eq!(err.message(), "Internal server error");
}
