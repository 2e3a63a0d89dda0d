use rust_graphql_todoapi::resolver::{
    collapse_lookup_outcome, create_reply, delete_reply, list_reply, lookup_reply,
};
use rust_graphql_todoapi::{
    create_todo, delete_todo_by_id, get_all_todos, get_todo_by_id, update_todo_by_id, ApiError,
    StoreError, Todo, TodoStore,
};

#[test]
fn adapter_insert_populates_the_record() {
    let mut store = TodoStore::new();
    let created = create_todo(&mut store, "buy milk").expect("insert should succeed");
    assert_eq!(created.id, 1);
    assert_eq!(created.title, "buy milk");
    assert!(!created.completed);
}

#[test]
fn adapter_list_returns_rows_in_insertion_order() {
    let mut store = TodoStore::new();
    create_todo(&mut store, "one").expect("insert should succeed");
    create_todo(&mut store, "two").expect("insert should succeed");
    let rows = get_all_todos(&store).expect("select cannot fail here");
    assert_eq!(rows.len(), 2);
    assert_eq!((rows[0].id, rows[0].title.as_str()), (1, "one"));
    assert_eq!((rows[1].id, rows[1].title.as_str()), (2, "two"));
}

#[test]
fn adapter_find_distinguishes_presence() {
    let mut store = TodoStore::new();
    let created = create_todo(&mut store, "findable").expect("insert should succeed");
    let found = get_todo_by_id(&store, &created.id).expect("the row exists");
    assert!(found == created);
    assert!(get_todo_by_id(&store, &7).is_none());
}

#[test]
fn adapter_update_returns_the_updated_row() {
    let mut store = TodoStore::new();
    create_todo(&mut store, "toggle me").expect("insert should succeed");
    let updated = update_todo_by_id(&mut store, &1, &true).expect("the row exists");
    assert_eq!(updated.id, 1);
    assert_eq!(updated.title, "toggle me");
    assert!(updated.completed);
    assert!(update_todo_by_id(&mut store, &2, &true).is_none());
}

#[test]
fn adapter_delete_reports_whether_a_row_went() {
    let mut store = TodoStore::new();
    create_todo(&mut store, "short-lived").expect("insert should succeed");
    assert_eq!(delete_todo_by_id(&mut store, &1), Ok(true));
    assert_eq!(delete_todo_by_id(&mut store, &1), Ok(false));
}

#[test]
fn outcome_classification_matches_the_resolver_rules() {
    let row = Todo { id: 4, title: "kept".to_string(), completed: false };

    let collapsed = collapse_lookup_outcome(Ok(row.clone()));
    assert!(collapsed.clone().expect("success passes through") == row);
    assert!(collapse_lookup_outcome(Err(StoreError::NotFound)).is_none());
    assert!(collapse_lookup_outcome(Err(StoreError::Infra)).is_none());

    assert!(lookup_reply(collapsed).expect("a found row passes through") == row);
    assert!(lookup_reply(None).expect_err("absence is NOT_FOUND") == ApiError::NotFound);

    assert!(create_reply(Ok(row.clone())).expect("success passes through") == row);
    assert!(
        create_reply(Err(StoreError::Infra)).expect_err("a store failure is INTERNAL")
            == ApiError::Internal
    );

    let listed = list_reply(Ok(vec![row.clone()])).expect("success passes through");
    assert_eq!(listed.len(), 1);
    assert!(listed[0] == row);
    assert!(
        list_reply(Err(StoreError::Infra)).expect_err("a store failure is INTERNAL")
            == ApiError::Internal
    );

    assert_eq!(delete_reply(Ok(true)), Ok(true));
    assert_eq!(delete_reply(Ok(false)), Ok(false));
    assert_eq!(delete_reply(Err(StoreError::Infra)), Err(ApiError::Internal));
}
