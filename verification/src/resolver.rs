use vstd::prelude::*;

use crate::models::{CreateTodoInput, Todo, UpdateTodoInput};
use crate::store::{
    can_insert, create_todo, delete_todo_by_id, get_all_todos, get_todo_by_id, has_id,
    inserted_record, record_of, spec_insert, spec_remove, spec_update, update_todo_by_id,
    updated_record, views_of, StoreError, TodoStore,
};

verus! {

/// User-visible error categories; the transport writes the tag into the
/// `type` extension of the protocol's error envelope.
#[derive(Clone, Copy, PartialEq, Eq, Structural, Debug)]
pub enum ApiError {
    NotFound,
    Internal,
}

impl ApiError {
    /// The `type` tag carried in the error envelope.
    pub fn type_tag(&self) -> (r: &'static str)
        ensures
            *self == ApiError::NotFound ==> r@ == "NOT_FOUND"@,
            *self == ApiError::Internal ==> r@ == "INTERNAL"@,
    {
        match self {
            ApiError::NotFound => "NOT_FOUND",
            ApiError::Internal => "INTERNAL",
        }
    }

    /// The human-readable message beside the tag.
    pub fn message(&self) -> (r: &'static str)
        ensures
            *self == ApiError::NotFound ==> r@ == "Todo not found"@,
            *self == ApiError::Internal ==> r@ == "Internal server error"@,
    {
        match self {
            ApiError::NotFound => "Todo not found",
            ApiError::Internal => "Internal server error",
        }
    }
}

/// Collapses a by-id adapter outcome the way `todo` and `updateTodo` report
/// it: a missing row and an infrastructure failure alike become `None`; the
/// infrastructure detail is left for operator logs.
pub fn collapse_lookup_outcome(outcome: Result<Todo, StoreError>) -> (r: Option<Todo>)
    ensures
        outcome is Ok ==> r is Some && r->0@ == outcome->Ok_0@,
        outcome is Err ==> r is None,
{
    match outcome {
        Ok(todo) => Some(todo),
        Err(_) => None,
    }
}

/// Turns a list outcome into the `todos` reply: a store failure becomes an
/// `INTERNAL` error.
pub fn list_reply(outcome: Result<Vec<Todo>, StoreError>) -> (r: Result<Vec<Todo>, ApiError>)
    ensures
        outcome is Ok ==> r is Ok && r->Ok_0@ == outcome->Ok_0@,
        outcome is Err ==> r == Err::<Vec<Todo>, ApiError>(ApiError::Internal),
{
    match outcome {
        Ok(todos) => Ok(todos),
        Err(_) => Err(ApiError::Internal),
    }
}

/// Turns a collapsed by-id outcome into the `todo` / `updateTodo` reply:
/// an absent record becomes a `NOT_FOUND` error.
pub fn lookup_reply(found: Option<Todo>) -> (r: Result<Todo, ApiError>)
    ensures
        found is Some ==> r is Ok && r->Ok_0@ == found->0@,
        found is None ==> r == Err::<Todo, ApiError>(ApiError::NotFound),
{
    match found {
        Some(todo) => Ok(todo),
        None => Err(ApiError::NotFound),
    }
}

/// Turns an insert outcome into the `createTodo` reply: a store failure
/// becomes an `INTERNAL` error.
pub fn create_reply(outcome: Result<Todo, StoreError>) -> (r: Result<Todo, ApiError>)
    ensures
        outcome is Ok ==> r is Ok && r->Ok_0@ == outcome->Ok_0@,
        outcome is Err ==> r == Err::<Todo, ApiError>(ApiError::Internal),
{
    match outcome {
        Ok(todo) => Ok(todo),
        Err(_) => Err(ApiError::Internal),
    }
}

/// Turns a delete outcome into the `deleteTodo` reply: a missing row is a
/// successful `false`, a store failure an `INTERNAL` error.
pub fn delete_reply(outcome: Result<bool, StoreError>) -> (r: Result<bool, ApiError>)
    ensures
        outcome is Ok ==> r is Ok && r->Ok_0 == outcome->Ok_0,
        outcome is Err ==> r == Err::<bool, ApiError>(ApiError::Internal),
{
    match outcome {
        Ok(deleted) => Ok(deleted),
        Err(_) => Err(ApiError::Internal),
    }
}

/// The query root of the resolver layer.
pub struct Query;

impl Query {
    /// `apiVersion`: a pure constant; it never touches storage.
    pub fn api_version() -> (r: &'static str)
        ensures
            r@ == "1.0"@,
    {
        "1.0"
    }

    /// `todos`: every record not yet deleted, in the store's order.
    pub fn todos(store: &TodoStore) -> (r: Result<Vec<Todo>, ApiError>)
        ensures
            r is Ok,
            views_of(r->Ok_0@) == store@.todos,
            views_of(r->Ok_0@).to_multiset() == store@.todos.to_multiset(),
    {
        list_reply(get_all_todos(store))
    }

    /// `todo(id)`: the record with the given id, or a `NOT_FOUND` error.
    pub fn todo(store: &TodoStore, id: i32) -> (r: Result<Todo, ApiError>)
        requires
            store.wf(),
        ensures
            has_id(store@.todos, id as int) ==> r is Ok
                && r->Ok_0@ == record_of(store@.todos, id as int),
            !has_id(store@.todos, id as int) ==> r == Err::<Todo, ApiError>(ApiError::NotFound),
    {
        lookup_reply(get_todo_by_id(store, &id))
    }
}

/// The mutation root of the resolver layer.
pub struct Mutation;

impl Mutation {
    /// `createTodo`: inserts a record with the given title; the store
    /// assigns the id and `completed` starts false.
    pub fn create_todo(store: &mut TodoStore, input: CreateTodoInput) -> (r: Result<Todo, ApiError>)
        requires
            old(store).wf(),
        ensures
            final(store).wf(),
            can_insert(old(store)@) ==> {
                &&& r is Ok
                &&& r->Ok_0@ == inserted_record(old(store)@, input.title@)
                &&& final(store)@ == spec_insert(old(store)@, input.title@)
            },
            !can_insert(old(store)@) ==> r == Err::<Todo, ApiError>(ApiError::Internal)
                && final(store)@ == old(store)@,
    {
        create_reply(create_todo(store, input.title.as_str()))
    }

    /// `updateTodo`: sets `completed` on the record with the given id and
    /// returns the updated record, or a `NOT_FOUND` error.
    pub fn update_todo(store: &mut TodoStore, id: i32, input: UpdateTodoInput) -> (r: Result<
        Todo,
        ApiError,
    >)
        requires
            old(store).wf(),
        ensures
            final(store).wf(),
            has_id(old(store)@.todos, id as int) ==> r is Ok
                && r->Ok_0@ == updated_record(old(store)@, id as int, input.completed)
                && final(store)@ == spec_update(old(store)@, id as int, input.completed),
            !has_id(old(store)@.todos, id as int) ==> r == Err::<Todo, ApiError>(
                ApiError::NotFound,
            ) && final(store)@ == old(store)@,
    {
        lookup_reply(update_todo_by_id(store, &id, &input.completed))
    }

    /// `deleteTodo`: removes the record with the given id; `true` exactly
    /// when a record was removed — a missing id is not an error.
    pub fn delete_todo(store: &mut TodoStore, id: i32) -> (r: Result<bool, ApiError>)
        requires
            old(store).wf(),
        ensures
            final(store).wf(),
            r == Ok::<bool, ApiError>(has_id(old(store)@.todos, id as int)),
            final(store)@ == spec_remove(old(store)@, id as int),
    {
        delete_reply(delete_todo_by_id(store, &id))
    }
}

} // verus!
