pub mod laws;
pub mod models;
pub mod resolver;
pub mod store;

pub use models::{CreateTodoInput, NewTodo, Todo, UpdateTodoInput};
pub use resolver::{ApiError, Mutation, Query};
pub use store::{
    create_todo, delete_todo_by_id, get_all_todos, get_todo_by_id, update_todo_by_id, StoreError,
    TodoStore,
};
