use vstd::prelude::*;

verus! {

/// A task record: the single entity the service stores and serves.
#[derive(Debug)]
pub struct Todo {
    pub id: i32,
    pub title: String,
    pub completed: bool,
}

/// Mathematical image of a `Todo`: an unbounded id, the title's characters,
/// and the completion flag.
#[verifier::ext_equal]
pub ghost struct TodoView {
    pub id: int,
    pub title: Seq<char>,
    pub completed: bool,
}

impl View for Todo {
    type V = TodoView;

    open spec fn view(&self) -> TodoView {
        TodoView { id: self.id as int, title: self.title@, completed: self.completed }
    }
}

impl PartialEq for Todo {
    fn eq(&self, other: &Todo) -> (r: bool) {
        self.id == other.id && self.title == other.title && self.completed == other.completed
    }
}

impl vstd::std_specs::cmp::PartialEqSpecImpl for Todo {
    open spec fn obeys_eq_spec() -> bool {
        true
    }

    open spec fn eq_spec(&self, other: &Todo) -> bool {
        self@ == other@
    }
}

impl Clone for Todo {
    fn clone(&self) -> (r: Self)
        ensures
            r@ == self@,
    {
        Todo { id: self.id, title: self.title.clone(), completed: self.completed }
    }
}

/// Row shape handed to the store on insert: a title only; the store assigns
/// the id and starts `completed` at false.
pub struct NewTodo<'a> {
    pub title: &'a str,
}

/// Argument shape of `createTodo`.
pub struct CreateTodoInput {
    pub title: String,
}

/// Argument shape of `updateTodo`; the target id travels separately.
pub struct UpdateTodoInput {
    pub completed: bool,
}

} // verus!
