use vstd::prelude::*;

use crate::models::{NewTodo, Todo, TodoView};

verus! {

/// Outcome categories of the storage adapter, apart from success:
/// a missing row, or a failure of the store itself.
#[derive(Clone, Copy, PartialEq, Eq, Structural, Debug)]
pub enum StoreError {
    NotFound,
    Infra,
}

/// Mathematical image of the whole store: the rows, in insertion order,
/// and the id the next insert will be assigned.
#[verifier::ext_equal]
pub ghost struct StoreView {
    pub todos: Seq<TodoView>,
    pub next_id: int,
}

/// The `todos` table: rows in insertion order, plus the autoincrement cursor.
pub struct TodoStore {
    todos: Vec<Todo>,
    next_id: i32,
}

/// The rows of an executable vector, as their mathematical images.
pub open spec fn views_of(s: Seq<Todo>) -> Seq<TodoView> {
    s.map_values(|t: Todo| t@)
}

/// No two rows share an id.
pub open spec fn ids_unique(s: Seq<TodoView>) -> bool {
    forall|i: int, j: int|
        0 <= i < s.len() && 0 <= j < s.len() && i != j ==> s[i].id != s[j].id
}

/// Some row carries the given id.
pub open spec fn has_id(s: Seq<TodoView>, id: int) -> bool {
    exists|i: int| 0 <= i < s.len() && s[i].id == id
}

/// The position of the row with the given id (meaningful when `has_id` holds
/// and ids are unique).
pub open spec fn index_of_id(s: Seq<TodoView>, id: int) -> int {
    choose|i: int| 0 <= i < s.len() && s[i].id == id
}

/// The row with the given id.
pub open spec fn record_of(s: Seq<TodoView>, id: int) -> TodoView {
    s[index_of_id(s, id)]
}

/// Well-formedness of a store: unique ids, every id already assigned lies
/// below the cursor, and the cursor stays in the id column's range.
pub open spec fn store_wf(v: StoreView) -> bool {
    &&& ids_unique(v.todos)
    &&& forall|i: int| 0 <= i < v.todos.len() ==> 1 <= #[trigger] v.todos[i].id < v.next_id
    &&& 1 <= v.next_id <= i32::MAX
}

/// An insert can still be assigned a fresh id.
pub open spec fn can_insert(v: StoreView) -> bool {
    v.next_id < i32::MAX
}

/// The row a successful insert creates: the cursor as id, the given title,
/// not yet completed.
pub open spec fn inserted_record(v: StoreView, title: Seq<char>) -> TodoView {
    TodoView { id: v.next_id, title: title, completed: false }
}

/// The store after a successful insert.
pub open spec fn spec_insert(v: StoreView, title: Seq<char>) -> StoreView {
    StoreView { todos: v.todos.push(inserted_record(v, title)), next_id: v.next_id + 1 }
}

/// The row an update of the given id yields: same id and title, the new flag.
pub open spec fn updated_record(v: StoreView, id: int, completed: bool) -> TodoView {
    TodoView { id: id, title: record_of(v.todos, id).title, completed: completed }
}

/// The store after setting `completed` on the row with the given id;
/// unchanged when no such row exists.
pub open spec fn spec_update(v: StoreView, id: int, completed: bool) -> StoreView {
    if has_id(v.todos, id) {
        StoreView {
            todos: v.todos.update(index_of_id(v.todos, id), updated_record(v, id, completed)),
            next_id: v.next_id,
        }
    } else {
        v
    }
}

/// The store after deleting the row with the given id; unchanged when no
/// such row exists.
pub open spec fn spec_remove(v: StoreView, id: int) -> StoreView {
    if has_id(v.todos, id) {
        StoreView { todos: v.todos.remove(index_of_id(v.todos, id)), next_id: v.next_id }
    } else {
        v
    }
}

/// In a table with unique ids, the row at position `i` is the one that
/// `index_of_id` and `record_of` name for its id.
pub proof fn lemma_row_at(s: Seq<TodoView>, i: int)
    requires
        ids_unique(s),
        0 <= i < s.len(),
    ensures
        has_id(s, s[i].id),
        index_of_id(s, s[i].id) == i,
        record_of(s, s[i].id) == s[i],
{
    assert(0 <= i < s.len() && s[i].id == s[i].id);
    let j = index_of_id(s, s[i].id);
    assert(0 <= j < s.len() && s[j].id == s[i].id);
}

impl View for TodoStore {
    type V = StoreView;

    closed spec fn view(&self) -> StoreView {
        StoreView { todos: views_of(self.todos@), next_id: self.next_id as int }
    }
}

impl TodoStore {
    /// Whether this store is well formed; every adapter operation keeps it so.
    pub open spec fn wf(&self) -> bool {
        store_wf(self@)
    }

    /// An empty table; ids will be assigned from 1 up.
    pub fn new() -> (s: TodoStore)
        ensures
            s.wf(),
            s@.todos == Seq::<TodoView>::empty(),
            s@.next_id == 1,
    {
        let s = TodoStore { todos: Vec::new(), next_id: 1 };
        proof {
            assert(s@.todos =~= Seq::<TodoView>::empty());
        }
        s
    }
}

/// Inserts a row with the given title and `completed = false`; the store
/// assigns the id. Fails only when the id column is exhausted.
pub fn create_todo(store: &mut TodoStore, title: &str) -> (r: Result<Todo, StoreError>)
    requires
        old(store).wf(),
    ensures
        final(store).wf(),
        can_insert(old(store)@) ==> {
            &&& r is Ok
            &&& r->Ok_0@ == inserted_record(old(store)@, title@)
            &&& final(store)@ == spec_insert(old(store)@, title@)
        },
        !can_insert(old(store)@) ==> r == Err::<Todo, StoreError>(StoreError::Infra)
            && final(store)@ == old(store)@,
{
    let new_todo = NewTodo { title };
    if store.next_id == i32::MAX {
        return Err(StoreError::Infra);
    }
    let row = Todo {
        id: store.next_id,
        title: String::from_str(new_todo.title),
        completed: false,
    };
    let returned = row.clone();
    store.todos.push(row);
    store.next_id = store.next_id + 1;
    proof {
        assert(final(store)@.todos =~= spec_insert(old(store)@, title@).todos);
        assert(final(store)@ =~= spec_insert(old(store)@, title@));
    }
    Ok(returned)
}

/// Returns every row, in the store's insertion order. The in-memory table
/// cannot fail an unordered select, so the result is always `Ok`.
pub fn get_all_todos(store: &TodoStore) -> (r: Result<Vec<Todo>, StoreError>)
    ensures
        r is Ok,
        views_of(r->Ok_0@) == store@.todos,
{
    let n = store.todos.len();
    let mut out: Vec<Todo> = Vec::new();
    let mut i: usize = 0;
    while i < n
        invariant
            n == store@.todos.len(),
            0 <= i <= n,
            out@.len() == i,
            forall|k: int| 0 <= k < i ==> #[trigger] out@[k]@ == store@.todos[k],
        decreases n - i,
    {
        out.push(store.todos[i].clone());
        i = i + 1;
    }
    proof {
        assert(views_of(out@) =~= store@.todos);
    }
    Ok(out)
}

/// Returns the row with the given id, or `None` when there is none. An
/// infrastructure failure would also collapse to `None`; the in-memory
/// table cannot produce one.
pub fn get_todo_by_id(store: &TodoStore, id: &i32) -> (r: Option<Todo>)
    requires
        store.wf(),
    ensures
        match r {
            Some(t) => has_id(store@.todos, *id as int)
                && t@ == record_of(store@.todos, *id as int),
            None => !has_id(store@.todos, *id as int),
        },
{
    let n = store.todos.len();
    let mut i: usize = 0;
    while i < n
        invariant
            store.wf(),
            n == store@.todos.len(),
            0 <= i <= n,
            forall|j: int| 0 <= j < i ==> #[trigger] store@.todos[j].id != *id as int,
        decreases n - i,
    {
        let row = store.todos[i].clone();
        if row.id == *id {
            proof {
                lemma_row_at(store@.todos, i as int);
            }
            return Some(row);
        }
        i = i + 1;
    }
    None
}

/// Sets the `completed` flag of the row with the given id and returns the
/// updated row; `None` when there is no such row (an infrastructure failure
/// would also collapse to `None`; the in-memory table cannot produce one).
pub fn update_todo_by_id(store: &mut TodoStore, id: &i32, completed: &bool) -> (r: Option<Todo>)
    requires
        old(store).wf(),
    ensures
        final(store).wf(),
        match r {
            Some(t) => has_id(old(store)@.todos, *id as int)
                && t@ == updated_record(old(store)@, *id as int, *completed)
                && final(store)@ == spec_update(old(store)@, *id as int, *completed),
            None => !has_id(old(store)@.todos, *id as int) && final(store)@ == old(store)@,
        },
{
    let n = store.todos.len();
    let mut i: usize = 0;
    while i < n
        invariant
            store.wf(),
            store@ == old(store)@,
            n == store@.todos.len(),
            0 <= i <= n,
            forall|j: int| 0 <= j < i ==> #[trigger] store@.todos[j].id != *id as int,
        decreases n - i,
    {
        if store.todos[i].id == *id {
            proof {
                lemma_row_at(store@.todos, i as int);
            }
            let mut row = store.todos[i].clone();
            row.completed = *completed;
            let returned = row.clone();
            store.todos.set(i, row);
            proof {
                assert(final(store)@.todos =~=
                    spec_update(old(store)@, *id as int, *completed).todos);
                assert(final(store)@ =~= spec_update(old(store)@, *id as int, *completed));
            }
            return Some(returned);
        }
        i = i + 1;
    }
    None
}

/// Deletes the row with the given id; `Ok(true)` exactly when a row was
/// removed. The in-memory table cannot fail, so the result is always `Ok`.
pub fn delete_todo_by_id(store: &mut TodoStore, id: &i32) -> (r: Result<bool, StoreError>)
    requires
        old(store).wf(),
    ensures
        final(store).wf(),
        r == Ok::<bool, StoreError>(has_id(old(store)@.todos, *id as int)),
        final(store)@ == spec_remove(old(store)@, *id as int),
{
    let n = store.todos.len();
    let mut i: usize = 0;
    while i < n
        invariant
            store.wf(),
            store@ == old(store)@,
            n == store@.todos.len(),
            0 <= i <= n,
            forall|j: int| 0 <= j < i ==> #[trigger] store@.todos[j].id != *id as int,
        decreases n - i,
    {
        if store.todos[i].id == *id {
            proof {
                lemma_row_at(store@.todos, i as int);
            }
            store.todos.remove(i);
            proof {
                assert(final(store)@.todos =~= spec_remove(old(store)@, *id as int).todos);
                assert(final(store)@ =~= spec_remove(old(store)@, *id as int));
            }
            return Ok(true);
        }
        i = i + 1;
    }
    Ok(false)
}

} // verus!
