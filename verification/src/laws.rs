use vstd::prelude::*;

use crate::store::{
    can_insert, has_id, ids_unique, index_of_id, inserted_record, lemma_row_at, record_of,
    spec_insert, spec_remove, spec_update, store_wf, updated_record, StoreView,
};

verus! {

/// Create-then-read: a successful creation yields a record carrying the
/// given title with `completed` false, the store stays well formed, and a
/// read of the assigned id from the new store finds exactly that record.
pub proof fn lemma_create_then_read(v: StoreView, title: Seq<char>)
    requires
        store_wf(v),
        can_insert(v),
    ensures
        inserted_record(v, title).title == title,
        !inserted_record(v, title).completed,
        store_wf(spec_insert(v, title)),
        has_id(spec_insert(v, title).todos, inserted_record(v, title).id),
        record_of(spec_insert(v, title).todos, inserted_record(v, title).id) == inserted_record(
            v,
            title,
        ),
{
    let s1 = spec_insert(v, title).todos;
    let n = v.todos.len() as int;
    assert forall|i: int, j: int|
        0 <= i < s1.len() && 0 <= j < s1.len() && i != j implies s1[i].id != s1[j].id by {
        if i < n && j < n {
            assert(s1[i] == v.todos[i] && s1[j] == v.todos[j]);
        }
    }
    assert(store_wf(spec_insert(v, title)));
    lemma_row_at(s1, n);
}

/// Consecutive creations assign strictly distinct ids: the second insert's
/// record never reuses the id the first one was given.
pub proof fn lemma_create_assigns_fresh_ids(v: StoreView, t1: Seq<char>, t2: Seq<char>)
    requires
        store_wf(v),
        can_insert(v),
        can_insert(spec_insert(v, t1)),
    ensures
        inserted_record(spec_insert(v, t1), t2).id != inserted_record(v, t1).id,
{
}

/// Update is targeted: it yields a record with the requested flag, the same
/// id, and the title the record was created with, and it leaves every other
/// record exactly as it was.
pub proof fn lemma_update_targeted(v: StoreView, id: int, c: bool)
    requires
        store_wf(v),
        has_id(v.todos, id),
    ensures
        updated_record(v, id, c).id == id,
        updated_record(v, id, c).completed == c,
        updated_record(v, id, c).title == record_of(v.todos, id).title,
        store_wf(spec_update(v, id, c)),
        spec_update(v, id, c).todos.len() == v.todos.len(),
        has_id(spec_update(v, id, c).todos, id),
        record_of(spec_update(v, id, c).todos, id) == updated_record(v, id, c),
        forall|j: int|
            0 <= j < v.todos.len() && v.todos[j].id != id ==> spec_update(v, id, c).todos[j]
                == v.todos[j],
{
    let k = index_of_id(v.todos, id);
    assert(0 <= k < v.todos.len() && v.todos[k].id == id);
    let s1 = spec_update(v, id, c).todos;
    assert forall|i: int| 0 <= i < s1.len() implies s1[i].id == v.todos[i].id by {
        if i != k {
            assert(s1[i] == v.todos[i]);
        }
    }
    assert(store_wf(spec_update(v, id, c)));
    lemma_row_at(s1, k);
}

/// Update idempotence: applying the same update twice yields the same
/// record and the same store as applying it once.
pub proof fn lemma_update_idempotent(v: StoreView, id: int, c: bool)
    requires
        store_wf(v),
    ensures
        spec_update(spec_update(v, id, c), id, c) == spec_update(v, id, c),
        has_id(v.todos, id) ==> updated_record(spec_update(v, id, c), id, c) == updated_record(
            v,
            id,
            c,
        ),
{
    if has_id(v.todos, id) {
        lemma_update_targeted(v, id, c);
        let v1 = spec_update(v, id, c);
        let k = index_of_id(v.todos, id);
        assert(0 <= k < v.todos.len() && v.todos[k].id == id);
        assert(v1.todos[k] == updated_record(v, id, c));
        lemma_row_at(v1.todos, k);
        assert(updated_record(v1, id, c) =~= updated_record(v, id, c));
        assert(v1.todos.update(k, updated_record(v1, id, c)) =~= v1.todos);
        assert(spec_update(v1, id, c) =~= v1);
    }
}

/// Delete-then-read: after a successful delete of an id no record carries
/// it any more — a read finds nothing and a second delete removes nothing —
/// and the store stays well formed.
pub proof fn lemma_delete_then_read(v: StoreView, id: int)
    requires
        store_wf(v),
        has_id(v.todos, id),
    ensures
        store_wf(spec_remove(v, id)),
        spec_remove(v, id).todos.len() == v.todos.len() - 1,
        !has_id(spec_remove(v, id).todos, id),
        spec_remove(spec_remove(v, id), id) == spec_remove(v, id),
{
    let k = index_of_id(v.todos, id);
    assert(0 <= k < v.todos.len() && v.todos[k].id == id);
    let s1 = spec_remove(v, id).todos;
    assert forall|i: int| 0 <= i < s1.len() implies s1[i] == v.todos[if i < k {
        i
    } else {
        i + 1
    }] by {}
    assert forall|i: int| 0 <= i < s1.len() implies s1[i].id != id by {
        let j: int = if i < k { i } else { i + 1 };
        assert(s1[i] == v.todos[j]);
        assert(j != k);
    }
    assert forall|i: int, j: int|
        0 <= i < s1.len() && 0 <= j < s1.len() && i != j implies s1[i].id != s1[j].id by {
        let i0: int = if i < k { i } else { i + 1 };
        let j0: int = if j < k { j } else { j + 1 };
        assert(s1[i] == v.todos[i0] && s1[j] == v.todos[j0]);
    }
    assert(store_wf(spec_remove(v, id)));
}

} // verus!
