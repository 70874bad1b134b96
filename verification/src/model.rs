//! Mathematical model of a todo store: the abstract state and the create and
//! toggle transitions. The verified in-memory store refines this model, and
//! the laws about sequences of operations are stated and proved over it.

use vstd::prelude::*;

use crate::todos::{
    contains_id, ids_ascending, index_of_id, spec_toggle_record, Todo, TodoError, TodoView,
};

verus! {

/// Abstract state of a store: the records it holds, in listing order, and
/// the identity the next creation will be assigned.
#[verifier::ext_equal]
pub struct StoreView {
    pub todos: Seq<TodoView>,
    pub next_id: int,
}

/// Well-formedness of a store state: identities start at 1, ascend strictly
/// along the sequence (so they are sorted and pairwise distinct), and every
/// identity already assigned is below the next one to be assigned.
pub open spec fn store_wf(s: StoreView) -> bool {
    &&& 1 <= s.next_id
    &&& ids_ascending(s.todos)
    &&& forall|i: int| 0 <= i < s.todos.len() ==> 1 <= #[trigger] s.todos[i].id < s.next_id
}

/// The create transition: append a new incomplete record under the next
/// identity, and advance the identity counter. Returns the new state and the
/// new record.
pub open spec fn spec_create(s: StoreView, description: Seq<char>) -> (StoreView, TodoView) {
    let t = TodoView { id: s.next_id, description, completed_at: None };
    (StoreView { todos: s.todos.push(t), next_id: s.next_id + 1 }, t)
}

/// The toggle transition: flip the completion state of the record carrying
/// `id`, recording the instant `now` when it completes, and return the new
/// state together with the record's new value; when no record carries `id`,
/// leave the state unchanged and fail with `NotFound`.
pub open spec fn spec_toggle(s: StoreView, id: int, now: int) -> (
    StoreView,
    Result<TodoView, TodoError>,
) {
    if contains_id(s.todos, id) {
        let i = index_of_id(s.todos, id);
        let t = spec_toggle_record(s.todos[i], now);
        (StoreView { todos: s.todos.update(i, t), next_id: s.next_id }, Ok(t))
    } else {
        (s, Err(TodoError::NotFound))
    }
}

/// The model-level value of an operation's outcome.
pub open spec fn result_view(r: Result<Todo, TodoError>) -> Result<TodoView, TodoError> {
    match r {
        Ok(t) => Ok(t@),
        Err(e) => Err(e),
    }
}

/// In a sequence with strictly ascending identities, the position of a
/// carried identity is unique, so `index_of_id` finds every occurrence.
pub proof fn lemma_index_of_id_unique(s: Seq<TodoView>, id: int)
    requires
        ids_ascending(s),
        contains_id(s, id),
    ensures
        0 <= index_of_id(s, id) < s.len(),
        s[index_of_id(s, id)].id == id,
        forall|i: int| 0 <= i < s.len() && s[i].id == id ==> i == index_of_id(s, id),
{
    let k = index_of_id(s, id);
    assert(0 <= k < s.len() && s[k].id == id) by {
        let w = choose|i: int| 0 <= i < s.len() && s[i].id == id;
        assert(0 <= w < s.len() && s[w].id == id);
    }
    assert forall|i: int| 0 <= i < s.len() && s[i].id == id implies i == k by {
        if i < k {
            assert(s[i].id < s[k].id);
        } else if k < i {
            assert(s[k].id < s[i].id);
        }
    }
}

} // verus!
