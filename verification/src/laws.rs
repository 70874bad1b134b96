//! Laws of the store model: what holds across sequences of operations, proved
//! over the same transitions that the store's contracts are stated with.

use vstd::prelude::*;

use crate::model::{lemma_index_of_id_unique, spec_create, spec_toggle, store_wf, StoreView};
use crate::todos::{contains_id, index_of_id, TodoView};

verus! {

/// The state and the records returned by running one creation per
/// description, in order, from the state `s`.
pub open spec fn run_creates(s: StoreView, descriptions: Seq<Seq<char>>) -> (
    StoreView,
    Seq<TodoView>,
)
    decreases descriptions.len(),
{
    if descriptions.len() <= 0 {
        (s, Seq::<TodoView>::empty())
    } else {
        let (s1, t) = spec_create(s, descriptions.first());
        let (s2, ts) = run_creates(s1, descriptions.drop_first());
        (s2, seq![t] + ts)
    }
}

/// Creations assign consecutive identities, echo each description, and start
/// every record incomplete: the record returned by the `i`-th creation
/// carries `s.next_id + i`, the `i`-th description, and no completion
/// instant, and the counter advances by one per creation.
pub proof fn lemma_run_creates_records(s: StoreView, descriptions: Seq<Seq<char>>)
    ensures
        run_creates(s, descriptions).1.len() == descriptions.len(),
        run_creates(s, descriptions).0.next_id == s.next_id + descriptions.len(),
        forall|i: int|
            0 <= i < descriptions.len() ==> {
                let t = #[trigger] run_creates(s, descriptions).1[i];
                &&& t.id == s.next_id + i
                &&& t.description == descriptions[i]
                &&& t.completed_at is None
            },
    decreases descriptions.len(),
{
    if descriptions.len() > 0 {
        let s1 = spec_create(s, descriptions.first()).0;
        lemma_run_creates_records(s1, descriptions.drop_first());
    }
}

/// Law: however many records are created, from whatever starting state and
/// with whatever descriptions, the identities handed back are pairwise
/// distinct.
pub proof fn lemma_create_ids_distinct(s: StoreView, descriptions: Seq<Seq<char>>)
    ensures
        forall|i: int, j: int|
            0 <= i < j < descriptions.len() ==> #[trigger] run_creates(s, descriptions).1[i].id
                != #[trigger] run_creates(s, descriptions).1[j].id,
{
    lemma_run_creates_records(s, descriptions);
}

/// Law: toggling the same existing record twice in sequence returns a record
/// whose completion state equals the record's state before the first toggle,
/// and restores every record's completion state; only the recorded instant
/// may differ.
pub proof fn lemma_toggle_involution(s: StoreView, id: int, now1: int, now2: int)
    requires
        store_wf(s),
        contains_id(s.todos, id),
    ensures
        ({
            let k = index_of_id(s.todos, id);
            let (s1, r1) = spec_toggle(s, id, now1);
            let (s2, r2) = spec_toggle(s1, id, now2);
            &&& r1 is Ok
            &&& r2 is Ok
            &&& (r1->Ok_0.completed_at is Some) == (s.todos[k].completed_at is None)
            &&& (r2->Ok_0.completed_at is Some) == (s.todos[k].completed_at is Some)
            &&& s2.todos.len() == s.todos.len()
            &&& forall|j: int|
                0 <= j < s.todos.len() ==> {
                    &&& #[trigger] s2.todos[j].id == s.todos[j].id
                    &&& s2.todos[j].description == s.todos[j].description
                    &&& (s2.todos[j].completed_at is Some) == (s.todos[j].completed_at is Some)
                }
        }),
{
    let k = index_of_id(s.todos, id);
    lemma_index_of_id_unique(s.todos, id);
    let s1 = spec_toggle(s, id, now1).0;
    assert(contains_id(s1.todos, id)) by {
        assert(s1.todos[k].id == id);
    }
    lemma_index_of_id_unique(s1.todos, id);
}

/// Law: two toggles of the same existing record, applied in either order,
/// are linearized — each order yields a well-formed state, the two final
/// states agree on every record's identity, description and completion
/// state, and both are the two toggles fully applied, never a partial state.
pub proof fn lemma_toggles_linearize(s: StoreView, id: int, now1: int, now2: int)
    requires
        store_wf(s),
        contains_id(s.todos, id),
    ensures
        ({
            let a = spec_toggle(spec_toggle(s, id, now1).0, id, now2).0;
            let b = spec_toggle(spec_toggle(s, id, now2).0, id, now1).0;
            &&& store_wf(a)
            &&& store_wf(b)
            &&& a.todos.len() == s.todos.len()
            &&& b.todos.len() == s.todos.len()
            &&& forall|j: int|
                0 <= j < s.todos.len() ==> {
                    &&& #[trigger] a.todos[j].id == b.todos[j].id
                    &&& a.todos[j].description == b.todos[j].description
                    &&& (a.todos[j].completed_at is Some) == (b.todos[j].completed_at is Some)
                }
        }),
{
    lemma_toggle_involution(s, id, now1, now2);
    lemma_toggle_involution(s, id, now2, now1);
    let k = index_of_id(s.todos, id);
    lemma_index_of_id_unique(s.todos, id);
    let s1a = spec_toggle(s, id, now1).0;
    assert(contains_id(s1a.todos, id)) by {
        assert(s1a.todos[k].id == id);
    }
    lemma_index_of_id_unique(s1a.todos, id);
    let s1b = spec_toggle(s, id, now2).0;
    assert(contains_id(s1b.todos, id)) by {
        assert(s1b.todos[k].id == id);
    }
    lemma_index_of_id_unique(s1b.todos, id);
}

} // verus!
