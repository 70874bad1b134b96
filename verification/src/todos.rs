//! The todo entity and the capability interface of its stores.

use vstd::prelude::*;

verus! {

/// Mathematical model of a single todo record: the identity, the text of the
/// description, and the optional instant (milliseconds since the epoch) at
/// which it was last completed. Absent means incomplete.
#[verifier::ext_equal]
pub struct TodoView {
    pub id: int,
    pub description: Seq<char>,
    pub completed_at: Option<int>,
}

/// A todo record: integer identity assigned by the store, the caller's
/// description, and the completion instant, absent while incomplete.
#[derive(Debug)]
pub struct Todo {
    pub id: i64,
    pub description: String,
    pub completed_at: Option<i64>,
}

impl View for Todo {
    type V = TodoView;

    open spec fn view(&self) -> TodoView {
        TodoView {
            id: self.id as int,
            description: self.description@,
            completed_at: match self.completed_at {
                Some(t) => Some(t as int),
                None => None,
            },
        }
    }
}

impl Todo {
    /// A record is completed exactly when a completion instant is recorded.
    pub fn is_completed(&self) -> (r: bool)
        ensures
            r == (self@.completed_at is Some),
    {
        self.completed_at.is_some()
    }
}

/// How a store operation fails: the targeted record does not exist, or the
/// backing store could not read or durably commit.
#[derive(Clone, Copy, Debug, PartialEq, Eq, Structural)]
pub enum TodoError {
    NotFound,
    Storage,
}

/// The records a sequence of todos stands for.
pub open spec fn todos_view(s: Seq<Todo>) -> Seq<TodoView> {
    s.map_values(|t: Todo| t@)
}

/// Identities are strictly ascending along the sequence, so they are sorted
/// and pairwise distinct.
pub open spec fn ids_ascending(s: Seq<TodoView>) -> bool {
    forall|i: int, j: int| 0 <= i < j < s.len() ==> s[i].id < s[j].id
}

/// Some record in the sequence carries the identity `id`.
pub open spec fn contains_id(s: Seq<TodoView>, id: int) -> bool {
    exists|i: int| 0 <= i < s.len() && s[i].id == id
}

/// The position of the record carrying `id`; meaningful when `contains_id`
/// holds and identities are pairwise distinct.
pub open spec fn index_of_id(s: Seq<TodoView>, id: int) -> int {
    choose|i: int| 0 <= i < s.len() && s[i].id == id
}

/// One step of the per-record state machine: a completed record becomes
/// incomplete, an incomplete record becomes completed at the instant `now`.
/// Identity and description never change.
pub open spec fn spec_toggle_record(t: TodoView, now: int) -> TodoView {
    TodoView {
        id: t.id,
        description: t.description,
        completed_at: if t.completed_at is Some {
            None
        } else {
            Some(now)
        },
    }
}

/// Flip the completion state of a record, completing it at the instant `now`
/// when it was incomplete. This is the read-modify-write computation that a
/// transactional store runs between its read and its commit; it builds the
/// record returned to the caller without a second read of the store.
pub fn toggle_transition(todo: &Todo, now: i64) -> (r: Todo)
    ensures
        r@ == spec_toggle_record(todo@, now as int),
{
    let r = Todo {
        id: todo.id,
        description: todo.description.clone(),
        completed_at: match todo.completed_at {
            Some(_) => None,
            None => Some(now),
        },
    };
    proof {
        assert(r@ =~= spec_toggle_record(todo@, now as int));
    }
    r
}

/// The capability interface every backing store of todos provides: list,
/// create, toggle. Callers hold a `TodoDao`-typed handle and never talk to
/// the backing medium directly; a test double substitutes for a real store
/// by construction injection.
pub trait TodoDao: Sized {
    /// The records the store holds, in the order `get_all_todos` returns them.
    spec fn todos(&self) -> Seq<TodoView>;

    /// The store's internal well-formedness; constructors establish it and
    /// every operation preserves it.
    spec fn inv(&self) -> bool;

    /// Return every record, ordered by ascending identity — stable and
    /// deterministic, regardless of creation or completion order. An empty
    /// store yields an empty sequence. A failure to read is a storage
    /// failure, never "not found".
    fn get_all_todos(&self) -> (r: Result<Vec<Todo>, TodoError>)
        requires
            self.inv(),
        ensures
            match r {
                Ok(v) => todos_view(v@) == self.todos() && ids_ascending(self.todos()),
                Err(e) => e is Storage,
            },
    ;

    /// Persist a new record with the given description and no completion
    /// instant, under a fresh identity larger than every identity the store
    /// already holds. The new record is appended to the record sequence and
    /// returned. A failure to durably commit is a storage failure and leaves
    /// the store unchanged.
    fn add_todo(&mut self, description: String) -> (r: Result<Todo, TodoError>)
        requires
            old(self).inv(),
        ensures
            final(self).inv(),
            match r {
                Ok(t) => {
                    &&& t@.description == description@
                    &&& t@.completed_at is None
                    &&& forall|i: int|
                        0 <= i < old(self).todos().len() ==> old(self).todos()[i].id < t@.id
                    &&& final(self).todos() == old(self).todos().push(t@)
                },
                Err(e) => e is Storage && final(self).todos() == old(self).todos(),
            },
    ;

    /// Flip the completion state of the record identified by `id` and return
    /// the record's new state: completing it records an instant, uncompleting
    /// it clears the instant; identity and description are untouched, and so
    /// is every other record. Fails with `NotFound` exactly when no record
    /// carries `id`; a storage failure leaves the store unchanged. The
    /// operation is all-or-nothing: no partially applied state is ever
    /// visible.
    fn toggle_todo(&mut self, id: i64) -> (r: Result<Todo, TodoError>)
        requires
            old(self).inv(),
        ensures
            final(self).inv(),
            match r {
                Ok(t) => {
                    let i = index_of_id(old(self).todos(), id as int);
                    &&& contains_id(old(self).todos(), id as int)
                    &&& t@ == spec_toggle_record(
                        old(self).todos()[i],
                        t@.completed_at->Some_0,
                    )
                    &&& final(self).todos() == old(self).todos().update(i, t@)
                },
                Err(TodoError::NotFound) => !contains_id(old(self).todos(), id as int)
                    && final(self).todos() == old(self).todos(),
                Err(TodoError::Storage) => final(self).todos() == old(self).todos(),
            },
    ;
}

} // verus!
