//! A verified in-memory backing store: the test double that substitutes for
//! a SQL-backed store behind the same `TodoDao` interface. Its operations
//! refine the store model's transitions exactly.

use vstd::prelude::*;

use crate::clock::current_millis;
use crate::model::{
    lemma_index_of_id_unique, result_view, spec_create, spec_toggle, store_wf, StoreView,
};
use crate::todos::{contains_id, todos_view, toggle_transition, Todo, TodoDao, TodoError, TodoView};

verus! {

/// An in-memory todo store: the records in ascending identity order, and the
/// identity the next creation will receive. Identities start at 1 and are
/// never reused.
pub struct InMemoryTodoDao {
    todos: Vec<Todo>,
    next_id: i64,
}

impl View for InMemoryTodoDao {
    type V = StoreView;

    closed spec fn view(&self) -> StoreView {
        StoreView { todos: todos_view(self.todos@), next_id: self.next_id as int }
    }
}

/// The position of the record carrying `id`, or `None` when no record does.
fn find_by_id(todos: &Vec<Todo>, id: i64) -> (r: Option<usize>)
    ensures
        match r {
            Some(i) => i < todos@.len() && todos_view(todos@)[i as int].id == id as int,
            None => !contains_id(todos_view(todos@), id as int),
        },
{
    let mut i: usize = 0;
    while i < todos.len()
        invariant
            i <= todos@.len(),
            forall|j: int| 0 <= j < i ==> todos_view(todos@)[j].id != id as int,
        decreases todos@.len() - i,
    {
        if todos[i].id == id {
            return Some(i);
        }
        i += 1;
    }
    None
}

impl InMemoryTodoDao {
    /// An empty store; the first created record will carry identity 1.
    pub fn new() -> (r: Self)
        ensures
            r.inv(),
            r@.todos == Seq::<TodoView>::empty(),
            r@.next_id == 1,
    {
        let r = InMemoryTodoDao { todos: Vec::new(), next_id: 1 };
        proof {
            assert(r@.todos =~= Seq::<TodoView>::empty());
        }
        r
    }

    /// A creation is committed unless the identity space is exhausted.
    pub open spec fn can_add(&self) -> bool {
        self@.next_id < i64::MAX
    }
}

impl TodoDao for InMemoryTodoDao {
    open spec fn todos(&self) -> Seq<TodoView> {
        self@.todos
    }

    open spec fn inv(&self) -> bool {
        store_wf(self@)
    }

    fn get_all_todos(&self) -> (r: Result<Vec<Todo>, TodoError>)
        ensures
            r is Ok,
            todos_view(r->Ok_0@) == self@.todos,
    {
        let mut out: Vec<Todo> = Vec::new();
        let mut i: usize = 0;
        while i < self.todos.len()
            invariant
                i <= self.todos@.len(),
                out@.len() == i,
                forall|j: int| 0 <= j < i ==> #[trigger] out@[j]@ == todos_view(self.todos@)[j],
            decreases self.todos@.len() - i,
        {
            let t = &self.todos[i];
            out.push(
                Todo {
                    id: t.id,
                    description: t.description.clone(),
                    completed_at: t.completed_at,
                },
            );
            proof {
                assert(out@[i as int]@ =~= todos_view(self.todos@)[i as int]);
            }
            i += 1;
        }
        proof {
            assert(todos_view(out@) =~= self@.todos);
        }
        Ok(out)
    }

    fn add_todo(&mut self, description: String) -> (r: Result<Todo, TodoError>)
        ensures
            r is Ok <==> old(self).can_add(),
            match r {
                Ok(t) => final(self)@ == spec_create(old(self)@, description@).0 && t@
                    == spec_create(old(self)@, description@).1,
                Err(e) => e is Storage && final(self)@ == old(self)@,
            },
    {
        if self.next_id == i64::MAX {
            return Err(TodoError::Storage);
        }
        let id = self.next_id;
        let todo = Todo { id, description, completed_at: None };
        let ret = Todo { id, description: todo.description.clone(), completed_at: None };
        self.todos.push(todo);
        self.next_id = id + 1;
        proof {
            assert(ret@ =~= spec_create(old(self)@, ret.description@).1);
            assert(self@.todos =~= old(self)@.todos.push(ret@));
            assert(self@ =~= spec_create(old(self)@, ret.description@).0);
        }
        Ok(ret)
    }

    fn toggle_todo(&mut self, id: i64) -> (r: Result<Todo, TodoError>)
        ensures
            r is Ok <==> contains_id(old(self)@.todos, id as int),
            exists|now: int|
                {
                    &&& final(self)@ == #[trigger] spec_toggle(old(self)@, id as int, now).0
                    &&& result_view(r) == spec_toggle(old(self)@, id as int, now).1
                },
    {
        match find_by_id(&self.todos, id) {
            Some(i) => {
                let now = current_millis();
                let updated = toggle_transition(&self.todos[i], now);
                let ret = Todo {
                    id: updated.id,
                    description: updated.description.clone(),
                    completed_at: updated.completed_at,
                };
                proof {
                    assert(contains_id(old(self)@.todos, id as int)) by {
                        assert(old(self)@.todos[i as int].id == id as int);
                    }
                    lemma_index_of_id_unique(old(self)@.todos, id as int);
                    assert(ret@ =~= updated@);
                }
                self.todos.set(i, updated);
                proof {
                    assert(self@.todos =~= old(self)@.todos.update(i as int, ret@));
                    assert(self@ =~= spec_toggle(old(self)@, id as int, now as int).0);
                    assert(result_view(Ok(ret)) == spec_toggle(
                        old(self)@,
                        id as int,
                        now as int,
                    ).1);
                }
                Ok(ret)
            },
            None => {
                proof {
                    assert(spec_toggle(old(self)@, id as int, 0).0 == old(self)@);
                    assert(spec_toggle(old(self)@, id as int, 0).1 == Err::<
                        TodoView,
                        TodoError,
                    >(TodoError::NotFound));
                }
                Err(TodoError::NotFound)
            },
        }
    }
}

} // verus!
