//! The application's shared state: the store handle, injected at
//! construction so that the backend stays substitutable and caller-owned.

use vstd::prelude::*;

use crate::todos::TodoDao;

verus! {

/// What the routing layer holds: a handle to the one store the application
/// uses. The store is chosen by whoever constructs the state, never by the
/// operations themselves.
pub struct AppState<T: TodoDao> {
    pub dao: T,
}

impl<T: TodoDao> AppState<T> {
    /// Wrap the given store handle, unchanged.
    pub fn new(dao: T) -> (r: Self)
        ensures
            r.dao == dao,
    {
        Self { dao }
    }
}

} // verus!
