//! The values handed to the rendering layer, and the form a creation request
//! carries. Rendering itself is an external collaborator: these types only
//! say which records an outcome presents.

use vstd::prelude::*;

use crate::todos::Todo;

verus! {

/// The whole record set, as the landing page presents it.
pub struct Home(pub Vec<Todo>);

/// The record a creation returned.
pub struct AddedTodo(pub Todo);

/// The record a toggle returned, in its new state.
pub struct ToggledTodo(pub Todo);

/// A creation request as the routing layer receives it: the description of
/// the record to create.
#[derive(Debug)]
pub struct AddTodoForm {
    pub description: String,
}

} // verus!
