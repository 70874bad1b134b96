//! Core of a todo record-keeping service: the `Todo` entity, the `TodoDao`
//! capability interface (list, create, toggle), a verified in-memory backing
//! store, and the state-transition logic that a transactional SQL-backed
//! store runs inside its unit of work.

mod clock;
pub mod laws;
pub mod memory;
pub mod model;
pub mod state;
pub mod todos;
pub mod views;
