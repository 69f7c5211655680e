//! A personal task list: an ordered collection of records that are listed,
//! added, completed and deleted by their 1-based position.
//!
//! [`store`] holds the list and its operations, [`args`] reads a command
//! line and dispatches it, [`model`] says what every operation does in
//! terms of mathematical sequences, and [`laws`] proves what follows.

pub mod args;
pub mod error;
pub mod laws;
pub mod model;
pub mod store;
pub mod table;
pub mod task;

pub use crate::args::parse_id;
pub use crate::args::process_args;
pub use crate::args::IdText;
pub use crate::error::TodoError;
pub use crate::store::create_todo;
pub use crate::store::delete_todo;
pub use crate::store::get_all_todos;
pub use crate::store::update_todo;
pub use crate::store::Persisted;
pub use crate::store::TodoStorage;
pub use crate::table::custom_cell;
pub use crate::task::Status;
pub use crate::task::StatusColor;
pub use crate::task::Todo;
pub use crate::task::TodoView;
