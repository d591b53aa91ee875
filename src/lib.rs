//! A todo-list manager's core: tasks, file-backed lists of tasks, and the
//! application state that picks which list a command works on.
//!
//! Reading and writing files, prompting and rendering are left to the
//! caller; this crate decides what every operation does to the data.

pub mod clock;
pub mod config;
pub mod state;
pub mod table;
pub mod text;
pub mod todos;
