//! The state manager of a small to-do list application.
//!
//! The crate keeps two ordered lists of task records in step: the durable
//! list that is written to the save file, and the list that the window
//! shows. It performs no input or output itself. Every operation takes plain
//! values, and says in its result what the caller has to show, to write and
//! to log.

pub mod events;
pub mod model;
pub mod records;
pub mod store;
pub mod task;
