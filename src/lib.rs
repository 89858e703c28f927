//! Task-lifecycle core of a single container worker: the task model and its
//! transition table, the task store, the container driver's call protocol
//! and the worker that ties them together.

pub mod driver;
pub mod node;
pub mod pagination;
pub mod store;
pub mod task;
pub mod worker;
