//! Background tasks: what a task is, how one is enriched and stored, and how
//! an agent works through the tasks addressed to it.

pub mod enrich;
pub mod list;
pub mod store;
pub mod task;
pub mod tool;
