//! An in-memory to-do list: tasks with an id, a title and a completion flag,
//! kept in creation order by a `TaskManager`.
pub mod task;
pub mod clock;
pub mod manager;
pub mod laws;
