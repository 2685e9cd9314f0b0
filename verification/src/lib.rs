//! Task and project tracking: the records, the rules that keep the task
//! hierarchy one level deep, the grouping and ordering of tasks for display,
//! and the filters that select them.

pub mod arg;
pub mod config;
pub mod datetime;
pub mod dispatch;
pub mod display;
pub mod error;
pub mod infrastructure;
pub mod project;
pub mod seq_facts;
pub mod text;
pub mod todo;
