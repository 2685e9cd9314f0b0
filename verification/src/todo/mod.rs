//! Todos: their records, their grouping for display and the rules of the
//! commands that create, change and select them.

pub mod command;
pub mod filter;
pub mod group;
pub mod group_laws;
pub mod order;
pub mod sql;
