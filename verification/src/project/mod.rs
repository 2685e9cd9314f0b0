//! Projects: their records and the rules of the commands that create and
//! change them.

pub mod command;
pub mod sql;
