//! A project-scoped hub of named shell commands: the records, the ordered
//! store that holds them, the table that presents them and the decisions of
//! the command-line front end.

pub mod record;
pub mod store;
pub mod present;
pub mod dispatch;
pub mod persist;
