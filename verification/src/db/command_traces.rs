//! The status of a command invocation, under the module path of the first
//! schema of the command trace table.
pub use crate::db::traces::CommandStatus;
