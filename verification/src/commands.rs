//! The text that the application's commands read and write: file names of
//! session snapshots, the list of shells, and the output of the container
//! tools.

pub mod container_commands;
pub mod session_commands;
pub mod shell_commands;
