//! Sans-I/O core of a terminal application: a registry of pseudo-terminal
//! sessions, the protocol by which a pseudo-terminal is allocated and a child
//! attached to it, the output pump's decisions, and the text formats the
//! application reads. The host performs the system calls; every decision is
//! taken here.

pub mod commands;
pub mod pty;
pub mod ssh_config;
pub mod text;
