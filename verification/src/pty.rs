//! The pseudo-terminal core: transport, session, registry and output pump.

pub mod creation;
pub mod cwd;
pub mod error;
pub mod id;
pub mod manager;
pub mod platform;
pub mod pump;
pub mod session;
pub mod spawn;
pub mod terminfo;
pub mod unix_pty;
