//! The kind of host that the library runs on.

use vstd::prelude::*;

verus! {

/// The kind of host, chosen once at startup.
#[derive(Clone, Copy, PartialEq, Eq, Structural, Debug)]
pub enum Platform {
    /// A Linux host: the kernel exposes `/proc/<pid>/cwd`.
    Linux,
    /// A macOS host: working directories are asked of `lsof`.
    MacOs,
    /// A Windows host.
    Windows,
    /// Any other host.
    Other,
}

} // verus!
