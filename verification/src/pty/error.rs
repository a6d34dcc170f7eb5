//! Failures of the pseudo-terminal core.

use vstd::prelude::*;

verus! {

/// One step of the protocol by which a pseudo-terminal is built and a child
/// attached to it, in the order in which the steps run.
#[derive(Clone, Copy, PartialEq, Eq, Structural, Debug)]
pub enum Step {
    /// Allocate the master device.
    OpenMaster,
    /// Grant access to the paired slave device.
    GrantSlave,
    /// Unlock the slave device.
    UnlockSlave,
    /// Resolve the slave device's path.
    SlaveName,
    /// Program the window size on the master.
    SetWindowSize,
    /// Read the master's status flags.
    GetFlags,
    /// Write the flags back with the non-blocking bit set.
    SetFlags,
    /// Open the slave device in the parent.
    OpenSlave,
    /// Start the child on the slave device.
    Spawn,
    /// Close the parent's slave descriptor.
    CloseSlave,
}

/// A step by which the master descriptor is duplicated for a reader.
#[derive(Clone, Copy, PartialEq, Eq, Structural, Debug)]
pub enum CloneStep {
    /// Duplicate the master descriptor.
    Duplicate,
    /// Read the duplicate's status flags.
    GetFlags,
    /// Write the flags back with the non-blocking bit set.
    SetFlags,
}

/// Why an operation of the pseudo-terminal core failed.
#[derive(Clone, Copy, PartialEq, Eq, Structural, Debug)]
pub enum PtyError {
    /// A system call of the construction protocol failed at `step`.
    Allocation { step: Step, errno: i32 },
    /// The child could not be executed.
    Spawn { errno: i32 },
    /// The master descriptor could not be duplicated for a reader.
    Reader { stage: CloneStep, errno: i32 },
    /// No live session has the identifier.
    NotFound,
    /// A write to a live session failed.
    Write { errno: i32 },
    /// A resize of a live session failed.
    Resize { errno: i32 },
    /// The identifier generator produced an identifier that was issued before.
    IdCollision,
    /// The text is no session identifier.
    InvalidId,
    /// The creation has not ended: requests of it remain.
    CreationPending,
    /// The host offers no way to look up a process's working directory.
    Unsupported,
    /// The working-directory probe could not be made.
    ProbeFailed { errno: i32 },
    /// The process-introspection utility reported failure.
    ProbeExit,
    /// The output of the working-directory probe cannot be interpreted.
    ProbeParse,
}

impl PtyError {
    /// The text of the message that describes `self`.
    pub open spec fn spec_message(self) -> Seq<char> {
        match self {
            PtyError::Allocation { step, .. } => match step {
                Step::OpenMaster => "Failed to create PTY master"@,
                Step::GrantSlave => "grantpt failed"@,
                Step::UnlockSlave => "unlockpt failed"@,
                Step::SlaveName => "ptsname failed"@,
                Step::SetWindowSize => "ioctl TIOCSWINSZ failed"@,
                Step::GetFlags | Step::SetFlags => "Failed to set non-blocking mode on PTY master"@,
                Step::OpenSlave => "Failed to open slave"@,
                Step::Spawn => "Failed to spawn shell"@,
                Step::CloseSlave => "Failed to close slave"@,
            },
            PtyError::Spawn { .. } => "Failed to spawn shell"@,
            PtyError::Reader { stage, .. } => match stage {
                CloneStep::Duplicate => "Failed to dup master fd"@,
                _ => "Failed to set non-blocking mode on duplicated fd"@,
            },
            PtyError::NotFound => "Session not found"@,
            PtyError::Write { .. } => "Failed to write to PTY"@,
            PtyError::Resize { .. } => "ioctl TIOCSWINSZ failed"@,
            PtyError::IdCollision => "Session identifier already issued"@,
            PtyError::InvalidId => "Invalid session identifier"@,
            PtyError::CreationPending => "Session creation has not ended"@,
            PtyError::Unsupported => "Getting process CWD is not supported on this platform"@,
            PtyError::ProbeFailed { .. } => "Failed to read the process working directory"@,
            PtyError::ProbeExit => "lsof command failed"@,
            PtyError::ProbeParse => "Could not find cwd in lsof output"@,
        }
    }

    /// The operating system's error code that `self` carries, if any.
    pub open spec fn spec_errno(self) -> Option<i32> {
        match self {
            PtyError::Allocation { errno, .. } => Some(errno),
            PtyError::Spawn { errno } => Some(errno),
            PtyError::Reader { errno, .. } => Some(errno),
            PtyError::Write { errno } => Some(errno),
            PtyError::Resize { errno } => Some(errno),
            PtyError::ProbeFailed { errno } => Some(errno),
            _ => None,
        }
    }

    /// A short message that describes the failure.
    pub fn message(&self) -> (out: &'static str)
        ensures
            out@ == self.spec_message(),
    {
        match self {
            PtyError::Allocation { step, .. } => match step {
                Step::OpenMaster => "Failed to create PTY master",
                Step::GrantSlave => "grantpt failed",
                Step::UnlockSlave => "unlockpt failed",
                Step::SlaveName => "ptsname failed",
                Step::SetWindowSize => "ioctl TIOCSWINSZ failed",
                Step::GetFlags | Step::SetFlags => "Failed to set non-blocking mode on PTY master",
                Step::OpenSlave => "Failed to open slave",
                Step::Spawn => "Failed to spawn shell",
                Step::CloseSlave => "Failed to close slave",
            },
            PtyError::Spawn { .. } => "Failed to spawn shell",
            PtyError::Reader { stage, .. } => match stage {
                CloneStep::Duplicate => "Failed to dup master fd",
                _ => "Failed to set non-blocking mode on duplicated fd",
            },
            PtyError::NotFound => "Session not found",
            PtyError::Write { .. } => "Failed to write to PTY",
            PtyError::Resize { .. } => "ioctl TIOCSWINSZ failed",
            PtyError::IdCollision => "Session identifier already issued",
            PtyError::InvalidId => "Invalid session identifier",
            PtyError::CreationPending => "Session creation has not ended",
            PtyError::Unsupported => "Getting process CWD is not supported on this platform",
            PtyError::ProbeFailed { .. } => "Failed to read the process working directory",
            PtyError::ProbeExit => "lsof command failed",
            PtyError::ProbeParse => "Could not find cwd in lsof output",
        }
    }

    /// The operating system's error code, where the failure came from a
    /// system call.
    pub fn errno(&self) -> (out: Option<i32>)
        ensures
            out == self.spec_errno(),
    {
        match self {
            PtyError::Allocation { errno, .. } => Some(*errno),
            PtyError::Spawn { errno } => Some(*errno),
            PtyError::Reader { errno, .. } => Some(*errno),
            PtyError::Write { errno } => Some(*errno),
            PtyError::Resize { errno } => Some(*errno),
            PtyError::ProbeFailed { errno } => Some(*errno),
            _ => None,
        }
    }
}

} // verus!
