//! One session: a transport with its identity and geometry.
//!
//! The session is the sole owner of its transport: a session cannot be
//! copied, and the calls that release its transport are had only by giving
//! the session itself up, which asks the child to terminate and closes the
//! master descriptor.

use vstd::prelude::*;
use crate::pty::unix_pty::{ReaderClone, ReaderCloneState, Reply, Request, UnixPty, WindowSize};

verus! {

/// A session, as contracts see it.
pub struct SessionState {
    pub id: u128,
    pub transport: UnixPty,
    pub cols: u16,
    pub rows: u16,
}

impl SessionState {
    /// The session with another geometry.
    pub open spec fn resized(self, cols: u16, rows: u16) -> SessionState {
        SessionState { cols, rows, ..self }
    }

    /// The call that programs the session's geometry on its transport.
    pub open spec fn resize_request(self) -> Request {
        Request::SetWindowSize {
            fd: self.transport.master_fd,
            size: WindowSize { rows: self.rows, cols: self.cols, xpixel: 0, ypixel: 0 },
        }
    }

    /// The child's process id as an unsigned number, 0 where the transport
    /// has none.
    pub open spec fn child_pid(self) -> u32 {
        if self.transport.child_pid > 0 {
            self.transport.child_pid as u32
        } else {
            0
        }
    }
}

/// A pseudo-terminal session.
#[derive(Debug)]
pub struct PtySession {
    id: u128,
    transport: UnixPty,
    cols: u16,
    rows: u16,
}

impl View for PtySession {
    type V = SessionState;

    closed spec fn view(&self) -> SessionState {
        SessionState { id: self.id, transport: self.transport, cols: self.cols, rows: self.rows }
    }
}

impl PtySession {
    /// The session `id` on `transport`, with a terminal of `cols` columns and
    /// `rows` rows.
    pub fn new(id: u128, transport: UnixPty, cols: u16, rows: u16) -> (out: PtySession)
        ensures
            out@ == (SessionState { id, transport, cols, rows }),
    {
        PtySession { id, transport, cols, rows }
    }

    /// The session's identifier.
    pub fn id(&self) -> (out: u128)
        ensures
            out == self@.id,
    {
        self.id
    }

    /// The numbers of the session's transport, for the registry's own use.
    pub(crate) fn transport(&self) -> (out: UnixPty)
        ensures
            out == self@.transport,
    {
        self.transport
    }

    /// The number of the descriptor from which the session's output is read.
    /// The descriptor stays the session's.
    pub fn get_reader(&self) -> (out: i32)
        ensures
            out == self@.transport.master_fd,
    {
        self.transport.master_fd
    }

    /// The number of the descriptor to which the session's input is written.
    /// The descriptor stays the session's.
    pub fn get_writer(&self) -> (out: i32)
        ensures
            out == self@.transport.master_fd,
    {
        self.transport.master_fd
    }

    /// The session's geometry: columns, then rows.
    pub fn size(&self) -> (out: (u16, u16))
        ensures
            out == (self@.cols, self@.rows),
    {
        (self.cols, self.rows)
    }

    /// Stores the new geometry and gives the call that programs it on the
    /// transport. Identity and transport stay as they are.
    pub fn resize(&mut self, cols: u16, rows: u16) -> (out: Request)
        ensures
            final(self)@ == old(self)@.resized(cols, rows),
            out == final(self)@.resize_request(),
    {
        self.cols = cols;
        self.rows = rows;
        self.transport.resize(cols, rows)
    }

    /// The call that writes to the session: a single write, not retried.
    pub fn write(&self) -> (out: Request)
        ensures
            out == (Request::Write { fd: self@.transport.master_fd }),
    {
        self.transport.write()
    }

    /// The call that reads at most `max` bytes from the session.
    pub fn read(&self, max: usize) -> (out: Request)
        ensures
            out == (Request::Read { fd: self@.transport.master_fd, max }),
    {
        self.transport.read(max)
    }

    /// The number of bytes that a read delivered: what the call returned, and
    /// nothing where it failed or found the end.
    pub fn read_result(reply: Reply) -> (out: usize)
        ensures
            out == (if reply.ret > 0 {
                reply.ret as usize
            } else {
                0
            }),
    {
        if reply.ret > 0 {
            reply.ret as usize
        } else {
            0
        }
    }

    /// Starts the duplication of the session's descriptor for its pump.
    /// `nonblock` is the platform's status flag for non-blocking mode.
    pub fn try_clone_reader(&self, nonblock: i32) -> (out: ReaderClone)
        ensures
            out@ == ReaderCloneState::initial(self@.transport.master_fd, nonblock),
            out@.wf(),
    {
        self.transport.try_clone_reader(nonblock)
    }

    /// Gives the session up. The calls that end it are returned: the child is
    /// asked to terminate, then the master descriptor is closed.
    pub fn kill(self) -> (out: Vec<Request>)
        ensures
            out@ == self@.transport.spec_release(),
    {
        self.transport.release()
    }

    /// The child's process id, 0 where the transport has none.
    pub fn get_child_pid(&self) -> (out: u32)
        ensures
            out == self@.child_pid(),
    {
        if self.transport.child_pid > 0 {
            self.transport.child_pid as u32
        } else {
            0
        }
    }
}

} // verus!
