//! The creation of one session, from the first system call to the point at
//! which the session can be registered.
//!
//! A creation builds the transport, then duplicates the master descriptor for
//! the session's pump. Where the duplication fails, the transport that was
//! just built is given up again, child and descriptor, before the failure is
//! reported: a creation that fails leaves nothing behind.

use vstd::prelude::*;
use crate::pty::error::PtyError;
use crate::pty::unix_pty::{
    lemma_reader_clone_sound,
    lemma_step_keeps_wf,
    Construction,
    ConstructionState,
    Phase,
    ReaderClone,
    ReaderCloneState,
    Reply,
    Request,
    UnixPty,
};

verus! {

/// What a finished creation hands to the registry.
#[derive(Clone, Copy, PartialEq, Eq, Structural, Debug)]
pub struct Started {
    /// The identifier reserved for the session.
    pub id: u128,
    /// The transport that was built.
    pub transport: UnixPty,
    /// The duplicate of the master descriptor, for the pump alone.
    pub reader: i32,
    /// Columns of the terminal.
    pub cols: u16,
    /// Rows of the terminal.
    pub rows: u16,
}

impl Started {
    /// The calls that give up everything a finished creation holds: the
    /// reader's descriptor is closed, the child is asked to terminate, and
    /// the master descriptor is closed.
    pub open spec fn spec_release(self) -> Seq<Request> {
        seq![
            Request::Close { fd: self.reader },
            Request::Terminate { pid: self.transport.child_pid },
            Request::Close { fd: self.transport.master_fd },
        ]
    }

    /// The calls of [`Started::spec_release`], for a creation that cannot be
    /// registered.
    pub fn release(&self) -> (out: Vec<Request>)
        ensures
            out@ == self.spec_release(),
    {
        let mut out: Vec<Request> = Vec::new();
        out.push(Request::Close { fd: self.reader });
        out.push(Request::Terminate { pid: self.transport.child_pid });
        out.push(Request::Close { fd: self.transport.master_fd });
        out
    }
}

/// Where a creation stands.
#[derive(Clone, Copy, PartialEq, Eq, Structural, Debug)]
pub enum Stage {
    /// The transport is being built.
    Building,
    /// The master descriptor is being duplicated.
    Cloning,
    /// The duplication failed; the transport is being given up. `terminated`
    /// tells whether the child has been asked to terminate already.
    Releasing { terminated: bool },
    /// Transport and reader are ready.
    Ready,
    /// The creation failed and holds nothing.
    Failed,
}

/// The state of a creation, as contracts see it.
pub struct CreationState {
    pub id: u128,
    pub nonblock: i32,
    pub stage: Stage,
    pub construction: ConstructionState,
    pub clone: Option<ReaderCloneState>,
    pub error: Option<PtyError>,
}

impl CreationState {
    /// The state before the first call.
    pub open spec fn initial(id: u128, cols: u16, rows: u16, nonblock: i32) -> CreationState {
        CreationState {
            id,
            nonblock,
            stage: Stage::Building,
            construction: ConstructionState::initial(cols, rows, nonblock),
            clone: None,
            error: None,
        }
    }

    /// How the parts of a creation belong together in each stage.
    pub open spec fn wf(self) -> bool {
        &&& self.construction.wf()
        &&& self.clone matches Some(k) ==> k.wf() && self.construction.phase is Ready && k.source
            == self.construction.master->0
        &&& match self.stage {
            Stage::Building => self.construction.request() is Some && self.clone is None
                && self.error is None,
            Stage::Cloning => self.clone is Some && self.clone->0.request() is Some && self.error
                is None,
            Stage::Releasing { .. } => self.clone is Some && self.clone->0.phase is Failed
                && self.error is Some,
            Stage::Ready => self.clone is Some && self.clone->0.phase is Ready && self.error
                is None,
            Stage::Failed => self.error is Some && (self.clone is None
                ==> self.construction.phase is Failed) && (self.clone is Some
                ==> self.clone->0.phase is Failed),
        }
    }

    /// The call that the host must make in this state; `None` once the
    /// creation has ended.
    pub open spec fn request(self) -> Option<Request> {
        match self.stage {
            Stage::Building => self.construction.request(),
            Stage::Cloning => self.clone->0.request(),
            Stage::Releasing { terminated } => Some(
                if terminated {
                    Request::Close { fd: self.construction.master->0 }
                } else {
                    Request::Terminate { pid: self.construction.child->0 }
                },
            ),
            Stage::Ready | Stage::Failed => None,
        }
    }

    /// The state after the host has answered the current request with
    /// `reply`.
    ///
    /// The answer goes to the part that asked. A transport that is ready is
    /// followed by the duplication of its master; a duplication that fails is
    /// followed by the release of the transport, child first.
    pub open spec fn step(self, reply: Reply) -> CreationState {
        match self.stage {
            Stage::Building => {
                let c = self.construction.step(reply);
                match c.outcome() {
                    Some(Ok(pty)) => CreationState {
                        stage: Stage::Cloning,
                        construction: c,
                        clone: Some(ReaderCloneState::initial(pty.master_fd, self.nonblock)),
                        ..self
                    },
                    Some(Err(e)) => CreationState {
                        stage: Stage::Failed,
                        construction: c,
                        error: Some(e),
                        ..self
                    },
                    None => CreationState { construction: c, ..self },
                }
            },
            Stage::Cloning => {
                let k = self.clone->0.step(reply);
                match k.outcome() {
                    Some(Ok(_)) => CreationState { stage: Stage::Ready, clone: Some(k), ..self },
                    Some(Err(e)) => CreationState {
                        stage: Stage::Releasing { terminated: false },
                        clone: Some(k),
                        error: Some(e),
                        ..self
                    },
                    None => CreationState { clone: Some(k), ..self },
                }
            },
            Stage::Releasing { terminated } => if terminated {
                CreationState { stage: Stage::Failed, ..self }
            } else {
                CreationState { stage: Stage::Releasing { terminated: true }, ..self }
            },
            Stage::Ready | Stage::Failed => self,
        }
    }

    /// What the creation has come to: `None` while it runs.
    pub open spec fn outcome(self) -> Option<Result<Started, PtyError>> {
        match self.stage {
            Stage::Ready => Some(
                Ok(
                    Started {
                        id: self.id,
                        transport: UnixPty {
                            master_fd: self.construction.master->0,
                            child_pid: self.construction.child->0,
                        },
                        reader: self.clone->0.copy->0,
                        cols: self.construction.size.cols,
                        rows: self.construction.size.rows,
                    },
                ),
            ),
            Stage::Failed => Some(Err(self.error->0)),
            _ => None,
        }
    }

    /// An upper bound on the number of requests still to come.
    pub open spec fn remaining(self) -> nat {
        match self.stage {
            Stage::Building => self.construction.remaining() + 6,
            Stage::Cloning => self.clone->0.remaining() + 2,
            Stage::Releasing { terminated } => if terminated {
                1
            } else {
                2
            },
            Stage::Ready | Stage::Failed => 0,
        }
    }

    /// Whether the creation holds a child that it has not asked to
    /// terminate.
    pub open spec fn holds_child(self) -> bool {
        match self.stage {
            Stage::Building => self.construction.child is Some,
            Stage::Cloning | Stage::Ready => true,
            Stage::Releasing { terminated } => !terminated,
            Stage::Failed => false,
        }
    }
}

/// One session being created.
#[derive(Clone, Copy, Debug)]
pub struct Creation {
    id: u128,
    nonblock: i32,
    stage: Stage,
    construction: Construction,
    clone: Option<ReaderClone>,
    error: Option<PtyError>,
}

impl View for Creation {
    type V = CreationState;

    closed spec fn view(&self) -> CreationState {
        CreationState {
            id: self.id,
            nonblock: self.nonblock,
            stage: self.stage,
            construction: self.construction@,
            clone: match self.clone {
                Some(k) => Some(k@),
                None => None,
            },
            error: self.error,
        }
    }
}

impl Creation {
    #[verifier::type_invariant]
    spec fn inv(self) -> bool {
        self@.wf()
    }

    /// Starts the creation of session `id` with a terminal of `cols` columns
    /// and `rows` rows. `nonblock` is the platform's status flag for
    /// non-blocking mode.
    pub fn begin(id: u128, cols: u16, rows: u16, nonblock: i32) -> (out: Creation)
        ensures
            out@ == CreationState::initial(id, cols, rows, nonblock),
            out@.wf(),
    {
        Creation {
            id,
            nonblock,
            stage: Stage::Building,
            construction: Construction::begin(cols, rows, nonblock),
            clone: None,
            error: None,
        }
    }

    /// The identifier reserved for the session.
    pub fn id(&self) -> (out: u128)
        ensures
            out == self@.id,
    {
        self.id
    }

    /// The call that the host must make now, or `None` once the creation has
    /// ended.
    pub fn request(&self) -> (out: Option<Request>)
        ensures
            self@.wf(),
            out == self@.request(),
    {
        proof {
            use_type_invariant(self);
        }
        match self.stage {
            Stage::Building => self.construction.request(),
            Stage::Cloning => {
                let k = self.clone.unwrap();
                k.request()
            },
            Stage::Releasing { terminated } => {
                match self.construction.outcome() {
                    Some(Ok(pty)) => Some(
                        if terminated {
                            Request::Close { fd: pty.master_fd }
                        } else {
                            Request::Terminate { pid: pty.child_pid }
                        },
                    ),
                    _ => None,
                }
            },
            Stage::Ready | Stage::Failed => None,
        }
    }

    /// Takes the host's answer to the current request.
    pub fn advance(&mut self, reply: Reply)
        ensures
            old(self)@.wf(),
            final(self)@ == old(self)@.step(reply),
            final(self)@.wf(),
    {
        proof {
            use_type_invariant(&*self);
            lemma_creation_sound(self@, reply);
        }
        let cur = *self;
        let next = match cur.stage {
            Stage::Building => {
                let mut c = cur.construction;
                c.advance(reply);
                match c.outcome() {
                    Some(Ok(pty)) => Creation {
                        stage: Stage::Cloning,
                        construction: c,
                        clone: Some(pty.try_clone_reader(cur.nonblock)),
                        ..cur
                    },
                    Some(Err(e)) => Creation {
                        stage: Stage::Failed,
                        construction: c,
                        error: Some(e),
                        ..cur
                    },
                    None => Creation { construction: c, ..cur },
                }
            },
            Stage::Cloning => {
                let mut k = cur.clone.unwrap();
                k.advance(reply);
                match k.outcome() {
                    Some(Ok(_)) => Creation { stage: Stage::Ready, clone: Some(k), ..cur },
                    Some(Err(e)) => Creation {
                        stage: Stage::Releasing { terminated: false },
                        clone: Some(k),
                        error: Some(e),
                        ..cur
                    },
                    None => Creation { clone: Some(k), ..cur },
                }
            },
            Stage::Releasing { terminated } => {
                if terminated {
                    Creation { stage: Stage::Failed, ..cur }
                } else {
                    Creation { stage: Stage::Releasing { terminated: true }, ..cur }
                }
            },
            Stage::Ready | Stage::Failed => cur,
        };
        *self = next;
    }

    /// What the registry needs once transport and reader are ready, the error
    /// once the creation has failed and given up what it held, `None` while
    /// requests remain.
    pub fn outcome(&self) -> (out: Option<Result<Started, PtyError>>)
        ensures
            self@.wf(),
            out == self@.outcome(),
            out is None <==> self@.request() is Some,
    {
        proof {
            use_type_invariant(self);
        }
        match self.stage {
            Stage::Ready => {
                let k = self.clone.unwrap();
                match (self.construction.outcome(), k.outcome(), self.construction.request_size()) {
                    (Some(Ok(transport)), Some(Ok(reader)), size) => Some(
                        Ok(
                            Started {
                                id: self.id,
                                transport,
                                reader,
                                cols: size.cols,
                                rows: size.rows,
                            },
                        ),
                    ),
                    _ => None,
                }
            },
            Stage::Failed => Some(Err(self.error.unwrap())),
            _ => None,
        }
    }
}

/// A creation keeps its parts together, ends within eighteen requests, and
/// when it has failed it holds neither a descriptor nor a child that was not
/// asked to terminate.
pub proof fn lemma_creation_sound(s: CreationState, reply: Reply)
    requires
        s.wf(),
    ensures
        s.step(reply).wf(),
        s.step(reply).id == s.id,
        s.request() is Some ==> s.step(reply).remaining() < s.remaining(),
        s.request() is None <==> s.remaining() == 0,
        s.remaining() <= 18,
        s.stage is Failed && s.clone is None ==> s.construction.open_descriptors().len() == 0
            && s.construction.child is None,
        s.stage is Failed && s.clone is Some ==> s.clone->0.copy is None,
        s.stage is Failed ==> !s.holds_child(),
{
    lemma_step_keeps_wf(s.construction, reply);
    if s.clone is Some {
        lemma_reader_clone_sound(s.clone->0, reply);
    }
    match s.stage {
        Stage::Building => {
            let c = s.construction.step(reply);
            if c.phase is Ready {
                lemma_reader_clone_sound(
                    ReaderCloneState::initial(c.master->0, s.nonblock),
                    reply,
                );
            }
        },
        _ => {},
    }
}

/// A creation that fails after the child was started releases the transport
/// as a session's end does: the child is asked to terminate, then the master
/// descriptor is closed, and only then is the failure reported.
pub proof fn lemma_failed_clone_releases_transport(s: CreationState, first: Reply, second: Reply)
    requires
        s.wf(),
        s.stage is Releasing,
        !s.stage->terminated,
    ensures
        s.request() == Some(Request::Terminate { pid: s.construction.child->0 }),
        s.step(first).request() == Some(Request::Close { fd: s.construction.master->0 }),
        s.step(first).step(second).stage is Failed,
        s.step(first).step(second).outcome() == Some(Err::<Started, PtyError>(s.error->0)),
{
}

} // verus!
