//! The transport: one pseudo-terminal with a child attached to its slave side.
//!
//! Nothing here touches the operating system. A [`Construction`] says which
//! system call the host must make next, takes the call's result, and keeps
//! account of every descriptor that is open, so that a failure at any step
//! closes all of them before the error is reported.

use vstd::prelude::*;
use vstd::multiset::Multiset;
use crate::pty::error::{CloneStep, PtyError, Step};
use crate::pty::spawn::{spec_plan, HostEnv, SpawnOptions, SpawnPlan};

verus! {

/// Terminal geometry as the window-size control takes it.
#[derive(Clone, Copy, PartialEq, Eq, Structural, Debug)]
pub struct WindowSize {
    pub rows: u16,
    pub cols: u16,
    pub xpixel: u16,
    pub ypixel: u16,
}

impl WindowSize {
    /// The size of a terminal of `cols` columns and `rows` rows, with no
    /// pixel dimensions.
    pub fn new(cols: u16, rows: u16) -> (out: WindowSize)
        ensures
            out == (WindowSize { rows, cols, xpixel: 0, ypixel: 0 }),
    {
        WindowSize { rows, cols, xpixel: 0, ypixel: 0 }
    }
}

/// A system call that the host is asked to make.
#[derive(Clone, Copy, PartialEq, Eq, Structural, Debug)]
pub enum Request {
    /// Allocate a master device, read-write and without making it the
    /// controlling terminal.
    OpenMaster,
    /// Grant access to the slave paired with `master`.
    GrantSlave { master: i32 },
    /// Unlock the slave paired with `master`.
    UnlockSlave { master: i32 },
    /// Resolve and remember the path of the slave paired with `master`.
    SlaveName { master: i32 },
    /// Program `size` on `fd`.
    SetWindowSize { fd: i32, size: WindowSize },
    /// Read the status flags of `fd`.
    GetFlags { fd: i32 },
    /// Set the status flags of `fd` to `flags`.
    SetFlags { fd: i32, flags: i32 },
    /// Open the remembered slave path read-write.
    OpenSlave,
    /// Start the child with `slave` as its controlling terminal.
    Spawn { slave: i32 },
    /// Close `fd`.
    Close { fd: i32 },
    /// Duplicate `fd`.
    Duplicate { fd: i32 },
    /// Write the caller's bytes to `fd`, once.
    Write { fd: i32 },
    /// Read at most `max` bytes from `fd`, once.
    Read { fd: i32, max: usize },
    /// Ask the process `pid` to terminate.
    Terminate { pid: i32 },
}

/// What a system call gave: its return value, and the error code where it
/// failed.
#[derive(Clone, Copy, PartialEq, Eq, Structural, Debug)]
pub struct Reply {
    pub ret: i32,
    pub errno: i32,
}

/// A built transport: the master descriptor and the child's process id.
#[derive(Clone, Copy, PartialEq, Eq, Structural, Debug)]
pub struct UnixPty {
    pub master_fd: i32,
    pub child_pid: i32,
}

/// Where a construction stands.
#[derive(Clone, Copy, PartialEq, Eq, Structural, Debug)]
pub enum Phase {
    /// The step is to be made next.
    Running(Step),
    /// A step failed; the descriptors opened so far are being closed.
    Rollback,
    /// The transport is built.
    Ready,
    /// The construction failed and holds no descriptor.
    Failed,
}

/// Whether `reply` reports that `step` succeeded.
pub open spec fn succeeded(step: Step, reply: Reply) -> bool {
    match step {
        Step::GrantSlave | Step::UnlockSlave | Step::SlaveName => reply.ret == 0,
        Step::Spawn => reply.ret > 0,
        Step::CloseSlave => true,
        _ => reply.ret >= 0,
    }
}

/// The step that follows `step` in the protocol, if any.
pub open spec fn successor(step: Step) -> Option<Step> {
    match step {
        Step::OpenMaster => Some(Step::GrantSlave),
        Step::GrantSlave => Some(Step::UnlockSlave),
        Step::UnlockSlave => Some(Step::SlaveName),
        Step::SlaveName => Some(Step::SetWindowSize),
        Step::SetWindowSize => Some(Step::GetFlags),
        Step::GetFlags => Some(Step::SetFlags),
        Step::SetFlags => Some(Step::OpenSlave),
        Step::OpenSlave => Some(Step::Spawn),
        Step::Spawn => Some(Step::CloseSlave),
        Step::CloseSlave => None,
    }
}

/// The position of `step` in the protocol, from 0.
pub open spec fn ordinal(step: Step) -> nat {
    match step {
        Step::OpenMaster => 0,
        Step::GrantSlave => 1,
        Step::UnlockSlave => 2,
        Step::SlaveName => 3,
        Step::SetWindowSize => 4,
        Step::GetFlags => 5,
        Step::SetFlags => 6,
        Step::OpenSlave => 7,
        Step::Spawn => 8,
        Step::CloseSlave => 9,
    }
}

/// The error that a failure of `step` is reported as.
pub open spec fn failure(step: Step, reply: Reply) -> PtyError {
    if step == Step::Spawn {
        PtyError::Spawn { errno: reply.errno }
    } else {
        PtyError::Allocation { step, errno: reply.errno }
    }
}

/// The state of a construction, as contracts see it.
pub struct ConstructionState {
    pub phase: Phase,
    pub size: WindowSize,
    pub nonblock: i32,
    pub master: Option<i32>,
    pub slave: Option<i32>,
    pub flags: i32,
    pub child: Option<i32>,
    pub error: Option<PtyError>,
}

impl ConstructionState {
    /// The state before the first step.
    pub open spec fn initial(cols: u16, rows: u16, nonblock: i32) -> ConstructionState {
        ConstructionState {
            phase: Phase::Running(Step::OpenMaster),
            size: WindowSize { rows, cols, xpixel: 0, ypixel: 0 },
            nonblock,
            master: None,
            slave: None,
            flags: 0,
            child: None,
            error: None,
        }
    }

    /// The descriptors that the construction holds open, each as often as it
    /// is held.
    pub open spec fn open_descriptors(self) -> Multiset<i32> {
        let m = match self.master {
            Some(fd) => Multiset::singleton(fd),
            None => Multiset::<i32>::empty(),
        };
        match self.slave {
            Some(fd) => m.insert(fd),
            None => m,
        }
    }

    /// Which resources a construction holds in each phase.
    pub open spec fn wf(self) -> bool {
        &&& self.master matches Some(fd) ==> fd >= 0
        &&& self.slave matches Some(fd) ==> fd >= 0
        &&& self.child matches Some(pid) ==> pid > 0
        &&& match self.phase {
            Phase::Running(step) => {
                &&& self.error is None
                &&& self.master is Some <==> ordinal(step) >= 1
                &&& self.slave is Some <==> ordinal(step) >= 8
                &&& self.child is Some <==> ordinal(step) >= 9
            },
            Phase::Rollback => {
                &&& self.error is Some
                &&& self.child is None
                &&& (self.master is Some || self.slave is Some)
            },
            Phase::Ready => {
                &&& self.error is None
                &&& self.master is Some
                &&& self.slave is None
                &&& self.child is Some
            },
            Phase::Failed => {
                &&& self.error is Some
                &&& self.master is None
                &&& self.slave is None
                &&& self.child is None
            },
        }
    }

    /// The descriptor that a rollback closes next: the slave before the
    /// master.
    pub open spec fn closing(self) -> Option<i32> {
        if self.slave is Some {
            self.slave
        } else {
            self.master
        }
    }

    /// The call that the host must make in this state; `None` once the
    /// construction has ended.
    pub open spec fn request(self) -> Option<Request> {
        match self.phase {
            Phase::Running(step) => Some(
                match step {
                    Step::OpenMaster => Request::OpenMaster,
                    Step::GrantSlave => Request::GrantSlave { master: self.master->0 },
                    Step::UnlockSlave => Request::UnlockSlave { master: self.master->0 },
                    Step::SlaveName => Request::SlaveName { master: self.master->0 },
                    Step::SetWindowSize => Request::SetWindowSize {
                        fd: self.master->0,
                        size: self.size,
                    },
                    Step::GetFlags => Request::GetFlags { fd: self.master->0 },
                    Step::SetFlags => Request::SetFlags {
                        fd: self.master->0,
                        flags: self.flags | self.nonblock,
                    },
                    Step::OpenSlave => Request::OpenSlave,
                    Step::Spawn => Request::Spawn { slave: self.slave->0 },
                    Step::CloseSlave => Request::Close { fd: self.slave->0 },
                },
            ),
            Phase::Rollback => Some(Request::Close { fd: self.closing()->0 }),
            Phase::Ready | Phase::Failed => None,
        }
    }

    /// The state with what a successful `step` gave written into it.
    pub open spec fn recorded(self, step: Step, reply: Reply) -> ConstructionState {
        match step {
            Step::OpenMaster => ConstructionState { master: Some(reply.ret), ..self },
            Step::GetFlags => ConstructionState { flags: reply.ret, ..self },
            Step::OpenSlave => ConstructionState { slave: Some(reply.ret), ..self },
            Step::Spawn => ConstructionState { child: Some(reply.ret), ..self },
            Step::CloseSlave => ConstructionState { slave: None, ..self },
            _ => self,
        }
    }

    /// The state with the phase that a failed or partly unwound construction
    /// is in: rolling back while a descriptor is open, failed after that.
    pub open spec fn unwinding(self) -> ConstructionState {
        ConstructionState {
            phase: if self.master is Some || self.slave is Some {
                Phase::Rollback
            } else {
                Phase::Failed
            },
            ..self
        }
    }

    /// The state without the descriptor that `closing` names.
    pub open spec fn released(self) -> ConstructionState {
        if self.slave is Some {
            ConstructionState { slave: None, ..self }
        } else {
            ConstructionState { master: None, ..self }
        }
    }

    /// The state after the host has answered the current request with
    /// `reply`.
    ///
    /// A step that succeeded is recorded and the next one follows. A step that
    /// failed sets the error and starts the rollback, which closes one
    /// descriptor per request, whatever the close itself reports. An ended
    /// construction stays as it is.
    pub open spec fn step(self, reply: Reply) -> ConstructionState {
        match self.phase {
            Phase::Running(step) => if succeeded(step, reply) {
                ConstructionState {
                    phase: match successor(step) {
                        Some(next) => Phase::Running(next),
                        None => Phase::Ready,
                    },
                    ..self.recorded(step, reply)
                }
            } else {
                (ConstructionState { error: Some(failure(step, reply)), ..self }).unwinding()
            },
            Phase::Rollback => self.released().unwinding(),
            Phase::Ready | Phase::Failed => self,
        }
    }

    /// What the construction has come to: `None` while it runs.
    pub open spec fn outcome(self) -> Option<Result<UnixPty, PtyError>> {
        match self.phase {
            Phase::Ready => Some(Ok(UnixPty { master_fd: self.master->0, child_pid: self.child->0 })),
            Phase::Failed => Some(Err(self.error->0)),
            _ => None,
        }
    }

    /// The descriptor that a successful answer to the current request opens.
    pub open spec fn opened_by(self, reply: Reply) -> Multiset<i32> {
        match self.phase {
            Phase::Running(step) => if succeeded(step, reply) && (step == Step::OpenMaster || step
                == Step::OpenSlave) {
                Multiset::singleton(reply.ret)
            } else {
                Multiset::<i32>::empty()
            },
            _ => Multiset::<i32>::empty(),
        }
    }

    /// The descriptor that the current request closes.
    pub open spec fn closed_by(self) -> Multiset<i32> {
        match self.request() {
            Some(Request::Close { fd }) => Multiset::singleton(fd),
            _ => Multiset::<i32>::empty(),
        }
    }

    /// The state after the host has answered, one after the other, with
    /// `replies`.
    pub open spec fn run(self, replies: Seq<Reply>) -> ConstructionState
        decreases replies.len(),
    {
        if replies.len() == 0 {
            self
        } else {
            self.step(replies[0]).run(replies.drop_first())
        }
    }

    /// The descriptors that the calls answered by `replies` opened.
    pub open spec fn opened_during(self, replies: Seq<Reply>) -> Multiset<i32>
        decreases replies.len(),
    {
        if replies.len() == 0 {
            Multiset::<i32>::empty()
        } else {
            self.opened_by(replies[0]).add(
                self.step(replies[0]).opened_during(replies.drop_first()),
            )
        }
    }

    /// The descriptors that the calls answered by `replies` closed.
    pub open spec fn closed_during(self, replies: Seq<Reply>) -> Multiset<i32>
        decreases replies.len(),
    {
        if replies.len() == 0 {
            Multiset::<i32>::empty()
        } else {
            self.closed_by().add(self.step(replies[0]).closed_during(replies.drop_first()))
        }
    }

    /// An upper bound on the number of requests still to come.
    pub open spec fn remaining(self) -> nat {
        match self.phase {
            Phase::Running(step) => (12 - ordinal(step)) as nat,
            Phase::Rollback => (if self.master is Some { 1nat } else { 0 }) + (if self.slave is Some {
                1nat
            } else {
                0
            }),
            Phase::Ready | Phase::Failed => 0,
        }
    }
}

/// A pseudo-terminal under construction.
///
/// The host asks for the next [`Request`], makes the call, and hands the
/// [`Reply`] to [`Construction::advance`], until [`Construction::request`]
/// gives `None`; [`Construction::outcome`] then holds the transport or the
/// error.
#[derive(Clone, Copy, Debug)]
pub struct Construction {
    phase: Phase,
    size: WindowSize,
    nonblock: i32,
    master: Option<i32>,
    slave: Option<i32>,
    flags: i32,
    child: Option<i32>,
    error: Option<PtyError>,
}

impl View for Construction {
    type V = ConstructionState;

    closed spec fn view(&self) -> ConstructionState {
        ConstructionState {
            phase: self.phase,
            size: self.size,
            nonblock: self.nonblock,
            master: self.master,
            slave: self.slave,
            flags: self.flags,
            child: self.child,
            error: self.error,
        }
    }
}

impl Construction {
    #[verifier::type_invariant]
    spec fn inv(self) -> bool {
        self@.wf()
    }

    /// Starts the construction of a terminal of `cols` columns and `rows`
    /// rows. `nonblock` is the platform's status flag for non-blocking mode.
    pub fn begin(cols: u16, rows: u16, nonblock: i32) -> (out: Construction)
        ensures
            out@ == ConstructionState::initial(cols, rows, nonblock),
            out@.wf(),
    {
        Construction {
            phase: Phase::Running(Step::OpenMaster),
            size: WindowSize::new(cols, rows),
            nonblock,
            master: None,
            slave: None,
            flags: 0,
            child: None,
            error: None,
        }
    }

    /// The call that the host must make now, or `None` once the construction
    /// has ended.
    pub fn request(&self) -> (out: Option<Request>)
        ensures
            self@.wf(),
            out == self@.request(),
    {
        proof {
            use_type_invariant(self);
        }
        match self.phase {
            Phase::Running(step) => Some(
                match step {
                    Step::OpenMaster => Request::OpenMaster,
                    Step::GrantSlave => Request::GrantSlave { master: self.master.unwrap() },
                    Step::UnlockSlave => Request::UnlockSlave { master: self.master.unwrap() },
                    Step::SlaveName => Request::SlaveName { master: self.master.unwrap() },
                    Step::SetWindowSize => Request::SetWindowSize {
                        fd: self.master.unwrap(),
                        size: self.size,
                    },
                    Step::GetFlags => Request::GetFlags { fd: self.master.unwrap() },
                    Step::SetFlags => Request::SetFlags {
                        fd: self.master.unwrap(),
                        flags: self.flags | self.nonblock,
                    },
                    Step::OpenSlave => Request::OpenSlave,
                    Step::Spawn => Request::Spawn { slave: self.slave.unwrap() },
                    Step::CloseSlave => Request::Close { fd: self.slave.unwrap() },
                },
            ),
            Phase::Rollback => match self.slave {
                Some(fd) => Some(Request::Close { fd }),
                None => Some(Request::Close { fd: self.master.unwrap() }),
            },
            Phase::Ready | Phase::Failed => None,
        }
    }

    /// Takes the host's answer to the current request.
    pub fn advance(&mut self, reply: Reply)
        ensures
            old(self)@.wf(),
            final(self)@ == old(self)@.step(reply),
            final(self)@.wf(),
    {
        proof {
            use_type_invariant(&*self);
            lemma_step_keeps_wf(self@, reply);
        }
        let cur = *self;
        let next = match cur.phase {
            Phase::Running(step) => {
                let ok = match step {
                    Step::GrantSlave | Step::UnlockSlave | Step::SlaveName => reply.ret == 0,
                    Step::Spawn => reply.ret > 0,
                    Step::CloseSlave => true,
                    _ => reply.ret >= 0,
                };
                if ok {
                    let phase = match step {
                        Step::OpenMaster => Phase::Running(Step::GrantSlave),
                        Step::GrantSlave => Phase::Running(Step::UnlockSlave),
                        Step::UnlockSlave => Phase::Running(Step::SlaveName),
                        Step::SlaveName => Phase::Running(Step::SetWindowSize),
                        Step::SetWindowSize => Phase::Running(Step::GetFlags),
                        Step::GetFlags => Phase::Running(Step::SetFlags),
                        Step::SetFlags => Phase::Running(Step::OpenSlave),
                        Step::OpenSlave => Phase::Running(Step::Spawn),
                        Step::Spawn => Phase::Running(Step::CloseSlave),
                        Step::CloseSlave => Phase::Ready,
                    };
                    match step {
                        Step::OpenMaster => Construction { phase, master: Some(reply.ret), ..cur },
                        Step::GetFlags => Construction { phase, flags: reply.ret, ..cur },
                        Step::OpenSlave => Construction { phase, slave: Some(reply.ret), ..cur },
                        Step::Spawn => Construction { phase, child: Some(reply.ret), ..cur },
                        Step::CloseSlave => Construction { phase, slave: None, ..cur },
                        _ => Construction { phase, ..cur },
                    }
                } else {
                    let error = if step == Step::Spawn {
                        PtyError::Spawn { errno: reply.errno }
                    } else {
                        PtyError::Allocation { step, errno: reply.errno }
                    };
                    let phase = if cur.master.is_some() || cur.slave.is_some() {
                        Phase::Rollback
                    } else {
                        Phase::Failed
                    };
                    Construction { phase, error: Some(error), ..cur }
                }
            },
            Phase::Rollback => {
                if cur.slave.is_some() {
                    let phase = if cur.master.is_some() {
                        Phase::Rollback
                    } else {
                        Phase::Failed
                    };
                    Construction { phase, slave: None, ..cur }
                } else {
                    Construction { phase: Phase::Failed, master: None, ..cur }
                }
            },
            Phase::Ready | Phase::Failed => cur,
        };
        *self = next;
    }

    /// The geometry that the construction programs on the master.
    pub fn request_size(&self) -> (out: WindowSize)
        ensures
            out == self@.size,
    {
        self.size
    }

    /// The transport once it is built, the error once the construction has
    /// failed and closed what it had opened, `None` while requests remain.
    pub fn outcome(&self) -> (out: Option<Result<UnixPty, PtyError>>)
        ensures
            self@.wf(),
            out == self@.outcome(),
            out is None <==> self@.request() is Some,
    {
        proof {
            use_type_invariant(self);
        }
        match self.phase {
            Phase::Ready => Some(
                Ok(UnixPty { master_fd: self.master.unwrap(), child_pid: self.child.unwrap() }),
            ),
            Phase::Failed => Some(Err(self.error.unwrap())),
            _ => None,
        }
    }
}

/// Every step leaves the construction holding, in each phase, exactly the
/// resources of that phase.
pub proof fn lemma_step_keeps_wf(s: ConstructionState, reply: Reply)
    requires
        s.wf(),
    ensures
        s.step(reply).wf(),
{
}

/// The steps run in the protocol's order: a step that succeeds is followed
/// by its successor, and no step runs after one that failed.
pub proof fn lemma_steps_in_order(s: ConstructionState, reply: Reply)
    requires
        s.wf(),
        s.phase is Running,
    ensures
        succeeded(s.phase->Running_0, reply) ==> s.step(reply).phase == (match successor(
            s.phase->Running_0,
        ) {
            Some(next) => Phase::Running(next),
            None => Phase::Ready,
        }),
        !succeeded(s.phase->Running_0, reply) ==> !(s.step(reply).phase is Running) && !(s.step(
            reply,
        ).phase is Ready) && s.step(reply).error == Some(failure(s.phase->Running_0, reply)),
{
}

/// The account of open descriptors is exact: after a step the construction
/// holds what it held before, and what the answered call opened, without what
/// that call closed.
pub proof fn lemma_descriptors_accounted(s: ConstructionState, reply: Reply)
    requires
        s.wf(),
    ensures
        s.closed_by().subset_of(s.open_descriptors()),
        s.step(reply).open_descriptors() =~= s.open_descriptors().sub(s.closed_by()).add(
            s.opened_by(reply),
        ),
{
}

/// A construction starts without a descriptor, and one that has failed holds
/// none: every descriptor opened on the way was closed before the error is
/// reported. One that is ready holds the master alone.
pub proof fn lemma_ends_hold_no_stray_descriptor(s: ConstructionState)
    requires
        s.wf(),
    ensures
        forall|cols: u16, rows: u16, nonblock: i32|
            (#[trigger] ConstructionState::initial(cols, rows, nonblock)).open_descriptors()
                =~= Multiset::<i32>::empty(),
        s.phase is Failed ==> s.open_descriptors() =~= Multiset::<i32>::empty(),
        s.phase is Ready ==> s.open_descriptors() =~= Multiset::singleton(s.master->0),
{
}

/// Over any run of a construction, what it holds at the end together with
/// what it closed on the way is what it held at the start together with what
/// it opened on the way.
pub proof fn lemma_descriptors_balance(s: ConstructionState, replies: Seq<Reply>)
    requires
        s.wf(),
    ensures
        s.run(replies).wf(),
        s.run(replies).open_descriptors().add(s.closed_during(replies))
            =~= s.open_descriptors().add(s.opened_during(replies)),
    decreases replies.len(),
{
    if replies.len() > 0 {
        let next = s.step(replies[0]);
        let rest = replies.drop_first();
        lemma_step_keeps_wf(s, replies[0]);
        lemma_descriptors_accounted(s, replies[0]);
        lemma_descriptors_balance(next, rest);
        let held = s.open_descriptors();
        let closed = s.closed_by();
        let opened = s.opened_by(replies[0]);
        assert forall|fd: i32|
            s.run(replies).open_descriptors().add(s.closed_during(replies)).count(fd)
                == held.add(s.opened_during(replies)).count(fd) by {
            assert(closed.count(fd) <= held.count(fd));
            assert(next.open_descriptors().count(fd) == held.count(fd) - closed.count(fd)
                + opened.count(fd));
            assert(next.run(rest).open_descriptors().add(next.closed_during(rest)).count(fd)
                == next.open_descriptors().add(next.opened_during(rest)).count(fd));
        }
    }
}

/// No descriptor leaks where a construction fails: whatever the host
/// answers, a construction that has ended in failure has closed exactly the
/// descriptors that it opened, and one that has ended with a transport has
/// closed all of them but the master.
pub proof fn lemma_failure_closes_every_descriptor(
    cols: u16,
    rows: u16,
    nonblock: i32,
    replies: Seq<Reply>,
)
    ensures
        ({
            let start = ConstructionState::initial(cols, rows, nonblock);
            let end = start.run(replies);
            &&& end.phase is Failed ==> start.closed_during(replies) =~= start.opened_during(
                replies,
            )
            &&& end.phase is Ready ==> start.opened_during(replies) =~= start.closed_during(
                replies,
            ).insert(end.master->0)
        }),
{
    let start = ConstructionState::initial(cols, rows, nonblock);
    let end = start.run(replies);
    lemma_descriptors_balance(start, replies);
    lemma_ends_hold_no_stray_descriptor(end);
    assert(start.open_descriptors() =~= Multiset::<i32>::empty());
    assert forall|fd: i32|
        end.open_descriptors().count(fd) + start.closed_during(replies).count(fd)
            == start.opened_during(replies).count(fd) by {
        assert(end.open_descriptors().add(start.closed_during(replies)).count(fd)
            == start.open_descriptors().add(start.opened_during(replies)).count(fd));
    }
    if end.phase is Failed {
        assert forall|fd: i32|
            start.closed_during(replies).count(fd) == start.opened_during(replies).count(
                fd,
            ) by {
            assert(end.open_descriptors().count(fd) == 0);
        }
    }
    if end.phase is Ready {
        let master = end.master->0;
        assert forall|fd: i32|
            start.opened_during(replies).count(fd) == start.closed_during(replies).insert(
                master,
            ).count(fd) by {
            assert(end.open_descriptors().count(fd) == (if fd == master {
                1nat
            } else {
                0nat
            }));
        }
    }
}

/// Every answered request brings the construction nearer to its end.
pub proof fn lemma_construction_ends(s: ConstructionState, reply: Reply)
    requires
        s.wf(),
    ensures
        s.request() is Some ==> s.step(reply).remaining() < s.remaining(),
        s.request() is None <==> s.remaining() == 0,
        s.remaining() <= 12,
{
}

/// A construction ends within twelve requests: whatever the host answers,
/// after twelve answers there is nothing left to ask, and the outcome is
/// known.
pub proof fn lemma_construction_finishes(s: ConstructionState, replies: Seq<Reply>)
    requires
        s.wf(),
    ensures
        s.run(replies).wf(),
        s.run(replies).remaining() == 0 || s.run(replies).remaining() + replies.len()
            <= s.remaining(),
        replies.len() >= 12 ==> s.run(replies).request() is None && s.run(replies).outcome()
            is Some,
    decreases replies.len(),
{
    if replies.len() > 0 {
        lemma_step_keeps_wf(s, replies[0]);
        lemma_construction_ends(s, replies[0]);
        lemma_construction_finishes(s.step(replies[0]), replies.drop_first());
    }
    lemma_construction_ends(s.run(replies), Reply { ret: 0, errno: 0 });
}

impl UnixPty {
    /// A transport has a descriptor and a child.
    pub open spec fn wf(self) -> bool {
        self.master_fd >= 0 && self.child_pid > 0
    }

    /// Begins a transport: decides what is started on it and starts the
    /// construction of the pseudo-terminal. `term` is the terminal type of
    /// the child, `nonblock` the platform's status flag for non-blocking
    /// mode.
    pub fn new(options: SpawnOptions, env: HostEnv, term: String, nonblock: i32) -> (out: (
        Construction,
        SpawnPlan,
    ))
        ensures
            out.0@ == ConstructionState::initial(options.cols, options.rows, nonblock),
            out.0@.wf(),
            out.1@ == spec_plan(options, env, term@),
    {
        let construction = Construction::begin(options.cols, options.rows, nonblock);
        let plan = SpawnPlan::new(options, env, term);
        (construction, plan)
    }

    /// The call that programs a window of `cols` columns and `rows` rows on
    /// the master.
    pub fn resize(&self, cols: u16, rows: u16) -> (out: Request)
        ensures
            out == (Request::SetWindowSize {
                fd: self.master_fd,
                size: WindowSize { rows, cols, xpixel: 0, ypixel: 0 },
            }),
    {
        Request::SetWindowSize { fd: self.master_fd, size: WindowSize::new(cols, rows) }
    }

    /// What a resize came to: it failed exactly when the call returned a
    /// negative value.
    pub fn resize_result(reply: Reply) -> (out: Result<(), PtyError>)
        ensures
            out == (if reply.ret < 0 {
                Err(PtyError::Resize { errno: reply.errno })
            } else {
                Ok(())
            }),
    {
        if reply.ret < 0 {
            Err(PtyError::Resize { errno: reply.errno })
        } else {
            Ok(())
        }
    }

    /// The call that writes to the master: a single write, not retried.
    pub fn write(&self) -> (out: Request)
        ensures
            out == (Request::Write { fd: self.master_fd }),
    {
        Request::Write { fd: self.master_fd }
    }

    /// What a write came to: the number of bytes that the master accepted,
    /// which may be fewer than were offered, or the failure.
    pub fn write_result(reply: Reply) -> (out: Result<usize, PtyError>)
        ensures
            out == (if reply.ret < 0 {
                Err::<usize, PtyError>(PtyError::Write { errno: reply.errno })
            } else {
                Ok(reply.ret as usize)
            }),
    {
        if reply.ret < 0 {
            Err(PtyError::Write { errno: reply.errno })
        } else {
            Ok(reply.ret as usize)
        }
    }

    /// The call that reads at most `max` bytes from the master.
    pub fn read(&self, max: usize) -> (out: Request)
        ensures
            out == (Request::Read { fd: self.master_fd, max }),
    {
        Request::Read { fd: self.master_fd, max }
    }

    /// Starts the duplication of the master descriptor for a reader.
    /// `nonblock` is the platform's status flag for non-blocking mode.
    pub fn try_clone_reader(&self, nonblock: i32) -> (out: ReaderClone)
        ensures
            out@ == ReaderCloneState::initial(self.master_fd, nonblock),
            out@.wf(),
    {
        ReaderClone {
            phase: ClonePhase::Running(CloneStep::Duplicate),
            source: self.master_fd,
            nonblock,
            copy: None,
            flags: 0,
            error: None,
        }
    }

    /// The calls that give the transport up: the child is asked to terminate,
    /// then the master descriptor is closed.
    pub fn release(&self) -> (out: Vec<Request>)
        ensures
            out@ == self.spec_release(),
    {
        let mut out: Vec<Request> = Vec::new();
        out.push(Request::Terminate { pid: self.child_pid });
        out.push(Request::Close { fd: self.master_fd });
        out
    }

    /// The calls of [`UnixPty::release`].
    pub open spec fn spec_release(self) -> Seq<Request> {
        seq![Request::Terminate { pid: self.child_pid }, Request::Close { fd: self.master_fd }]
    }
}

/// Where the duplication of a descriptor stands.
#[derive(Clone, Copy, PartialEq, Eq, Structural, Debug)]
pub enum ClonePhase {
    /// The step is to be made next.
    Running(CloneStep),
    /// A step failed; the duplicate is being closed.
    Rollback,
    /// The duplicate is ready and non-blocking.
    Ready,
    /// The duplication failed and holds no descriptor.
    Failed,
}

/// The state of a duplication, as contracts see it.
pub struct ReaderCloneState {
    pub phase: ClonePhase,
    pub source: i32,
    pub nonblock: i32,
    pub copy: Option<i32>,
    pub flags: i32,
    pub error: Option<PtyError>,
}

impl ReaderCloneState {
    /// The state before the first step.
    pub open spec fn initial(source: i32, nonblock: i32) -> ReaderCloneState {
        ReaderCloneState {
            phase: ClonePhase::Running(CloneStep::Duplicate),
            source,
            nonblock,
            copy: None,
            flags: 0,
            error: None,
        }
    }

    /// The duplicate is held from its creation until it is handed out or
    /// closed.
    pub open spec fn wf(self) -> bool {
        &&& self.copy matches Some(fd) ==> fd >= 0
        &&& match self.phase {
            ClonePhase::Running(step) => self.error is None && (self.copy is Some <==> step
                != CloneStep::Duplicate),
            ClonePhase::Rollback => self.error is Some && self.copy is Some,
            ClonePhase::Ready => self.error is None && self.copy is Some,
            ClonePhase::Failed => self.error is Some && self.copy is None,
        }
    }

    /// The call that the host must make in this state; `None` once the
    /// duplication has ended.
    pub open spec fn request(self) -> Option<Request> {
        match self.phase {
            ClonePhase::Running(CloneStep::Duplicate) => Some(
                Request::Duplicate { fd: self.source },
            ),
            ClonePhase::Running(CloneStep::GetFlags) => Some(Request::GetFlags { fd: self.copy->0 }),
            ClonePhase::Running(CloneStep::SetFlags) => Some(
                Request::SetFlags { fd: self.copy->0, flags: self.flags | self.nonblock },
            ),
            ClonePhase::Rollback => Some(Request::Close { fd: self.copy->0 }),
            ClonePhase::Ready | ClonePhase::Failed => None,
        }
    }

    /// The state after the host has answered the current request with
    /// `reply`. A call succeeded when it returned no negative value. A failure
    /// after the duplicate exists closes the duplicate before it is reported.
    pub open spec fn step(self, reply: Reply) -> ReaderCloneState {
        match self.phase {
            ClonePhase::Running(step) => if reply.ret >= 0 {
                match step {
                    CloneStep::Duplicate => ReaderCloneState {
                        phase: ClonePhase::Running(CloneStep::GetFlags),
                        copy: Some(reply.ret),
                        ..self
                    },
                    CloneStep::GetFlags => ReaderCloneState {
                        phase: ClonePhase::Running(CloneStep::SetFlags),
                        flags: reply.ret,
                        ..self
                    },
                    CloneStep::SetFlags => ReaderCloneState { phase: ClonePhase::Ready, ..self },
                }
            } else {
                ReaderCloneState {
                    phase: if self.copy is Some {
                        ClonePhase::Rollback
                    } else {
                        ClonePhase::Failed
                    },
                    error: Some(PtyError::Reader { stage: step, errno: reply.errno }),
                    ..self
                }
            },
            ClonePhase::Rollback => ReaderCloneState {
                phase: ClonePhase::Failed,
                copy: None,
                ..self
            },
            ClonePhase::Ready | ClonePhase::Failed => self,
        }
    }

    /// What the duplication has come to: `None` while it runs.
    pub open spec fn outcome(self) -> Option<Result<i32, PtyError>> {
        match self.phase {
            ClonePhase::Ready => Some(Ok(self.copy->0)),
            ClonePhase::Failed => Some(Err(self.error->0)),
            _ => None,
        }
    }

    /// An upper bound on the number of requests still to come.
    pub open spec fn remaining(self) -> nat {
        match self.phase {
            ClonePhase::Running(CloneStep::Duplicate) => 4,
            ClonePhase::Running(CloneStep::GetFlags) => 3,
            ClonePhase::Running(CloneStep::SetFlags) => 2,
            ClonePhase::Rollback => 1,
            ClonePhase::Ready | ClonePhase::Failed => 0,
        }
    }
}

/// The duplication of a master descriptor for the exclusive use of a reader.
///
/// The duplicate is a plain descriptor number: the reader owns it from the
/// moment it is handed out, and nothing in this library closes it afterwards.
#[derive(Clone, Copy, Debug)]
pub struct ReaderClone {
    phase: ClonePhase,
    source: i32,
    nonblock: i32,
    copy: Option<i32>,
    flags: i32,
    error: Option<PtyError>,
}

impl View for ReaderClone {
    type V = ReaderCloneState;

    closed spec fn view(&self) -> ReaderCloneState {
        ReaderCloneState {
            phase: self.phase,
            source: self.source,
            nonblock: self.nonblock,
            copy: self.copy,
            flags: self.flags,
            error: self.error,
        }
    }
}

impl ReaderClone {
    #[verifier::type_invariant]
    spec fn inv(self) -> bool {
        self@.wf()
    }

    /// The call that the host must make now, or `None` once the duplication
    /// has ended.
    pub fn request(&self) -> (out: Option<Request>)
        ensures
            self@.wf(),
            out == self@.request(),
    {
        proof {
            use_type_invariant(self);
        }
        match self.phase {
            ClonePhase::Running(CloneStep::Duplicate) => Some(
                Request::Duplicate { fd: self.source },
            ),
            ClonePhase::Running(CloneStep::GetFlags) => Some(
                Request::GetFlags { fd: self.copy.unwrap() },
            ),
            ClonePhase::Running(CloneStep::SetFlags) => Some(
                Request::SetFlags { fd: self.copy.unwrap(), flags: self.flags | self.nonblock },
            ),
            ClonePhase::Rollback => Some(Request::Close { fd: self.copy.unwrap() }),
            ClonePhase::Ready | ClonePhase::Failed => None,
        }
    }

    /// Takes the host's answer to the current request.
    pub fn advance(&mut self, reply: Reply)
        ensures
            old(self)@.wf(),
            final(self)@ == old(self)@.step(reply),
            final(self)@.wf(),
    {
        proof {
            use_type_invariant(&*self);
        }
        let cur = *self;
        let next = match cur.phase {
            ClonePhase::Running(step) => {
                if reply.ret >= 0 {
                    match step {
                        CloneStep::Duplicate => ReaderClone {
                            phase: ClonePhase::Running(CloneStep::GetFlags),
                            copy: Some(reply.ret),
                            ..cur
                        },
                        CloneStep::GetFlags => ReaderClone {
                            phase: ClonePhase::Running(CloneStep::SetFlags),
                            flags: reply.ret,
                            ..cur
                        },
                        CloneStep::SetFlags => ReaderClone { phase: ClonePhase::Ready, ..cur },
                    }
                } else {
                    let phase = if cur.copy.is_some() {
                        ClonePhase::Rollback
                    } else {
                        ClonePhase::Failed
                    };
                    ReaderClone {
                        phase,
                        error: Some(PtyError::Reader { stage: step, errno: reply.errno }),
                        ..cur
                    }
                }
            },
            ClonePhase::Rollback => ReaderClone { phase: ClonePhase::Failed, copy: None, ..cur },
            ClonePhase::Ready | ClonePhase::Failed => cur,
        };
        *self = next;
    }

    /// The duplicate once it is ready, the error once the duplication has
    /// failed and closed what it had opened, `None` while requests remain.
    pub fn outcome(&self) -> (out: Option<Result<i32, PtyError>>)
        ensures
            self@.wf(),
            out == self@.outcome(),
            out is None <==> self@.request() is Some,
    {
        proof {
            use_type_invariant(self);
        }
        match self.phase {
            ClonePhase::Ready => Some(Ok(self.copy.unwrap())),
            ClonePhase::Failed => Some(Err(self.error.unwrap())),
            _ => None,
        }
    }
}

/// A duplication keeps its shape, ends within four requests, and reports a
/// failure only when it holds no descriptor: the duplicate, where one was
/// made, was closed first.
pub proof fn lemma_reader_clone_sound(s: ReaderCloneState, reply: Reply)
    requires
        s.wf(),
    ensures
        s.step(reply).wf(),
        s.request() is Some ==> s.step(reply).remaining() < s.remaining(),
        s.request() is None <==> s.remaining() == 0,
        s.phase is Failed ==> s.copy is None,
        s.phase is Rollback ==> s.request() == Some(Request::Close { fd: s.copy->0 }),
        s.step(reply).source == s.source,
{
}

} // verus!
