//! The session registry: the one entry point through which sessions are
//! created, written to, resized, killed and asked for their working
//! directory.
//!
//! The registry maps identifiers to sessions and decides; the host makes the
//! system calls that the registry hands back, outside any lock. An identifier
//! is reserved before the first call of a creation and is never used for a
//! second session, and a session that was killed stays unknown for good.
//!
//! A session whose child has ended by itself stays registered until it is
//! killed: the registry learns of a child's end from no one. Writes, resizes
//! and working-directory queries on such a session are handed out like any
//! other, and it is the host's call that then reports the failure.

use std::collections::HashMap;
use vstd::prelude::*;
use vstd::std_specs::hash::*;
use crate::pty::creation::{Creation, CreationState, Started};
use crate::pty::cwd::{cwd_probe, spec_cwd_probe, CwdProbe};
use crate::pty::error::PtyError;
use crate::pty::id::{fresh_id, is_random_id};
use crate::pty::platform::Platform;
use crate::pty::session::{PtySession, SessionState};
use crate::pty::spawn::{spec_plan, HostEnv, SpawnOptions, SpawnPlan};
use crate::pty::unix_pty::Request;

verus! {

/// What the registry knows of one identifier.
#[derive(Debug)]
pub enum Slot {
    /// Issued to a creation that has not ended.
    Reserved,
    /// The identifier of a registered session.
    Live(PtySession),
    /// Killed: it names no session and never will again.
    Retired,
}

/// A [`Slot`], as contracts see it.
pub enum SlotState {
    Reserved,
    Live(SessionState),
    Retired,
}

impl View for Slot {
    type V = SlotState;

    open spec fn view(&self) -> SlotState {
        match self {
            Slot::Reserved => SlotState::Reserved,
            Slot::Live(session) => SlotState::Live(session@),
            Slot::Retired => SlotState::Retired,
        }
    }
}

/// What the pump of a newly registered session is started with.
#[derive(Clone, Copy, PartialEq, Eq, Structural, Debug)]
pub struct PumpStart {
    /// The session whose output the pump delivers.
    pub id: u128,
    /// The descriptor that the pump reads and owns.
    pub reader: i32,
}

/// The registry, as contracts see it: every identifier ever issued, with
/// what has become of it.
pub struct RegistryState {
    /// What has become of each identifier.
    pub slots: Map<u128, SlotState>,
    /// The identifiers in the order in which they were issued.
    pub order: Seq<u128>,
}

impl RegistryState {
    /// The registry without any identifier.
    pub open spec fn empty() -> RegistryState {
        RegistryState { slots: Map::empty(), order: Seq::empty() }
    }

    /// The identifiers issued so far.
    pub open spec fn issued(self) -> Set<u128> {
        self.slots.dom()
    }

    /// Whether `id` names a session.
    pub open spec fn is_live(self, id: u128) -> bool {
        self.slots.contains_key(id) && self.slots[id] is Live
    }

    /// The session that `id` names.
    pub open spec fn session(self, id: u128) -> SessionState
        recommends
            self.is_live(id),
    {
        self.slots[id]->Live_0
    }

    /// The sessions, by identifier.
    pub open spec fn live(self) -> Map<u128, SessionState> {
        Map::new(|id: u128| self.is_live(id), |id: u128| self.session(id))
    }

    /// Every session is filed under its own identifier, and the identifiers
    /// issued are those of the list, each once.
    pub open spec fn wf(self) -> bool {
        &&& forall|id: u128| #[trigger] self.is_live(id) ==> self.session(id).id == id
        &&& forall|id: u128| #[trigger] self.slots.contains_key(id) <==> self.order.contains(id)
        &&& self.order.no_duplicates()
    }

    /// Whether `id` is reserved for a creation that has not ended.
    pub open spec fn is_reserved(self, id: u128) -> bool {
        self.slots.contains_key(id) && self.slots[id] is Reserved
    }

    /// The registry after `id` was reserved.
    pub open spec fn reserved(self, id: u128) -> RegistryState {
        RegistryState {
            slots: self.slots.insert(id, SlotState::Reserved),
            order: self.order.push(id),
        }
    }

    /// The session that a finished creation gives.
    pub open spec fn session_of(started: Started) -> SessionState {
        SessionState {
            id: started.id,
            transport: started.transport,
            cols: started.cols,
            rows: started.rows,
        }
    }

    /// The registry after the session of `started` was registered.
    pub open spec fn registered(self, started: Started) -> RegistryState {
        RegistryState {
            slots: self.slots.insert(started.id, SlotState::Live(Self::session_of(started))),
            ..self
        }
    }

    /// The registry after session `id` was given the geometry.
    pub open spec fn resized(self, id: u128, cols: u16, rows: u16) -> RegistryState {
        RegistryState {
            slots: self.slots.insert(id, SlotState::Live(self.session(id).resized(cols, rows))),
            ..self
        }
    }

    /// The registry after `id` was killed: an identifier that was issued is
    /// retired, whatever it stood for; one that was never issued leaves no
    /// trace.
    pub open spec fn killed(self, id: u128) -> RegistryState {
        if self.slots.contains_key(id) {
            RegistryState { slots: self.slots.insert(id, SlotState::Retired), ..self }
        } else {
            self
        }
    }

    /// The calls by which a kill of `id` releases what the session holds:
    /// none where `id` names no session.
    pub open spec fn release_of(self, id: u128) -> Seq<Request> {
        if self.is_live(id) {
            self.session(id).transport.spec_release()
        } else {
            Seq::<Request>::empty()
        }
    }

    /// The calls that release the sessions among the first `n` identifiers
    /// issued, in the order in which the identifiers were issued.
    pub open spec fn releases(self, n: nat) -> Seq<Request>
        decreases n,
    {
        if n == 0 {
            Seq::<Request>::empty()
        } else {
            self.releases((n - 1) as nat) + self.release_of(self.order[n - 1])
        }
    }

    /// Whether `id` is among the first `n` identifiers issued.
    pub open spec fn among_first(self, n: nat, id: u128) -> bool {
        exists|j: int| 0 <= j < n && j < self.order.len() && #[trigger] self.order[j] == id
    }

    /// The registry after the first `n` identifiers issued were killed.
    pub open spec fn retired_upto(self, n: nat) -> RegistryState {
        RegistryState {
            slots: Map::new(
                |id: u128| self.slots.contains_key(id),
                |id: u128|
                    if self.among_first(n, id) {
                        SlotState::Retired
                    } else {
                        self.slots[id]
                    },
            ),
            order: self.order,
        }
    }

    /// The registry after every identifier was killed.
    pub open spec fn all_killed(self) -> RegistryState {
        self.retired_upto(self.order.len())
    }
}

/// One operation on the registry, for statements about sequences of them.
pub enum Operation {
    /// A creation began and `id` was offered as its identifier.
    Reserve { id: u128 },
    /// A finished creation was offered for registration.
    Register { started: Started },
    /// The session `id` was to be resized.
    Resize { id: u128, cols: u16, rows: u16 },
    /// The session `id` was to be killed.
    Kill { id: u128 },
    /// The creation for which `id` was reserved had failed.
    Abandon { id: u128 },
}

impl RegistryState {
    /// The registry after `op`. An operation that the registry refuses
    /// leaves it as it is.
    pub open spec fn apply(self, op: Operation) -> RegistryState {
        match op {
            Operation::Reserve { id } => if self.slots.contains_key(id) {
                self
            } else {
                self.reserved(id)
            },
            Operation::Register { started } => if self.is_reserved(started.id) {
                self.registered(started)
            } else {
                self
            },
            Operation::Resize { id, cols, rows } => if self.is_live(id) {
                self.resized(id, cols, rows)
            } else {
                self
            },
            Operation::Kill { id } => self.killed(id),
            Operation::Abandon { id } => if self.is_reserved(id) {
                self.killed(id)
            } else {
                self
            },
        }
    }

    /// The identifiers that name a session.
    pub open spec fn live_ids(self) -> Set<u128> {
        Set::new(|id: u128| self.is_live(id))
    }

    /// The identifiers of the sessions that were registered in the course of
    /// `ops`, in the order of their registration.
    pub open spec fn registered_during(self, ops: Seq<Operation>) -> Seq<u128>
        decreases ops.len(),
    {
        if ops.len() == 0 {
            Seq::<u128>::empty()
        } else {
            let before = self.registered_during(ops.drop_last());
            match ops.last() {
                Operation::Register { started } => if self.apply_all(ops.drop_last()).is_reserved(
                    started.id,
                ) {
                    before.push(started.id)
                } else {
                    before
                },
                _ => before,
            }
        }
    }

    /// What the registry answers to a creation that is offered for
    /// registration: the pump's start where the creation has ended with
    /// transport and reader and its identifier is reserved, `NotFound` where
    /// the identifier is not reserved any more, the creation's own error
    /// where it has failed, and `CreationPending` while it has not ended.
    pub open spec fn registration(self, creation: CreationState) -> Result<PumpStart, PtyError> {
        match creation.outcome() {
            Some(Ok(started)) => if self.is_reserved(started.id) {
                Ok(PumpStart { id: started.id, reader: started.reader })
            } else {
                Err(PtyError::NotFound)
            },
            Some(Err(e)) => Err(e),
            None => Err(PtyError::CreationPending),
        }
    }

    /// The registry after a creation was offered for registration: with the
    /// session where the creation has succeeded, with the identifier retired
    /// where the creation has failed, and unchanged while it has not ended.
    pub open spec fn after_creation(self, creation: CreationState) -> RegistryState {
        match creation.outcome() {
            Some(Ok(started)) => self.apply(Operation::Register { started }),
            Some(Err(_)) => self.apply(Operation::Abandon { id: creation.id }),
            None => self,
        }
    }

    /// The registry after all of `ops`, in order.
    pub open spec fn apply_all(self, ops: Seq<Operation>) -> RegistryState
        decreases ops.len(),
    {
        if ops.len() == 0 {
            self
        } else {
            self.apply_all(ops.drop_last()).apply(ops.last())
        }
    }
}

/// The registry of pseudo-terminal sessions.
pub struct PtyManager {
    slots: HashMap<u128, Slot>,
    order: Vec<u128>,
}

/// The registry that a table of slots and a list of identifiers stand for.
pub open spec fn state_of(slots: Map<u128, Slot>, order: Seq<u128>) -> RegistryState {
    RegistryState {
        slots: Map::new(|id: u128| slots.contains_key(id), |id: u128| slots[id]@),
        order,
    }
}

impl View for PtyManager {
    type V = RegistryState;

    closed spec fn view(&self) -> RegistryState {
        state_of(self.slots@, self.order@)
    }
}

impl PtyManager {
    #[verifier::type_invariant]
    spec fn inv(self) -> bool {
        self@.wf()
    }

    /// A registry without sessions.
    pub fn new() -> (out: PtyManager)
        ensures
            out@ == RegistryState::empty(),
            out@.wf(),
    {
        let slots: HashMap<u128, Slot> = HashMap::new();
        let order: Vec<u128> = Vec::new();
        proof {
            assert(state_of(slots@, order@).slots =~= Map::<u128, SlotState>::empty());
        }
        PtyManager { slots, order }
    }

    /// Whether `id` names a session.
    pub fn contains(&self, id: u128) -> (out: bool)
        ensures
            out == self@.is_live(id),
    {
        broadcast use group_hash_axioms;

        match self.slots.get(&id) {
            Some(Slot::Live(_)) => true,
            _ => false,
        }
    }

    /// The session that `id` names, if any, for reading: the session stays
    /// the registry's.
    pub fn session(&self, id: u128) -> (out: Option<&PtySession>)
        ensures
            self@.wf(),
            match out {
                Some(session) => self@.is_live(id) && session@ == self@.session(id) && session@.id
                    == id,
                None => !self@.is_live(id),
            },
    {
        broadcast use group_hash_axioms;

        proof {
            use_type_invariant(self);
        }
        match self.slots.get(&id) {
            Some(Slot::Live(session)) => {
                assert(self@.is_live(id));
                Some(session)
            },
            _ => None,
        }
    }

    /// Reserves `candidate` as the identifier of a session to be created. It
    /// is refused exactly when it was issued before; the registry is then
    /// unchanged.
    pub fn reserve(&mut self, candidate: u128) -> (out: Result<(), PtyError>)
        ensures
            old(self)@.wf(),
            final(self)@.wf(),
            out == (if old(self)@.issued().contains(candidate) {
                Err::<(), PtyError>(PtyError::IdCollision)
            } else {
                Ok(())
            }),
            final(self)@ == old(self)@.apply(Operation::Reserve { id: candidate }),
    {
        broadcast use group_hash_axioms;

        proof {
            use_type_invariant(&*self);
        }
        if self.slots.contains_key(&candidate) {
            Err(PtyError::IdCollision)
        } else {
            let ghost before = self@;
            let mut taken = PtyManager::new();
            std::mem::swap(self, &mut taken);
            let PtyManager { mut slots, mut order } = taken;
            slots.insert(candidate, Slot::Reserved);
            order.push(candidate);
            proof {
                let next = state_of(slots@, order@);
                assert(next.slots =~= before.slots.insert(candidate, SlotState::Reserved));
                assert(!before.slots.contains_key(candidate));
                assert(!before.order.contains(candidate));
                assert forall|k: u128| #[trigger] next.is_live(k) implies next.session(k).id
                    == k by {
                    assert(before.is_live(k));
                }
                assert forall|k: u128| #[trigger]
                    next.slots.contains_key(k) <==> next.order.contains(k) by {
                    if k == candidate {
                        assert(next.order[next.order.len() - 1] == k);
                    } else {
                        if before.order.contains(k) {
                            let i = choose|i: int| 0 <= i < before.order.len() && before.order[i] == k;
                            assert(next.order[i] == k);
                        }
                        if next.order.contains(k) {
                            let i = choose|i: int| 0 <= i < next.order.len() && next.order[i] == k;
                            assert(before.order[i] == k);
                        }
                    }
                }
                assert(next.order.no_duplicates());
            }
            *self = PtyManager { slots, order };
            Ok(())
        }
    }

    /// Kills every identifier. The calls that release the sessions are
    /// given in the order in which the sessions' identifiers were issued;
    /// afterwards no identifier names a session, and a creation that has not
    /// ended will be refused its registration.
    pub fn release_all(&mut self) -> (out: Vec<Request>)
        ensures
            old(self)@.wf(),
            final(self)@.wf(),
            final(self)@ == old(self)@.all_killed(),
            out@ == old(self)@.releases(old(self)@.order.len()),
            forall|id: u128| !final(self)@.is_live(id),
    {
        proof {
            use_type_invariant(&*self);
        }
        let ghost before = self@;
        let mut out: Vec<Request> = Vec::new();
        let n = self.order.len();
        let mut i: usize = 0;
        proof {
            assert(before.retired_upto(0).slots =~= before.slots);
        }
        while i < n
            invariant
                i <= n == before.order.len(),
                before.wf(),
                self@.wf(),
                self@ == before.retired_upto(i as nat),
                out@ == before.releases(i as nat),
            decreases n - i,
        {
            let id = self.order[i];
            proof {
                assert(before.order[i as int] == id);
                assert(before.order.contains(id));
                assert(!before.among_first(i as nat, id));
                assert(self@.slots[id] == before.slots[id]);
                assert(self@.release_of(id) == before.release_of(id));
            }
            let mut release = self.kill(id);
            out.append(&mut release);
            proof {
                let next = before.retired_upto((i + 1) as nat);
                assert forall|k: u128| before.among_first((i + 1) as nat, k) <==> (k == id
                    || before.among_first(i as nat, k)) by {
                    if k == id {
                        assert(before.order[i as int] == k);
                    }
                }
                assert(self@.slots =~= next.slots);
            }
            i += 1;
        }
        proof {
            assert forall|id: u128| !self@.is_live(id) by {
                if self@.slots.contains_key(id) {
                    assert(before.order.contains(id));
                    assert(before.among_first(n as nat, id));
                }
            }
        }
        out
    }

    /// Begins the creation of a session: decides what is started, draws an
    /// identifier and reserves it. Nothing has been allocated yet; where the
    /// identifier drawn was issued before, the creation is refused and the
    /// registry is unchanged. It is refused for no other reason: a registry
    /// that has issued no random identifier begins every creation.
    pub fn create_session(
        &mut self,
        options: SpawnOptions,
        env: HostEnv,
        term: String,
        nonblock: i32,
    ) -> (out: Result<(Creation, SpawnPlan), PtyError>)
        ensures
            old(self)@.wf(),
            final(self)@.wf(),
            match out {
                Ok((creation, plan)) => {
                    &&& !old(self)@.issued().contains(creation@.id)
                    &&& is_random_id(creation@.id)
                    &&& final(self)@ == old(self)@.reserved(creation@.id)
                    &&& creation@ == CreationState::initial(
                        creation@.id,
                        options.cols,
                        options.rows,
                        nonblock,
                    )
                    &&& plan@ == spec_plan(options, env, term@)
                },
                Err(e) => e == PtyError::IdCollision && final(self)@ == old(self)@,
            },
            out is Err ==> exists|c: u128| #[trigger]
                is_random_id(c) && old(self)@.issued().contains(c),
    {
        let candidate = fresh_id();
        match self.reserve(candidate) {
            Ok(()) => {
                let creation = Creation::begin(candidate, options.cols, options.rows, nonblock);
                let plan = SpawnPlan::new(options, env, term);
                Ok((creation, plan))
            },
            Err(e) => Err(e),
        }
    }

    /// Takes a creation that has ended. Where it has ended with transport and
    /// reader, its session is registered and what its pump is started with is
    /// returned; this is refused exactly when the identifier is not reserved,
    /// as after a kill during the creation, and the caller then gives up what
    /// the creation holds. Where the creation has failed, its identifier is
    /// retired and its error returned. No session enters the registry in any
    /// other way.
    pub fn register(&mut self, creation: &Creation) -> (out: Result<PumpStart, PtyError>)
        ensures
            old(self)@.wf(),
            final(self)@.wf(),
            out == old(self)@.registration(creation@),
            final(self)@ == old(self)@.after_creation(creation@),
            forall|id: u128|
                #[trigger] final(self)@.is_live(id) && !old(self)@.is_live(id) ==> id
                    == creation@.id && creation@.stage is Ready,
    {
        broadcast use group_hash_axioms;

        proof {
            use_type_invariant(&*self);
        }
        let id = creation.id();
        let reserved = match self.slots.get(&id) {
            Some(Slot::Reserved) => true,
            _ => false,
        };
        match creation.outcome() {
            Some(Ok(started)) => {
                if reserved {
                    let session = PtySession::new(
                        started.id,
                        started.transport,
                        started.cols,
                        started.rows,
                    );
                    let _ = self.store(started.id, Slot::Live(session));
                    Ok(PumpStart { id: started.id, reader: started.reader })
                } else {
                    Err(PtyError::NotFound)
                }
            },
            Some(Err(e)) => {
                if reserved {
                    let _ = self.store(id, Slot::Retired);
                }
                Err(e)
            },
            None => Err(PtyError::CreationPending),
        }
    }

    /// The call that writes to session `id`, to be made once and outside the
    /// registry's lock; `NotFound` exactly when `id` names no session. A
    /// session whose child has ended by itself is still named by its
    /// identifier until it is killed; the write is then handed out, and the
    /// host's call reports the failure.
    pub fn write(&self, id: u128) -> (out: Result<Request, PtyError>)
        ensures
            out == (if self@.is_live(id) {
                Ok::<Request, PtyError>(
                    Request::Write { fd: self@.session(id).transport.master_fd },
                )
            } else {
                Err(PtyError::NotFound)
            }),
    {
        match self.session(id) {
            Some(session) => Ok(session.write()),
            None => Err(PtyError::NotFound),
        }
    }

    /// Stores the new geometry of session `id` and gives the call that
    /// programs it on the transport; `NotFound` exactly when `id` names no
    /// session, and the registry is then unchanged. A session whose child
    /// has ended by itself is resized like any other until it is killed; the
    /// host's call reports the failure.
    pub fn resize(&mut self, id: u128, cols: u16, rows: u16) -> (out: Result<Request, PtyError>)
        ensures
            old(self)@.wf(),
            final(self)@.wf(),
            out == (if old(self)@.is_live(id) {
                Ok::<Request, PtyError>(
                    old(self)@.session(id).resized(cols, rows).resize_request(),
                )
            } else {
                Err(PtyError::NotFound)
            }),
            final(self)@ == old(self)@.apply(Operation::Resize { id, cols, rows }),
    {
        proof {
            use_type_invariant(&*self);
        }
        let found = match self.session(id) {
            Some(session) => {
                let (old_cols, old_rows) = session.size();
                Some(PtySession::new(session.id(), session.transport(), old_cols, old_rows))
            },
            None => None,
        };
        match found {
            Some(session) => {
                let mut session = session;
                let request = session.resize(cols, rows);
                let _ = self.store(id, Slot::Live(session));
                Ok(request)
            },
            None => Err(PtyError::NotFound),
        }
    }

    /// Kills `id`. It always succeeds. Where `id` names a session, the
    /// session leaves the registry and the calls that release it are given:
    /// the child is asked to terminate and the master descriptor is closed.
    /// An identifier that was issued names no session from now on.
    pub fn kill(&mut self, id: u128) -> (out: Vec<Request>)
        ensures
            old(self)@.wf(),
            final(self)@.wf(),
            out@ == old(self)@.release_of(id),
            final(self)@ == old(self)@.apply(Operation::Kill { id }),
            !final(self)@.is_live(id),
    {
        broadcast use group_hash_axioms;

        proof {
            use_type_invariant(&*self);
        }
        if self.slots.contains_key(&id) {
            match self.store(id, Slot::Retired) {
                Some(Slot::Live(session)) => session.kill(),
                _ => Vec::new(),
            }
        } else {
            Vec::new()
        }
    }

    /// What the host must do to look up the working directory of session
    /// `id`: the prober's request for the session's child. `NotFound` exactly
    /// when `id` names no session; `Unsupported` when it does and the
    /// platform offers no mechanism. For a session whose child has ended by
    /// itself and that was not killed, the request is handed out all the
    /// same, and the host's probe reports the failure.
    pub fn get_cwd(&self, id: u128, platform: Platform) -> (out: Result<CwdProbe, PtyError>)
        ensures
            match out {
                Ok(probe) => self@.is_live(id) && spec_cwd_probe(
                    platform,
                    self@.session(id).transport.child_pid,
                ) == Some(probe@),
                Err(e) => if self@.is_live(id) {
                    e == PtyError::Unsupported && spec_cwd_probe(
                        platform,
                        self@.session(id).transport.child_pid,
                    ) is None
                } else {
                    e == PtyError::NotFound
                },
            },
    {
        match self.session(id) {
            Some(session) => match cwd_probe(platform, session.transport().child_pid) {
                Some(probe) => Ok(probe),
                None => Err(PtyError::Unsupported),
            },
            None => Err(PtyError::NotFound),
        }
    }

    /// Files `slot` under the identifier `id`, which was issued before, and
    /// hands back what was filed there.
    fn store(&mut self, id: u128, slot: Slot) -> (out: Option<Slot>)
        requires
            slot@ matches SlotState::Live(session) ==> session.id == id,
            old(self)@.slots.contains_key(id),
        ensures
            old(self)@.wf(),
            final(self)@.wf(),
            final(self)@.slots == old(self)@.slots.insert(id, slot@),
            final(self)@.order == old(self)@.order,
            out matches Some(previous) && previous@ == old(self)@.slots[id],
    {
        broadcast use group_hash_axioms;

        proof {
            use_type_invariant(&*self);
        }
        let ghost before = self@;
        let mut taken = PtyManager::new();
        std::mem::swap(self, &mut taken);
        let PtyManager { mut slots, order } = taken;
        let ghost filed = slot@;
        let previous = slots.insert(id, slot);
        proof {
            let next = state_of(slots@, order@);
            assert(next.slots =~= before.slots.insert(id, filed));
            assert forall|k: u128| #[trigger] next.is_live(k) implies next.session(k).id == k by {
                if k != id {
                    assert(before.is_live(k));
                }
            }
            assert forall|k: u128| #[trigger]
                next.slots.contains_key(k) <==> next.order.contains(k) by {
                assert(before.slots.contains_key(k) <==> before.order.contains(k));
            }
        }
        *self = PtyManager { slots, order };
        previous
    }
}

impl Default for PtyManager {
    /// A registry without sessions.
    fn default() -> (out: PtyManager)
        ensures
            out@ == RegistryState::empty(),
    {
        PtyManager::new()
    }
}

/// Whether `op` is a step of the creation of a session.
pub open spec fn is_creation_step(op: Operation) -> bool {
    op is Reserve || op is Register || op is Abandon
}

/// A registry names as many sessions as it has issued identifiers, at most.
pub proof fn lemma_live_ids_finite(m: RegistryState)
    requires
        m.wf(),
    ensures
        m.live_ids().finite(),
{
    vstd::seq_lib::seq_to_set_is_finite(m.order);
    assert(m.live_ids().subset_of(m.order.to_set())) by {
        assert forall|id: u128| m.live_ids().contains(id) implies m.order.to_set().contains(
            id,
        ) by {
            assert(m.slots.contains_key(id));
        }
    }
    vstd::set_lib::lemma_len_subset(m.live_ids(), m.order.to_set());
}

/// Any number of creations, in whatever order their steps reach the
/// registry, add exactly their own sessions: the identifiers registered are
/// all different and none named a session before, afterwards each of them
/// names a session, every session that was there before is there unchanged,
/// and the registry holds as many sessions more as registrations were
/// accepted, each of which started one pump.
pub proof fn lemma_creations_add_their_sessions(m: RegistryState, ops: Seq<Operation>)
    requires
        m.wf(),
        forall|i: int| 0 <= i < ops.len() ==> is_creation_step(#[trigger] ops[i]),
    ensures
        m.apply_all(ops).wf(),
        m.registered_during(ops).no_duplicates(),
        forall|id: u128|
            #[trigger] m.apply_all(ops).is_live(id) <==> (m.is_live(id) || m.registered_during(
                ops,
            ).contains(id)),
        forall|id: u128| #[trigger] m.registered_during(ops).contains(id) ==> !m.is_live(id),
        forall|id: u128|
            #[trigger] m.is_live(id) ==> m.apply_all(ops).session(id) == m.session(id),
        m.live_ids().finite(),
        m.apply_all(ops).live_ids().finite(),
        m.apply_all(ops).live_ids().len() == m.live_ids().len() + m.registered_during(ops).len(),
    decreases ops.len(),
{
    lemma_live_ids_finite(m);
    if ops.len() == 0 {
        assert forall|id: u128| !(#[trigger] m.registered_during(ops).contains(id)) by {}
    } else {
        let earlier = ops.drop_last();
        let before = m.apply_all(earlier);
        let ids = m.registered_during(earlier);
        let end = m.apply_all(ops);
        let now = m.registered_during(ops);
        assert forall|i: int| 0 <= i < earlier.len() implies is_creation_step(
            #[trigger] earlier[i],
        ) by {
            assert(earlier[i] == ops[i]);
        }
        lemma_creations_add_their_sessions(m, earlier);
        lemma_apply_keeps_wf(before, ops.last());
        lemma_live_ids_finite(before);
        lemma_live_ids_finite(end);
        assert(is_creation_step(ops[ops.len() - 1]));
        let accepted = ops.last() is Register && before.is_reserved(ops.last()->started.id);
        if accepted {
            let id0 = ops.last()->started.id;
            assert(!before.is_live(id0));
            assert(!ids.contains(id0));
            assert(now == ids.push(id0));
            assert forall|id: u128| #[trigger] now.contains(id) <==> (ids.contains(id) || id
                == id0) by {
                if ids.contains(id) {
                    let k = choose|k: int| 0 <= k < ids.len() && ids[k] == id;
                    assert(now[k] == id);
                }
                if id == id0 {
                    assert(now[now.len() - 1] == id);
                }
            }
            assert forall|id: u128| #[trigger] end.is_live(id) <==> (before.is_live(id) || id
                == id0) by {}
            assert forall|id: u128| #[trigger] m.is_live(id) implies end.session(id)
                == m.session(id) by {
                assert(before.is_live(id));
            }
            assert(end.live_ids() =~= before.live_ids().insert(id0));
            assert(!before.live_ids().contains(id0));
        } else {
            assert(now == ids);
            assert forall|id: u128| #[trigger] end.is_live(id) <==> before.is_live(id) by {}
            assert forall|id: u128| #[trigger] m.is_live(id) implies end.session(id)
                == m.session(id) by {
                assert(before.is_live(id));
            }
            assert(end.live_ids() =~= before.live_ids());
        }
    }
}

/// A session has one pump: the registration that starts it cannot be
/// repeated. Once an identifier has been registered, and whatever is done to
/// the registry afterwards, it is never reserved again, so no later
/// registration of it is accepted.
pub proof fn lemma_one_pump_per_session(m: RegistryState, started: Started, ops: Seq<Operation>)
    requires
        m.is_reserved(started.id),
    ensures
        !m.registered(started).apply_all(ops).is_reserved(started.id),
    decreases ops.len(),
{
    let r = m.registered(started);
    if ops.len() > 0 {
        lemma_one_pump_per_session(m, started, ops.drop_last());
        lemma_history_kept(r, ops.drop_last(), started.id);
    }
}

/// Every operation leaves each session filed under its own identifier: an
/// identifier is never an alias of two sessions.
pub proof fn lemma_apply_keeps_wf(m: RegistryState, op: Operation)
    requires
        m.wf(),
    ensures
        m.apply(op).wf(),
{
    let n = m.apply(op);
    assert forall|id: u128| #[trigger] n.slots.contains_key(id) <==> n.order.contains(id) by {
        assert(m.slots.contains_key(id) <==> m.order.contains(id));
        match op {
            Operation::Reserve { id: r } => {
                if !m.slots.contains_key(r) {
                    if id == r {
                        assert(n.order[n.order.len() - 1] == id);
                    } else {
                        if m.order.contains(id) {
                            let i = choose|i: int| 0 <= i < m.order.len() && m.order[i] == id;
                            assert(n.order[i] == id);
                        }
                        if n.order.contains(id) {
                            let i = choose|i: int| 0 <= i < n.order.len() && n.order[i] == id;
                            assert(m.order[i] == id);
                        }
                    }
                }
            },
            _ => {},
        }
    }
    assert(n.order.no_duplicates()) by {
        match op {
            Operation::Reserve { id: r } => {
                assert(m.slots.contains_key(r) <==> m.order.contains(r));
            },
            _ => {},
        }
    }
    assert forall|id: u128| #[trigger] n.is_live(id) implies n.session(id).id == id by {
        match op {
            Operation::Reserve { id: r } => {
                assert(m.is_live(id));
            },
            Operation::Register { started } => {
                if id != started.id {
                    assert(m.is_live(id));
                }
            },
            Operation::Resize { id: r, cols, rows } => {
                if id != r {
                    assert(m.is_live(id));
                } else {
                    assert(m.is_live(r));
                }
            },
            Operation::Kill { id: k } => {
                assert(m.is_live(id));
            },
            Operation::Abandon { id: k } => {
                assert(m.is_live(id));
            },
        }
    }
}

/// No operation forgets an identifier, and none makes a retired identifier
/// anything else.
pub proof fn lemma_apply_keeps_history(m: RegistryState, op: Operation, id: u128)
    requires
        m.slots.contains_key(id),
    ensures
        m.apply(op).slots.contains_key(id),
        m.slots[id] is Retired ==> m.apply(op).slots[id] is Retired,
{
}

/// What [`lemma_apply_keeps_history`] says of one operation holds of any
/// number of them.
pub proof fn lemma_history_kept(m: RegistryState, ops: Seq<Operation>, id: u128)
    requires
        m.slots.contains_key(id),
    ensures
        m.apply_all(ops).slots.contains_key(id),
        m.slots[id] is Retired ==> m.apply_all(ops).slots[id] is Retired,
    decreases ops.len(),
{
    if ops.len() > 0 {
        lemma_history_kept(m, ops.drop_last(), id);
        lemma_apply_keeps_history(m.apply_all(ops.drop_last()), ops.last(), id);
    }
}

/// An identifier is never issued twice. Once `first` has been reserved, and
/// whatever is done to the registry afterwards, an identifier that the
/// registry then accepts for a new session is not `first`.
pub proof fn lemma_ids_never_reused(
    m: RegistryState,
    first: u128,
    ops: Seq<Operation>,
    second: u128,
)
    requires
        !m.issued().contains(first),
        !m.reserved(first).apply_all(ops).issued().contains(second),
    ensures
        first != second,
{
    assert(m.reserved(first).slots.contains_key(first));
    lemma_history_kept(m.reserved(first), ops, first);
}

/// After a kill, the identifier names no session, and whatever is done to
/// the registry afterwards it never names one again: every later write,
/// resize and working-directory query on it finds nothing, and the calls that
/// release the session's transport, which the kill handed out, are handed out
/// no second time. This holds of every identifier that the registry has
/// issued.
pub proof fn lemma_killed_stays_unknown(m: RegistryState, id: u128, ops: Seq<Operation>)
    requires
        m.issued().contains(id),
    ensures
        !m.killed(id).is_live(id),
        !m.killed(id).apply_all(ops).is_live(id),
        m.killed(id).release_of(id) == Seq::<Request>::empty(),
        m.killed(id).apply_all(ops).release_of(id) == Seq::<Request>::empty(),
{
    assert(m.killed(id).slots.contains_key(id));
    lemma_history_kept(m.killed(id), ops, id);
}

/// A kill of an identifier that names no session changes no session.
pub proof fn lemma_kill_spares_others(m: RegistryState, id: u128, other: u128)
    requires
        id != other,
    ensures
        m.killed(id).is_live(other) == m.is_live(other),
        m.is_live(other) ==> m.killed(id).session(other) == m.session(other),
        !m.issued().contains(id) ==> m.killed(id) == m,
{
}

/// A session that has been registered can be resized and written to: after
/// the registration of a reserved identifier the session is live with the
/// geometry it was created with, a resize keeps it live on the same
/// transport with the new geometry, and so the writes that follow find it.
pub proof fn lemma_resize_after_create(m: RegistryState, started: Started, cols: u16, rows: u16)
    requires
        m.is_reserved(started.id),
    ensures
        m.apply(Operation::Register { started }).is_live(started.id),
        m.apply(Operation::Register { started }).session(started.id)
            == RegistryState::session_of(started),
        m.apply(Operation::Register { started }).apply(
            Operation::Resize { id: started.id, cols, rows },
        ).is_live(started.id),
        m.apply(Operation::Register { started }).apply(
            Operation::Resize { id: started.id, cols, rows },
        ).session(started.id) == (SessionState {
            id: started.id,
            transport: started.transport,
            cols,
            rows,
        }),
{
}

} // verus!
