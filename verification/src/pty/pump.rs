//! The output pump: the decisions of the worker that drains one session's
//! read descriptor.
//!
//! The worker waits until the descriptor is readable, reads one chunk, hands
//! it on as a data event, and goes on until the descriptor reports its end or
//! an error; it then signals the end once, closes the descriptor and stops for
//! good. The waiting and reading are the host's; what follows from each result
//! is decided here.

use vstd::prelude::*;
use vstd::slice::slice_subrange;
use vstd::utf8::{decode_utf8, valid_utf8};
use crate::text::{from_utf8_lossy, utf8_lossy};

verus! {

/// The most bytes that one read asks for.
pub const CHUNK: usize = 8192;

/// The platform's numbers for the poll events and error codes that the pump
/// tells apart.
#[derive(Clone, Copy, PartialEq, Eq, Structural, Debug)]
pub struct PumpConfig {
    /// Poll event: data can be read.
    pub pollin: i16,
    /// Poll event: the other side hung up.
    pub pollhup: i16,
    /// Poll events that report the descriptor as unusable: the error event
    /// and the event for a descriptor that is not open, together.
    pub pollerr: i16,
    /// Error code: the call was interrupted by a signal.
    pub eintr: i32,
    /// Error code: nothing to read now.
    pub eagain: i32,
    /// Error code: the operation would block.
    pub ewouldblock: i32,
}

/// What the host reports to the pump.
#[derive(Clone, Copy, PartialEq, Eq, Structural, Debug)]
pub enum PumpEvent {
    /// The readiness wait returned `ret`, with `errno` where it failed and
    /// `revents` where it did not.
    Polled { ret: i32, errno: i32, revents: i16 },
    /// The read returned `count`, with `errno` where it failed.
    ReadDone { count: isize, errno: i32 },
}

/// What the pump asks of the host.
#[derive(Clone, Copy, PartialEq, Eq, Structural, Debug)]
pub enum PumpCommand {
    /// Wait, without a time limit, until `fd` is readable.
    Poll { fd: i32 },
    /// Read at most `max` bytes from `fd` into the buffer.
    Read { fd: i32, max: usize },
    /// Deliver the first `len` bytes of the buffer, decoded, as one data
    /// event.
    EmitData { len: usize },
    /// Deliver the terminated event.
    EmitTerminated,
    /// Close `fd`.
    Close { fd: i32 },
}

/// Where a pump stands.
#[derive(Clone, Copy, PartialEq, Eq, Structural, Debug)]
pub enum PumpPhase {
    /// A readiness wait is outstanding.
    Waiting,
    /// A read is outstanding; `hangup` tells whether the wait before it also
    /// reported a hang-up or an error.
    Reading { hangup: bool },
    /// The pump has ended.
    Stopped,
}

/// The state of a pump, as contracts see it.
pub struct PumpState {
    pub fd: i32,
    pub config: PumpConfig,
    pub phase: PumpPhase,
}

impl PumpState {
    /// The state of a pump that has just been started on `fd`.
    pub open spec fn initial(fd: i32, config: PumpConfig) -> PumpState {
        PumpState { fd, config, phase: PumpPhase::Waiting }
    }

    /// Whether `revents` reports a hang-up or an error.
    pub open spec fn hung_up(self, revents: i16) -> bool {
        (revents & (self.config.pollhup | self.config.pollerr)) != 0
    }

    /// Whether `revents` reports data.
    pub open spec fn readable(self, revents: i16) -> bool {
        (revents & self.config.pollin) != 0
    }

    /// The commands by which a pump ends: the terminated event, then the
    /// close of its descriptor.
    pub open spec fn stop_commands(self) -> Seq<PumpCommand> {
        seq![PumpCommand::EmitTerminated, PumpCommand::Close { fd: self.fd }]
    }

    /// The state with another phase.
    pub open spec fn at(self, phase: PumpPhase) -> PumpState {
        PumpState { phase, ..self }
    }

    /// The state after `event` and the commands that `event` gives rise to,
    /// in the order in which the host carries them out.
    ///
    /// A wait that was interrupted, or that returned without an event, is
    /// made again. Data is read where the wait reported it. A read of `n > 0`
    /// bytes is delivered as one data event; a read of nothing, a hang-up or
    /// an error ends the pump. A report that answers no outstanding request is
    /// passed over, and nothing follows once the pump has stopped.
    pub open spec fn step(self, event: PumpEvent) -> (PumpState, Seq<PumpCommand>) {
        let poll = seq![PumpCommand::Poll { fd: self.fd }];
        let stop = (self.at(PumpPhase::Stopped), self.stop_commands());
        match (self.phase, event) {
            (PumpPhase::Waiting, PumpEvent::Polled { ret, errno, revents }) => {
                if ret < 0 {
                    if errno == self.config.eintr {
                        (self, poll)
                    } else {
                        stop
                    }
                } else if ret == 0 {
                    (self, poll)
                } else if self.readable(revents) {
                    (
                        self.at(PumpPhase::Reading { hangup: self.hung_up(revents) }),
                        seq![PumpCommand::Read { fd: self.fd, max: CHUNK }],
                    )
                } else if self.hung_up(revents) {
                    stop
                } else {
                    (self, poll)
                }
            },
            (PumpPhase::Reading { hangup }, PumpEvent::ReadDone { count: ret, errno }) => {
                if ret > 0 {
                    let data = seq![PumpCommand::EmitData { len: chunk_len(ret) }];
                    if hangup {
                        (self.at(PumpPhase::Stopped), data + self.stop_commands())
                    } else {
                        (self.at(PumpPhase::Waiting), data + poll)
                    }
                } else if ret == 0 {
                    stop
                } else if errno == self.config.eagain || errno == self.config.ewouldblock {
                    (self.at(PumpPhase::Waiting), poll)
                } else {
                    stop
                }
            },
            _ => (self, Seq::<PumpCommand>::empty()),
        }
    }

    /// The state after all of `events`, and every command given on the way.
    pub open spec fn run(self, events: Seq<PumpEvent>) -> (PumpState, Seq<PumpCommand>)
        decreases events.len(),
    {
        if events.len() == 0 {
            (self, Seq::<PumpCommand>::empty())
        } else {
            let (next, first) = self.step(events[0]);
            let (last, rest) = next.run(events.drop_first());
            (last, first + rest)
        }
    }
}

/// The length of the chunk that a read of `ret > 0` bytes delivers: `ret`,
/// and never more than was asked for.
pub open spec fn chunk_len(ret: isize) -> usize {
    if ret > CHUNK as isize {
        CHUNK
    } else {
        ret as usize
    }
}

/// Whether `command` ends a pump's life: the terminated event or the close.
pub open spec fn is_final_command(command: PumpCommand) -> bool {
    command is EmitTerminated || command is Close
}

/// The shape of everything a pump has asked for: while it runs, neither a
/// terminated event nor a close; once it has stopped, exactly one terminated
/// event, which is followed by the close of `fd` and by nothing else.
pub open spec fn well_ended(out: Seq<PumpCommand>, stopped: bool, fd: i32) -> bool {
    if stopped {
        &&& out.len() >= 2
        &&& out[out.len() - 2] == PumpCommand::EmitTerminated
        &&& out[out.len() - 1] == (PumpCommand::Close { fd })
        &&& forall|i: int| 0 <= i < out.len() - 2 ==> !is_final_command(#[trigger] out[i])
    } else {
        forall|i: int| 0 <= i < out.len() ==> !is_final_command(#[trigger] out[i])
    }
}

/// The output pump of one session.
#[derive(Clone, Copy, Debug)]
pub struct Pump {
    fd: i32,
    config: PumpConfig,
    phase: PumpPhase,
}

impl View for Pump {
    type V = PumpState;

    closed spec fn view(&self) -> PumpState {
        PumpState { fd: self.fd, config: self.config, phase: self.phase }
    }
}

impl Pump {
    /// Starts a pump on the descriptor `fd`, which the pump owns from now on.
    /// The first command is the readiness wait on `fd`.
    pub fn start(fd: i32, config: PumpConfig) -> (out: (Pump, PumpCommand))
        ensures
            out.0@ == PumpState::initial(fd, config),
            out.1 == (PumpCommand::Poll { fd }),
    {
        (Pump { fd, config, phase: PumpPhase::Waiting }, PumpCommand::Poll { fd })
    }

    /// Whether the pump has ended.
    pub fn is_stopped(&self) -> (out: bool)
        ensures
            out == (self@.phase is Stopped),
    {
        match self.phase {
            PumpPhase::Stopped => true,
            _ => false,
        }
    }

    fn stop(&mut self) -> (out: Vec<PumpCommand>)
        ensures
            final(self)@ == old(self)@.at(PumpPhase::Stopped),
            out@ == old(self)@.stop_commands(),
    {
        self.phase = PumpPhase::Stopped;
        let mut out: Vec<PumpCommand> = Vec::new();
        out.push(PumpCommand::EmitTerminated);
        out.push(PumpCommand::Close { fd: self.fd });
        out
    }

    fn poll_again(&mut self) -> (out: Vec<PumpCommand>)
        ensures
            final(self)@ == old(self)@.at(PumpPhase::Waiting),
            out@ == seq![PumpCommand::Poll { fd: old(self)@.fd }],
    {
        self.phase = PumpPhase::Waiting;
        let mut out: Vec<PumpCommand> = Vec::new();
        out.push(PumpCommand::Poll { fd: self.fd });
        out
    }

    /// Takes what the host reports and gives the commands that follow from
    /// it, in the order in which the host must carry them out.
    pub fn handle(&mut self, event: PumpEvent) -> (out: Vec<PumpCommand>)
        ensures
            final(self)@ == old(self)@.step(event).0,
            out@ == old(self)@.step(event).1,
    {
        match (self.phase, event) {
            (PumpPhase::Waiting, PumpEvent::Polled { ret, errno, revents }) => {
                let readable = (revents & self.config.pollin) != 0;
                let hangup = (revents & (self.config.pollhup | self.config.pollerr)) != 0;
                if ret < 0 {
                    if errno == self.config.eintr {
                        self.poll_again()
                    } else {
                        self.stop()
                    }
                } else if ret == 0 {
                    self.poll_again()
                } else if readable {
                    self.phase = PumpPhase::Reading { hangup };
                    let mut out: Vec<PumpCommand> = Vec::new();
                    out.push(PumpCommand::Read { fd: self.fd, max: CHUNK });
                    out
                } else if hangup {
                    self.stop()
                } else {
                    self.poll_again()
                }
            },
            (PumpPhase::Reading { hangup }, PumpEvent::ReadDone { count: ret, errno }) => {
                if ret > 0 {
                    let len: usize = if ret > CHUNK as isize {
                        CHUNK
                    } else {
                        ret as usize
                    };
                    let mut out: Vec<PumpCommand> = Vec::new();
                    out.push(PumpCommand::EmitData { len });
                    if hangup {
                        self.phase = PumpPhase::Stopped;
                        out.push(PumpCommand::EmitTerminated);
                        out.push(PumpCommand::Close { fd: self.fd });
                    } else {
                        self.phase = PumpPhase::Waiting;
                        out.push(PumpCommand::Poll { fd: self.fd });
                    }
                    out
                } else if ret == 0 {
                    self.stop()
                } else if errno == self.config.eagain || errno == self.config.ewouldblock {
                    self.poll_again()
                } else {
                    self.stop()
                }
            },
            _ => Vec::new(),
        }
    }
}

/// The number of bytes of `buf` that a data event of `len` bytes holds:
/// `len`, or the length of `buf` where that is less.
pub open spec fn chunk_end(buf: Seq<u8>, len: usize) -> int {
    if len <= buf.len() {
        len as int
    } else {
        buf.len() as int
    }
}

/// The text of one data event: the first `len` bytes of `buf`, or all of
/// `buf` where it is shorter, decoded permissively. Bytes that are no valid
/// UTF-8 are substituted, never rejected; a chunk that is valid UTF-8 is
/// decoded as it stands.
pub fn decode_chunk(buf: &[u8], len: usize) -> (out: String)
    ensures
        out@ == utf8_lossy(buf@.take(chunk_end(buf@, len))),
        valid_utf8(buf@.take(chunk_end(buf@, len))) ==> out@ == decode_utf8(
            buf@.take(chunk_end(buf@, len)),
        ),
{
    let n = if len <= buf.len() {
        len
    } else {
        buf.len()
    };
    let chunk = slice_subrange(buf, 0, n);
    assert(chunk@ == buf@.take(n as int));
    from_utf8_lossy(chunk)
}

/// The lengths of the data events among `out`, in order.
pub open spec fn data_lengths(out: Seq<PumpCommand>) -> Seq<usize>
    decreases out.len(),
{
    if out.len() == 0 {
        Seq::<usize>::empty()
    } else {
        let before = data_lengths(out.drop_last());
        match out.last() {
            PumpCommand::EmitData { len } => before.push(len),
            _ => before,
        }
    }
}

/// The lengths of the chunks that were read while a read was outstanding, in
/// the order in which the reads were reported.
pub open spec fn chunks_read(s: PumpState, events: Seq<PumpEvent>) -> Seq<usize>
    decreases events.len(),
{
    if events.len() == 0 {
        Seq::<usize>::empty()
    } else {
        let first = match (s.phase, events[0]) {
            (PumpPhase::Reading { .. }, PumpEvent::ReadDone { count, .. }) => if count > 0 {
                seq![chunk_len(count)]
            } else {
                Seq::<usize>::empty()
            },
            _ => Seq::<usize>::empty(),
        };
        first + chunks_read(s.step(events[0]).0, events.drop_first())
    }
}

/// The data events of two runs of commands, one after the other, are those of
/// the first followed by those of the second.
pub proof fn lemma_data_lengths_concat(a: Seq<PumpCommand>, b: Seq<PumpCommand>)
    ensures
        data_lengths(a + b) == data_lengths(a) + data_lengths(b),
    decreases b.len(),
{
    if b.len() == 0 {
        assert(a + b =~= a);
        assert(data_lengths(a) + data_lengths(b) =~= data_lengths(a));
    } else {
        lemma_data_lengths_concat(a, b.drop_last());
        assert((a + b).drop_last() =~= a + b.drop_last());
        assert((a + b).last() == b.last());
        match b.last() {
            PumpCommand::EmitData { len } => {
                assert(data_lengths(a + b) =~= data_lengths(a) + data_lengths(b));
            },
            _ => {},
        }
    }
}

/// The data events of one session are delivered in the order in which the
/// bytes were read: each chunk read gives one data event, at once, and no
/// data event comes from anything else.
pub proof fn lemma_data_in_read_order(s: PumpState, events: Seq<PumpEvent>)
    ensures
        data_lengths(s.run(events).1) == chunks_read(s, events),
    decreases events.len(),
{
    if events.len() > 0 {
        let (next, first) = s.step(events[0]);
        let rest = next.run(events.drop_first()).1;
        lemma_data_in_read_order(next, events.drop_first());
        lemma_data_lengths_concat(first, rest);
        let poll = seq![PumpCommand::Poll { fd: s.fd }];
        let read = seq![PumpCommand::Read { fd: s.fd, max: CHUNK }];
        reveal_with_fuel(data_lengths, 3);
        assert(poll.drop_last() =~= Seq::<PumpCommand>::empty());
        assert(read.drop_last() =~= Seq::<PumpCommand>::empty());
        assert(s.stop_commands().drop_last().drop_last() =~= Seq::<PumpCommand>::empty());
        match (s.phase, events[0]) {
            (PumpPhase::Reading { hangup }, PumpEvent::ReadDone { count, errno }) => {
                if count > 0 {
                    let data = seq![PumpCommand::EmitData { len: chunk_len(count) }];
                    assert(data.drop_last() =~= Seq::<PumpCommand>::empty());
                    lemma_data_lengths_concat(data, s.stop_commands());
                    lemma_data_lengths_concat(data, poll);
                }
            },
            _ => {},
        }
    }
}

/// From an event that a running pump takes, either no final command follows
/// and the pump runs on, or the pump stops with the terminated event and the
/// close as its last two commands. A stopped pump gives no command and stays
/// stopped.
pub proof fn lemma_step_well_ended(s: PumpState, event: PumpEvent)
    ensures
        s.step(event).0.fd == s.fd,
        s.step(event).0.config == s.config,
        s.phase is Stopped ==> s.step(event) == (s, Seq::<PumpCommand>::empty()),
        !(s.phase is Stopped) ==> well_ended(s.step(event).1, s.step(event).0.phase is Stopped, s.fd),
{
}

/// Exactly one terminated event is delivered in the life of a pump, and no
/// data event after it: whatever the host reports and in whatever order,
/// the commands of a pump that still runs hold no terminated event, and those
/// of a pump that has stopped hold exactly one, followed by the close of its
/// descriptor alone.
pub proof fn lemma_one_terminated_event(s: PumpState, events: Seq<PumpEvent>)
    ensures
        s.run(events).0.fd == s.fd,
        s.phase is Stopped ==> s.run(events) == (s, Seq::<PumpCommand>::empty()),
        !(s.phase is Stopped) ==> well_ended(
            s.run(events).1,
            s.run(events).0.phase is Stopped,
            s.fd,
        ),
    decreases events.len(),
{
    if events.len() == 0 {
    } else {
        let (next, first) = s.step(events[0]);
        let (last, rest) = next.run(events.drop_first());
        lemma_step_well_ended(s, events[0]);
        lemma_one_terminated_event(next, events.drop_first());
        if s.phase is Stopped {
            assert(first + rest =~= Seq::<PumpCommand>::empty());
        } else if next.phase is Stopped {
            assert(first + rest =~= first);
        } else {
            let out = first + rest;
            if last.phase is Stopped {
                assert forall|i: int| 0 <= i < out.len() - 2 implies !is_final_command(
                    #[trigger] out[i],
                ) by {
                    if i >= first.len() {
                        assert(out[i] == rest[i - first.len()]);
                    }
                }
                assert(out[out.len() - 2] == rest[rest.len() - 2]);
                assert(out[out.len() - 1] == rest[rest.len() - 1]);
            } else {
                assert forall|i: int| 0 <= i < out.len() implies !is_final_command(
                    #[trigger] out[i],
                ) by {
                    if i >= first.len() {
                        assert(out[i] == rest[i - first.len()]);
                    }
                }
            }
        }
    }
}

} // verus!
