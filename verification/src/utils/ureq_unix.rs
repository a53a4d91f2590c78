//! The decisions of an HTTP transport over a Unix domain socket.
//!
//! A container daemon often listens on a local socket only. An HTTP client
//! with a pluggable transport can talk to it if it is given a connector that
//! opens the socket, a resolver that resolves nothing, and a transport that
//! moves bytes between the socket and the client's buffers. The system calls
//! belong to the caller; what to do with their results is decided here:
//!
//! - how a failed call is reported ([`TransportError`]),
//! - whether to read at all when input is awaited ([`await_input_step`]) and
//!   what a read means ([`input_awaited`]),
//! - the liveness probe of an idle connection ([`Probe`]).

use vstd::prelude::*;
use vstd::string::*;

verus! {

/// Why a call on the socket failed.
#[derive(Clone, Copy, PartialEq, Eq, Structural, Debug)]
pub enum IoFailure {
    /// The call would have had to wait. On a blocking socket with a timeout
    /// this is how some systems say that the timeout ran out.
    WouldBlock,
    /// The timeout ran out.
    TimedOut,
    /// The peer reset the connection.
    ConnectionReset,
    /// Anything else.
    Other,
}

/// How a failure is reported to the HTTP client.
#[derive(Clone, Copy, PartialEq, Eq, Structural, Debug)]
pub enum TransportError {
    /// The timeout that the client gave ran out.
    Timeout,
    /// The socket failed.
    Io(IoFailure),
}

impl TransportError {
    /// The error for a read or write that failed: a timeout if the time ran
    /// out, else the failure itself.
    pub open spec fn of_transfer(failure: IoFailure) -> TransportError {
        match failure {
            IoFailure::WouldBlock | IoFailure::TimedOut => TransportError::Timeout,
            _ => TransportError::Io(failure),
        }
    }

    /// The error for a read or write that failed.
    pub fn from_transfer(failure: IoFailure) -> (e: TransportError)
        ensures
            e == TransportError::of_transfer(failure),
    {
        match failure {
            IoFailure::WouldBlock | IoFailure::TimedOut => TransportError::Timeout,
            _ => TransportError::Io(failure),
        }
    }

    /// The error for a socket that could not be opened: always the failure
    /// itself, so that no failed connection goes unnoticed.
    pub fn from_connect(failure: IoFailure) -> (e: TransportError)
        ensures
            e == TransportError::Io(failure),
    {
        TransportError::Io(failure)
    }
}

/// Opens connections to the socket at a fixed path.
#[derive(Debug)]
pub struct UnixConnector {
    path: String,
}

impl UnixConnector {
    /// The path of the socket.
    pub closed spec fn path_spec(&self) -> Seq<char> {
        self.path@
    }

    pub fn new(path: &str) -> (r: Self)
        ensures
            r.path_spec() == path@,
    {
        Self { path: String::from_str(path) }
    }

    /// The path of the socket.
    pub fn path(&self) -> (r: &str)
        ensures
            r@ == self.path_spec(),
    {
        self.path.as_str()
    }
}

/// An IPv4 socket address `a.b.c.d:port`.
#[derive(Clone, Copy, PartialEq, Eq, Structural, Debug)]
pub struct SocketAddress {
    pub a: u8,
    pub b: u8,
    pub c: u8,
    pub d: u8,
    pub port: u16,
}

/// A resolver for connections that need no address: it looks nothing up and
/// always succeeds.
#[derive(Debug, Default)]
pub struct FakeResolver;

impl FakeResolver {
    /// The placeholder that stands for every resolved address: port 0 on the
    /// loopback interface.
    pub fn resolve(&self) -> (r: SocketAddress)
        ensures
            r == (SocketAddress { a: 127, b: 0, c: 0, d: 1, port: 0 }),
    {
        SocketAddress { a: 127, b: 0, c: 0, d: 1, port: 0 }
    }
}

/// What to do when the client awaits input.
#[derive(Clone, Copy, PartialEq, Eq, Structural, Debug)]
pub enum InputStep {
    /// The input buffer holds bytes that the client has not used yet: report
    /// input without touching the socket.
    Ready,
    /// Read from the socket into the free end of the input buffer.
    Read,
}

/// Decides whether input has to be read, given whether the buffer holds
/// unused input.
pub fn await_input_step(can_use_input: bool) -> (step: InputStep)
    ensures
        step == (if can_use_input {
            InputStep::Ready
        } else {
            InputStep::Read
        }),
{
    if can_use_input {
        InputStep::Ready
    } else {
        InputStep::Read
    }
}

/// What the client is told after a read: whether bytes came (none means that
/// the peer has closed), or how the read failed.
pub fn input_awaited(read: Result<usize, IoFailure>) -> (r: Result<bool, TransportError>)
    ensures
        r == (match read {
            Ok(amount) => Ok::<bool, TransportError>(amount > 0),
            Err(failure) => Err::<bool, TransportError>(TransportError::of_transfer(failure)),
        }),
{
    match read {
        Ok(amount) => Ok(amount > 0),
        Err(failure) => Err(TransportError::from_transfer(failure)),
    }
}

/// What the client is told after the output was written.
pub fn output_transmitted(write: Result<(), IoFailure>) -> (r: Result<(), TransportError>)
    ensures
        r == (match write {
            Ok(()) => Ok::<(), TransportError>(()),
            Err(failure) => Err::<(), TransportError>(TransportError::of_transfer(failure)),
        }),
{
    match write {
        Ok(()) => Ok(()),
        Err(failure) => Err(TransportError::from_transfer(failure)),
    }
}

/// What the one-byte read of a probe returned.
#[derive(Clone, Copy, PartialEq, Eq, Structural, Debug)]
pub enum ProbeRead {
    /// The read returned, with this many bytes.
    Returned(usize),
    /// Nothing to read right now.
    WouldBlock,
    /// The read failed in any other way.
    Failed,
}

impl ProbeRead {
    /// Whether the read shows an open connection. An idle connection has
    /// nothing to read; one on which the read returns is taken for open too.
    pub open spec fn shows_open(self) -> bool {
        self is Returned || self is WouldBlock
    }
}

/// What happened to the call that a probe asked for.
#[derive(Clone, Copy, PartialEq, Eq, Structural, Debug)]
pub enum ProbeEvent {
    /// The socket was switched between blocking and non-blocking (`ok`), or
    /// could not be.
    ModeSet { ok: bool },
    /// The read of one byte ended.
    ReadDone(ProbeRead),
}

/// The call that a probe asks for next.
#[derive(Clone, Copy, PartialEq, Eq, Structural, Debug)]
pub enum ProbeAction {
    /// Switch the socket to non-blocking.
    SetNonBlocking,
    /// Read one byte.
    ReadByte,
    /// Switch the socket back to blocking.
    SetBlocking,
    /// The probe is over: report whether the connection is open.
    Report { open: bool },
}

/// The liveness probe of a connection, as a state machine.
///
/// The probe switches the socket to non-blocking, reads one byte, and
/// switches the socket back. The caller performs [`Probe::action`], feeds what
/// happened to [`Probe::step`], and goes on until the action is
/// [`ProbeAction::Report`]. An event that the probe is not waiting for changes
/// nothing.
///
/// A byte that the read returns is gone: the probe does not hand it to the
/// input buffer.
#[derive(Clone, Copy, PartialEq, Eq, Structural, Debug)]
pub enum Probe {
    /// Waiting for the socket to become non-blocking.
    AwaitNonBlocking,
    /// Waiting for the read.
    AwaitRead,
    /// Waiting for the socket to become blocking again.
    AwaitBlocking { open: bool },
    /// Over.
    Finished { open: bool },
}

impl Probe {
    /// The call this state waits for.
    pub open spec fn action_spec(self) -> ProbeAction {
        match self {
            Probe::AwaitNonBlocking => ProbeAction::SetNonBlocking,
            Probe::AwaitRead => ProbeAction::ReadByte,
            Probe::AwaitBlocking { .. } => ProbeAction::SetBlocking,
            Probe::Finished { open } => ProbeAction::Report { open },
        }
    }

    /// The state after `event`.
    pub open spec fn step_spec(self, event: ProbeEvent) -> Probe {
        match (self, event) {
            (Probe::AwaitNonBlocking, ProbeEvent::ModeSet { ok }) => if ok {
                Probe::AwaitRead
            } else {
                Probe::Finished { open: false }
            },
            (Probe::AwaitRead, ProbeEvent::ReadDone(read)) => Probe::AwaitBlocking {
                open: read.shows_open(),
            },
            (Probe::AwaitBlocking { open }, ProbeEvent::ModeSet { ok }) => Probe::Finished {
                open: open && ok,
            },
            _ => self,
        }
    }

    /// The state after each of `events` in turn.
    pub open spec fn run_spec(self, events: Seq<ProbeEvent>) -> Probe
        decreases events.len(),
    {
        if events.len() == 0 {
            self
        } else {
            self.run_spec(events.drop_last()).step_spec(events.last())
        }
    }

    /// Whether the socket is in non-blocking mode because of this probe.
    pub open spec fn holds_non_blocking(self) -> bool {
        self is AwaitRead || self is AwaitBlocking
    }

    /// A probe that has not begun.
    pub fn start() -> (probe: Probe)
        ensures
            probe == Probe::AwaitNonBlocking,
    {
        Probe::AwaitNonBlocking
    }

    /// The call to make next.
    pub fn action(&self) -> (action: ProbeAction)
        ensures
            action == self.action_spec(),
    {
        match self {
            Probe::AwaitNonBlocking => ProbeAction::SetNonBlocking,
            Probe::AwaitRead => ProbeAction::ReadByte,
            Probe::AwaitBlocking { .. } => ProbeAction::SetBlocking,
            Probe::Finished { open } => ProbeAction::Report { open: *open },
        }
    }

    /// Takes in what happened to the call.
    pub fn step(self, event: ProbeEvent) -> (next: Probe)
        ensures
            next == self.step_spec(event),
    {
        match (self, event) {
            (Probe::AwaitNonBlocking, ProbeEvent::ModeSet { ok }) => {
                if ok {
                    Probe::AwaitRead
                } else {
                    Probe::Finished { open: false }
                }
            },
            (Probe::AwaitRead, ProbeEvent::ReadDone(read)) => {
                let open = match read {
                    ProbeRead::Returned(_) => true,
                    ProbeRead::WouldBlock => true,
                    ProbeRead::Failed => false,
                };
                Probe::AwaitBlocking { open }
            },
            (Probe::AwaitBlocking { open }, ProbeEvent::ModeSet { ok }) => Probe::Finished {
                open: open && ok,
            },
            _ => self,
        }
    }
}

/// A probe whose calls are all answered reports an open connection exactly
/// when both switches succeeded and the read showed an open connection. If the
/// first switch fails, the probe is over at once.
pub proof fn lemma_probe_verdict(set: bool, read: ProbeRead, restored: bool)
    ensures
        Probe::AwaitNonBlocking.run_spec(
            seq![
                ProbeEvent::ModeSet { ok: set },
                ProbeEvent::ReadDone(read),
                ProbeEvent::ModeSet { ok: restored },
            ],
        ) == (Probe::Finished { open: set && read.shows_open() && restored }),
        !set ==> Probe::AwaitNonBlocking.step_spec(ProbeEvent::ModeSet { ok: set }) == (
        Probe::Finished { open: false }),
{
    let e1 = ProbeEvent::ModeSet { ok: set };
    let e2 = ProbeEvent::ReadDone(read);
    let e3 = ProbeEvent::ModeSet { ok: restored };
    let s3 = seq![e1, e2, e3];
    let s2 = seq![e1, e2];
    let s1 = seq![e1];
    assert(s3.drop_last() =~= s2);
    assert(s2.drop_last() =~= s1);
    assert(s1.drop_last() =~= Seq::<ProbeEvent>::empty());
    let start = Probe::AwaitNonBlocking;
    assert(start.run_spec(s1.drop_last()) == start);
    assert(s1.last() == e1);
    assert(start.run_spec(s1) == start.step_spec(e1));
    assert(s2.last() == e2);
    assert(s3.last() == e3);
    assert(Probe::AwaitNonBlocking.run_spec(s2) == Probe::AwaitNonBlocking.step_spec(
        e1,
    ).step_spec(e2));
}

/// A probe never ends while the socket is non-blocking: from a state in which
/// the socket is non-blocking, the only way to the end is the answer to the
/// switch back to blocking, whatever the read returned.
pub proof fn lemma_probe_restores_blocking(probe: Probe, event: ProbeEvent)
    requires
        probe.holds_non_blocking(),
    ensures
        probe is AwaitRead ==> !(probe.step_spec(event) is Finished),
        probe.step_spec(event) is Finished ==> probe.action_spec() == ProbeAction::SetBlocking
            && event is ModeSet,
        probe is AwaitRead && event is ReadDone ==> probe.step_spec(event).action_spec()
            == ProbeAction::SetBlocking,
{
}

} // verus!
