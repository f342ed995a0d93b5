//! The TCP driver's decisions. The asynchronous loops outside the library
//! perform the socket operations and hand each outcome to a step function
//! here; the step function builds the messages, keeps the registry in step,
//! and says whether the loop goes on.
//!
//! Per connection the state machine is: accepted, then reading and writing
//! concurrently, then closing, then removed from the registry.

use super::registry::Registry;
use super::state::Association;
use super::state::DISCONNECT_CODE;
use super::state::Event;
use super::state::Gate;
use super::state::GateAccept;
use super::state::Package;
use super::state::Protocol;
use super::state::SOCKET_BUFFER_SIZE;
use super::state::SocketAddress;
use super::state::Zip;
use tokio::net::TcpStream;
use tokio::sync::mpsc::Sender;
use vstd::prelude::*;

verus! {

/// The starting delay of the accept retry policy, in milliseconds.
pub const INIT_BACKOFF_MS: u64 = 10;

/// The cap of the accept retry policy, in milliseconds: once the next delay
/// would exceed this, the retried error turns into a timeout.
pub const MAX_BACKOFF_MS: u64 = 3000;

/// The association of a TCP conversation between the two addresses.
pub open spec fn tcp_association(local_addr: SocketAddress, remote_addr: SocketAddress) -> Association {
    Association { local_addr, remote_addr, protocol: Protocol::TCP }
}

/// The kind of an accept failure, as plain values. The drivers classify the
/// I/O error they saw; `Other` stands for every kind not named here.
#[derive(Debug, Eq, PartialEq, Clone, Copy, Structural)]
pub enum AcceptErrorKind {
    WouldBlock,
    TimedOut,
    Interrupted,
    ResourceBusy,
    NotConnected,
    Other,
}

/// Which accept failures are transient and worth retrying.
pub open spec fn spec_retryable(kind: AcceptErrorKind) -> bool {
    match kind {
        AcceptErrorKind::WouldBlock => true,
        AcceptErrorKind::TimedOut => true,
        AcceptErrorKind::Interrupted => true,
        AcceptErrorKind::ResourceBusy => true,
        AcceptErrorKind::NotConnected => true,
        AcceptErrorKind::Other => false,
    }
}

/// Whether an accept failure of this kind is retried (with backoff) rather
/// than surfaced immediately.
pub fn should_retry(kind: AcceptErrorKind) -> (r: bool)
    ensures
        r == spec_retryable(kind),
{
    match kind {
        AcceptErrorKind::WouldBlock => true,
        AcceptErrorKind::TimedOut => true,
        AcceptErrorKind::Interrupted => true,
        AcceptErrorKind::ResourceBusy => true,
        AcceptErrorKind::NotConnected => true,
        AcceptErrorKind::Other => false,
    }
}

/// The delay before the retry after `k` consecutive retryable failures:
/// the starting delay, doubled each time.
pub open spec fn spec_backoff_delay(k: nat) -> nat
    decreases k,
{
    if k == 0 {
        INIT_BACKOFF_MS as nat
    } else {
        2 * spec_backoff_delay((k - 1) as nat)
    }
}

/// Law: the backoff delay never decreases as failures accumulate.
pub proof fn lemma_backoff_monotone(i: nat, j: nat)
    requires
        i <= j,
    ensures
        spec_backoff_delay(i) <= spec_backoff_delay(j),
    decreases j,
{
    if i < j {
        lemma_backoff_monotone(i, (j - 1) as nat);
    }
}

/// The accept retry policy's state: the delay the next retry would wait.
pub struct Backoff {
    pub delay_ms: u64,
    pub retries: Ghost<nat>,
}

impl Backoff {
    /// The state is sound: the pending delay is what doubling the starting
    /// delay once per observed failure gives, and it stays representable.
    pub open spec fn wf(&self) -> bool {
        &&& self.delay_ms == spec_backoff_delay(self.retries@)
        &&& self.delay_ms <= 2 * MAX_BACKOFF_MS
    }

    pub fn new() -> (r: Self)
        ensures
            r.wf(),
            r.delay_ms == INIT_BACKOFF_MS,
            r.retries@ == 0,
    {
        Backoff { delay_ms: INIT_BACKOFF_MS, retries: Ghost(0) }
    }
}

/// What the accept loop does about one failed accept.
#[derive(Debug, Eq, PartialEq, Clone, Copy, Structural)]
pub enum AcceptDecision {
    /// Sleep this many milliseconds, then try again.
    Sleep(u64),
    /// The retry budget is exhausted: report a timeout, stop retrying.
    FailTimeout,
    /// The failure is fatal: report it at once.
    FailFatal,
}

/// Classifies one accept failure under the retry policy: a retryable error
/// is slept on, with the delay doubling each consecutive failure, until the
/// pending delay exceeds the cap, which turns the error into a timeout; any
/// other error fails at once. Every delay actually slept is capped.
pub fn accept_retry_decision(backoff: &mut Backoff, kind: AcceptErrorKind) -> (r: AcceptDecision)
    requires
        old(backoff).wf(),
    ensures
        final(backoff).wf(),
        !spec_retryable(kind) ==> r == AcceptDecision::FailFatal && *final(backoff) == *old(backoff),
        spec_retryable(kind) && old(backoff).delay_ms > MAX_BACKOFF_MS ==> r
            == AcceptDecision::FailTimeout && *final(backoff) == *old(backoff),
        spec_retryable(kind) && old(backoff).delay_ms <= MAX_BACKOFF_MS ==> r
            == AcceptDecision::Sleep(old(backoff).delay_ms) && final(backoff).delay_ms == 2 * old(backoff).delay_ms && final(backoff).retries@ == old(backoff).retries@ + 1,
        r matches AcceptDecision::Sleep(d) ==> d == spec_backoff_delay(old(backoff).retries@) && d
            <= MAX_BACKOFF_MS,
{
    if !should_retry(kind) {
        AcceptDecision::FailFatal
    } else if backoff.delay_ms > MAX_BACKOFF_MS {
        AcceptDecision::FailTimeout
    } else {
        let delay: u64 = backoff.delay_ms;
        backoff.delay_ms = delay * 2;
        proof {
            backoff.retries@ = old(backoff).retries@ + 1;
        }
        AcceptDecision::Sleep(delay)
    }
}

/// One successful accept: the new conversation's association is bound to
/// the given outbound sender, so outbound writes can reach it, and the
/// accepted stream is wrapped for the supervisor. Any stale registry entry
/// for the same association is overwritten with the given sender.
pub fn accept_step(
    registry: &mut Registry,
    gate: Gate,
    remote_addr: SocketAddress,
    tcp_stream: TcpStream,
    lone_output_tx: Sender<Zip>,
) -> (r: GateAccept)
    ensures
        final(registry).model@ == old(registry).model@.insert(
            tcp_association(gate.spec_local_addr(), remote_addr),
            lone_output_tx,
        ),
        final(registry).associations() == old(registry).associations().insert(
            tcp_association(gate.spec_local_addr(), remote_addr),
        ),
        r == GateAccept::Tcp(gate, remote_addr, tcp_stream),
{
    let local_addr = *gate.get_local_addr();
    let association = Association::new(local_addr, remote_addr, Protocol::TCP);
    registry.insert(association, lone_output_tx);
    GateAccept::accept_tcp(gate, remote_addr, tcp_stream)
}

/// What one read attempt on the stream came to, as plain values.
#[derive(Debug)]
pub enum TcpReadOutcome {
    /// The bytes a successful read yielded (never more than the buffer).
    Data(Vec<u8>),
    /// A read of length zero: the peer closed in an orderly way.
    Eof,
    /// A transient would-block result.
    WouldBlock,
    /// Any other read error.
    Fatal,
}

/// What the read loop does next: the message to emit downstream, if any,
/// and whether the loop is over.
#[derive(Debug, PartialEq)]
pub struct ReadStep {
    pub zip: Option<Zip>,
    pub done: bool,
}

/// One turn of the TCP read loop. A successful read emits exactly one data
/// message carrying the bytes unmodified; the peer's orderly close removes
/// the association from the registry and emits exactly one disconnect event,
/// after which the loop is over; a would-block result is retried in place;
/// any other read failure removes the association and ends the loop without
/// an event (only an orderly close signals a disconnect downstream).
pub fn tcp_read_step(
    registry: &mut Registry,
    local_addr: SocketAddress,
    remote_addr: SocketAddress,
    outcome: TcpReadOutcome,
) -> (r: ReadStep)
    requires
        outcome matches TcpReadOutcome::Data(data) ==> 0 < data@.len() <= SOCKET_BUFFER_SIZE,
    ensures
        outcome matches TcpReadOutcome::Data(data) ==> r.zip == Some(
            Zip::Data(
                (Package {
                    association: tcp_association(local_addr, remote_addr),
                    data,
                }),
            ),
        ) && !r.done && *final(registry) == *old(registry),
        outcome is Eof ==> r.zip == Some(
            Zip::Event(
                (Event {
                    association: tcp_association(local_addr, remote_addr),
                    type_code: DISCONNECT_CODE,
                }),
            ),
        ) && r.done,
        outcome is Eof || outcome is Fatal ==> final(registry).model@ == old(registry).model@.remove(
            tcp_association(local_addr, remote_addr),
        ) && final(registry).associations() == old(registry).associations().remove(
            tcp_association(local_addr, remote_addr),
        ) && !final(registry).associations().contains(tcp_association(local_addr, remote_addr)),
        outcome is WouldBlock ==> r.zip is None && !r.done && *final(registry) == *old(registry),
        outcome is Fatal ==> r.zip is None && r.done,
{
    match outcome {
        TcpReadOutcome::Data(data) => {
            let association = Association::new(local_addr, remote_addr, Protocol::TCP);
            ReadStep { zip: Some(Zip::build_data(Package::new(association, data))), done: false }
        },
        TcpReadOutcome::Eof => {
            let association = Association::new(local_addr, remote_addr, Protocol::TCP);
            registry.remove(&association);
            ReadStep {
                zip: Some(Zip::build_event(Event::new(association, DISCONNECT_CODE))),
                done: true,
            }
        },
        TcpReadOutcome::WouldBlock => ReadStep { zip: None, done: false },
        TcpReadOutcome::Fatal => {
            let association = Association::new(local_addr, remote_addr, Protocol::TCP);
            registry.remove(&association);
            ReadStep { zip: None, done: true }
        },
    }
}

/// What the write loop does with one received message: the package whose
/// bytes are to be written, if any, and whether the loop is over.
#[derive(Debug, PartialEq)]
pub struct WriteStep {
    pub payload: Option<Package>,
    pub done: bool,
}

/// One turn of the TCP write loop over a received message. A data message
/// is handed back for writing; a disconnect event removes the association
/// from the registry and ends the loop (the driver then shuts the write
/// half down); any other event is ignored.
pub fn tcp_write_step(registry: &mut Registry, zip: Zip) -> (r: WriteStep)
    ensures
        zip matches Zip::Data(package) ==> r.payload == Some(package) && !r.done && *final(registry)
            == *old(registry),
        zip matches Zip::Event(event) ==> r.payload is None,
        zip matches Zip::Event(event) ==> event.type_code == DISCONNECT_CODE ==> r.done && final(registry).model@ == old(registry).model@.remove(event.association) && final(registry).associations() == old(registry).associations().remove(event.association),
        zip matches Zip::Event(event) ==> event.type_code != DISCONNECT_CODE ==> !r.done && *final(registry) == *old(registry),
{
    match zip {
        Zip::Data(package) => WriteStep { payload: Some(package), done: false },
        Zip::Event(event) => {
            if event.type_code == DISCONNECT_CODE {
                registry.remove(&event.association);
                WriteStep { payload: None, done: true }
            } else {
                WriteStep { payload: None, done: false }
            }
        },
    }
}

/// What one write attempt on the stream came to, as plain values.
#[derive(Debug, Eq, PartialEq, Clone, Copy, Structural)]
pub enum WriteOutcome {
    /// The bytes were written.
    Written,
    /// A transient would-block result.
    WouldBlock,
    /// Any other write error.
    Fatal,
}

/// What the write loop does after one write attempt: whether the same
/// package is retried, and whether the loop is over.
#[derive(Debug, Eq, PartialEq, Clone, Copy, Structural)]
pub struct WriteResultStep {
    pub retry: bool,
    pub done: bool,
}

/// One turn of the TCP write loop over the result of a write. Success moves
/// on; a would-block result retries the same package in place; any other
/// write error removes the association from the registry and ends the loop.
pub fn tcp_write_result_step(
    registry: &mut Registry,
    association: Association,
    outcome: WriteOutcome,
) -> (r: WriteResultStep)
    ensures
        outcome is Written ==> !r.retry && !r.done && *final(registry) == *old(registry),
        outcome is WouldBlock ==> r.retry && !r.done && *final(registry) == *old(registry),
        outcome is Fatal ==> !r.retry && r.done && final(registry).model@ == old(registry).model@.remove(association) && final(registry).associations() == old(registry).associations().remove(association),
{
    match outcome {
        WriteOutcome::Written => WriteResultStep { retry: false, done: false },
        WriteOutcome::WouldBlock => WriteResultStep { retry: true, done: false },
        WriteOutcome::Fatal => {
            registry.remove(&association);
            WriteResultStep { retry: false, done: true }
        },
    }
}

} // verus!
