//! The one-shot UDP exchange as a state machine: open, bind, send,
//! receive, close, in that order, with the socket closed on every exit
//! path, success and failure alike.
//!
//! The operating-system calls themselves happen outside this crate.
//! A driver performs the action handed out here, then feeds the call's
//! return code back into [`transport_step`]; the step function decides
//! the next phase and action. What is verified: a run always stops
//! after boundedly many steps, it stops only with no socket held, and
//! once a socket exists the driver is told to close it before being
//! told to stop — the discipline that keeps repeated failures from
//! exhausting descriptors. Any negative return code of a call is
//! surfaced to the caller unchanged; no retry is ever asked for.

use vstd::prelude::*;

use crate::err::DnsError;

verus! {

/// The port a nameserver is addressed on.
pub const DNS_PORT: u16 = 53;

/// The fixed capacity a reply is received into.
pub const RECV_BUF_LEN: usize = 65536;

/// Where a one-shot exchange stands: which call has completed last,
/// or how it ended.
#[derive(Clone, Copy, Debug, PartialEq, Eq, Structural)]
pub enum TransportPhase {
    /// Nothing done yet; the next return code is the open call's.
    Ready,
    /// The socket is open; the next return code is the bind call's.
    Opened,
    /// The socket is bound; the next return code is the send call's.
    Bound,
    /// The request is sent; the next return code is the receive call's.
    Sent,
    /// A reply of `len` bytes arrived; the socket is still open.
    Received {
        /// Number of bytes received.
        len: u64,
    },
    /// A call failed with `code`; the socket is still open.
    Failing {
        /// The nonpositive return code of the failed call.
        code: i64,
    },
    /// The exchange succeeded and the socket is closed.
    DoneOk {
        /// Number of bytes received.
        len: u64,
    },
    /// The exchange failed and the socket is closed.
    DoneErr {
        /// The return code of the call that failed.
        code: i64,
    },
}

/// What the driver is asked to do next.
#[derive(Clone, Copy, Debug, PartialEq, Eq, Structural)]
pub enum TransportAction {
    /// Open a datagram socket.
    Open,
    /// Bind it for the exchange with the resolver.
    Bind,
    /// Send the whole request buffer.
    Send,
    /// Receive one reply into the fixed-size buffer.
    Recv,
    /// Close the socket.
    Close,
    /// The run is over; no further call.
    Stop,
}

/// Whether the phase holds an open socket descriptor.
pub open spec fn holds_socket(p: TransportPhase) -> bool {
    match p {
        TransportPhase::Ready => false,
        TransportPhase::Opened => true,
        TransportPhase::Bound => true,
        TransportPhase::Sent => true,
        TransportPhase::Received { .. } => true,
        TransportPhase::Failing { .. } => true,
        TransportPhase::DoneOk { .. } => false,
        TransportPhase::DoneErr { .. } => false,
    }
}

/// Whether the phase is terminal: the run is over.
pub open spec fn terminal(p: TransportPhase) -> bool {
    match p {
        TransportPhase::DoneOk { .. } => true,
        TransportPhase::DoneErr { .. } => true,
        _ => false,
    }
}

/// How many steps a run can still take from this phase.
pub open spec fn phase_rank(p: TransportPhase) -> nat {
    match p {
        TransportPhase::Ready => 6,
        TransportPhase::Opened => 5,
        TransportPhase::Bound => 4,
        TransportPhase::Sent => 3,
        TransportPhase::Received { .. } => 2,
        TransportPhase::Failing { .. } => 1,
        TransportPhase::DoneOk { .. } => 0,
        TransportPhase::DoneErr { .. } => 0,
    }
}

/// The transition of one step: from the current phase and the return
/// code `rc` of the action just performed, the next phase and the next
/// action. A negative code fails the call it answers; the receive call
/// additionally fails on zero. Every failure after the open call goes
/// through `Failing`, whose pending action is the close.
pub open spec fn step_spec(p: TransportPhase, rc: i64) -> (TransportPhase, TransportAction) {
    match p {
        TransportPhase::Ready => if rc < 0 {
            (TransportPhase::DoneErr { code: rc }, TransportAction::Stop)
        } else {
            (TransportPhase::Opened, TransportAction::Bind)
        },
        TransportPhase::Opened => if rc < 0 {
            (TransportPhase::Failing { code: rc }, TransportAction::Close)
        } else {
            (TransportPhase::Bound, TransportAction::Send)
        },
        TransportPhase::Bound => if rc < 0 {
            (TransportPhase::Failing { code: rc }, TransportAction::Close)
        } else {
            (TransportPhase::Sent, TransportAction::Recv)
        },
        TransportPhase::Sent => if rc <= 0 {
            (TransportPhase::Failing { code: rc }, TransportAction::Close)
        } else {
            (TransportPhase::Received { len: rc as u64 }, TransportAction::Close)
        },
        TransportPhase::Received { len } => (
            TransportPhase::DoneOk { len },
            TransportAction::Stop,
        ),
        TransportPhase::Failing { code } => (
            TransportPhase::DoneErr { code },
            TransportAction::Stop,
        ),
        TransportPhase::DoneOk { len } => (TransportPhase::DoneOk { len }, TransportAction::Stop),
        TransportPhase::DoneErr { code } => (
            TransportPhase::DoneErr { code },
            TransportAction::Stop,
        ),
    }
}

/// Advances the exchange by one step. The driver performs the action
/// this hands out, then calls again with that call's return code.
/// Besides following [`step_spec`] exactly, every step makes progress,
/// stops only in a socketless terminal phase, and asks for the close
/// whenever a failure or a reply leaves an open socket behind.
pub fn transport_step(phase: &TransportPhase, rc: i64) -> (r: (TransportPhase, TransportAction))
    requires
        !terminal(*phase),
    ensures
        r == step_spec(*phase, rc),
        phase_rank(r.0) < phase_rank(*phase),
        r.1 is Stop <==> terminal(r.0),
        terminal(r.0) ==> !holds_socket(r.0),
        r.0 matches TransportPhase::Failing { .. } ==> r.1 is Close,
        r.0 matches TransportPhase::Received { .. } ==> r.1 is Close,
{
    match phase {
        TransportPhase::Ready => if rc < 0 {
            (TransportPhase::DoneErr { code: rc }, TransportAction::Stop)
        } else {
            (TransportPhase::Opened, TransportAction::Bind)
        },
        TransportPhase::Opened => if rc < 0 {
            (TransportPhase::Failing { code: rc }, TransportAction::Close)
        } else {
            (TransportPhase::Bound, TransportAction::Send)
        },
        TransportPhase::Bound => if rc < 0 {
            (TransportPhase::Failing { code: rc }, TransportAction::Close)
        } else {
            (TransportPhase::Sent, TransportAction::Recv)
        },
        TransportPhase::Sent => if rc <= 0 {
            (TransportPhase::Failing { code: rc }, TransportAction::Close)
        } else {
            (TransportPhase::Received { len: rc as u64 }, TransportAction::Close)
        },
        TransportPhase::Received { len } => (
            TransportPhase::DoneOk { len: *len },
            TransportAction::Stop,
        ),
        TransportPhase::Failing { code } => (
            TransportPhase::DoneErr { code: *code },
            TransportAction::Stop,
        ),
        TransportPhase::DoneOk { len } => (
            TransportPhase::DoneOk { len: *len },
            TransportAction::Stop,
        ),
        TransportPhase::DoneErr { code } => (
            TransportPhase::DoneErr { code: *code },
            TransportAction::Stop,
        ),
    }
}

/// The action a fresh run starts with: opening the socket.
pub fn transport_start() -> (r: TransportAction)
    ensures
        r is Open,
{
    TransportAction::Open
}

/// The result of a finished exchange: the received length, or the
/// transport error carrying the return code of the call that failed.
pub fn transport_outcome(phase: &TransportPhase) -> (r: Result<u64, DnsError>)
    requires
        terminal(*phase),
    ensures
        *phase matches TransportPhase::DoneOk { len } ==> r == Ok::<u64, DnsError>(len),
        *phase matches TransportPhase::DoneErr { code } ==> r == Err::<u64, DnsError>(
            DnsError::Transport { code },
        ),
{
    match phase {
        TransportPhase::DoneOk { len } => Ok(*len),
        TransportPhase::DoneErr { code } => Err(DnsError::Transport { code: *code }),
        _ => Ok(0),
    }
}

/// The phase a run reaches from `p` under the return codes `rcs`, one
/// per step, stopping early in a terminal phase.
pub open spec fn run_from(p: TransportPhase, rcs: Seq<i64>) -> TransportPhase
    decreases rcs.len(),
{
    if terminal(p) || rcs.len() == 0 {
        p
    } else {
        run_from(step_spec(p, rcs[0]).0, rcs.drop_first())
    }
}

/// From any phase, a run is terminal and holds no socket once it has
/// taken `phase_rank` many steps, whatever the calls returned.
proof fn lemma_run_from_closes(p: TransportPhase, rcs: Seq<i64>)
    requires
        rcs.len() >= phase_rank(p),
    ensures
        terminal(run_from(p, rcs)),
        !holds_socket(run_from(p, rcs)),
    decreases rcs.len(),
{
    if terminal(p) {
    } else {
        lemma_run_from_closes(step_spec(p, rcs[0]).0, rcs.drop_first());
    }
}

/// Socket-lifecycle law: however many consecutive exchanges are run,
/// and however the operating-system calls turn out — an unreachable
/// resolver included — each run from the start phase is over within
/// six steps and ends in a terminal phase that holds no socket
/// descriptor; the error path closes the socket exactly like the
/// success path.
pub proof fn lemma_transport_run_closes(rcs: Seq<i64>)
    requires
        rcs.len() >= 6,
    ensures
        terminal(run_from(TransportPhase::Ready, rcs)),
        !holds_socket(run_from(TransportPhase::Ready, rcs)),
{
    lemma_run_from_closes(TransportPhase::Ready, rcs);
}

} // verus!
