//! The command channel: one short-lived request/response exchange per call.
//!
//! A call first resolves the session's endpoint — failing with
//! `NotConfigured`, and touching no transport, when the endpoint was never
//! stored — then the shell opens a fresh connection, writes the command line
//! with its terminator, and blocks for exactly one response line.  The
//! verified half decides the exchange: which endpoint to dial, and which
//! channel error each failed transport step surfaces.

use vstd::prelude::*;
use vstd::string::StringExecFns;
use crate::session::SessionState;

verus! {

broadcast use vstd::seq::group_seq_axioms;

/// Errors surfaced by one command exchange.
#[derive(Clone, Copy, Debug, PartialEq, Eq, Structural)]
pub enum ChannelError {
    /// The session's endpoint was never stored: an ordering error in the
    /// caller, detected before any transport work.
    NotConfigured,
    /// The endpoint was unreachable (engine not yet started, or gone).
    Connect,
    /// Writing the command line failed mid-exchange.
    Write,
    /// Reading the response line failed mid-exchange.
    Read,
}

impl ChannelError {
    /// Human-readable failure text surfaced by the facade operations.
    pub fn message(&self) -> (r: String)
        ensures
            *self == ChannelError::NotConfigured ==> r@ == "IPC path not set"@,
            *self == ChannelError::Connect ==> r@ == "Failed to connect to socket"@,
            *self == ChannelError::Write ==> r@ == "Failed to write command"@,
            *self == ChannelError::Read ==> r@ == "Failed to read response"@,
    {
        match self {
            ChannelError::NotConfigured => String::from_str("IPC path not set"),
            ChannelError::Connect => String::from_str("Failed to connect to socket"),
            ChannelError::Write => String::from_str("Failed to write command"),
            ChannelError::Read => String::from_str("Failed to read response"),
        }
    }
}

/// Which blocking transport step of an exchange failed.
#[derive(Clone, Copy, Debug, PartialEq, Eq, Structural)]
pub enum TransportFailure {
    ConnectFailed,
    WriteFailed,
    ReadFailed,
}

/// Resolve the endpoint for one exchange.  Before setup has stored the
/// endpoint this returns `NotConfigured` — and, since it only reads the
/// session state, no connection is ever opened for such a call.
pub fn prepare_send(state: &SessionState) -> (r: Result<String, ChannelError>)
    ensures
        state.configured() ==> (r matches Ok(p) && p@ == state.endpoint_text()),
        !state.configured() ==> (r matches Err(e) && e == ChannelError::NotConfigured),
{
    match state.endpoint() {
        Some(p) => Ok(p.clone()),
        None => Err(ChannelError::NotConfigured),
    }
}

/// The channel error surfaced for a failed transport step.
pub fn failure_error(f: TransportFailure) -> (e: ChannelError)
    ensures
        f == TransportFailure::ConnectFailed ==> e == ChannelError::Connect,
        f == TransportFailure::WriteFailed ==> e == ChannelError::Write,
        f == TransportFailure::ReadFailed ==> e == ChannelError::Read,
{
    match f {
        TransportFailure::ConnectFailed => ChannelError::Connect,
        TransportFailure::WriteFailed => ChannelError::Write,
        TransportFailure::ReadFailed => ChannelError::Read,
    }
}

/// Fold the transport's outcome into the channel's result: the response line
/// is returned verbatim, a failed step surfaces as its channel error.
pub fn complete_send(outcome: Result<String, TransportFailure>) -> (r: Result<String, ChannelError>)
    ensures
        outcome matches Ok(line) ==> (r matches Ok(l) && l == line),
        outcome matches Err(f) ==> (r matches Err(e) && e == failure_error_spec(f)),
{
    match outcome {
        Ok(line) => Ok(line),
        Err(f) => Err(failure_error(f)),
    }
}

/// The framed form of one outbound line: the line followed by the
/// protocol's line terminator.
pub open spec fn framed_line(line: Seq<char>) -> Seq<char> {
    line + seq!['\n']
}

/// Frame one outbound line with its terminator before it is written.
pub fn wire_frame(line: &str) -> (r: String)
    ensures
        r@ == framed_line(line@),
{
    let mut s = String::from_str(line);
    s.append("\n");
    proof {
        reveal_strlit("\n");
        assert("\n"@ =~= seq!['\n']);
    }
    s
}

/// The error mapping of `failure_error`, as a spec-level function.
pub open spec fn failure_error_spec(f: TransportFailure) -> ChannelError {
    match f {
        TransportFailure::ConnectFailed => ChannelError::Connect,
        TransportFailure::WriteFailed => ChannelError::Write,
        TransportFailure::ReadFailed => ChannelError::Read,
    }
}

} // verus!
