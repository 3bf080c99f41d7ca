//! The per-connection driver's state machine: the phases one connection
//! passes through and the transitions between them.  The embedding
//! executable performs the I/O of each phase and reports its outcome as an
//! event; the machine says what phase follows.

use vstd::prelude::*;

verus! {

/// Why a connection closed.
#[derive(Debug, Clone, Copy, PartialEq, Eq, Structural)]
pub enum CloseReason {
    /// The relay saw end of stream in one direction: the normal end.
    Completed,
    /// The handshake did not finish within the handshake timeout.
    HandshakeTimeout,
    /// The greeting was malformed or no method was acceptable.
    HandshakeFailed,
    /// The request was malformed; the error reply was sent when possible.
    RequestFailed,
    /// The command could not be served; the error reply was sent.
    CommandFailed,
    /// One relay direction failed with an I/O error.
    RelayFailed,
    /// The request phase or the relay overran the connection timeout.
    ConnectionTimeout,
}

/// The phase a connection is in.
#[derive(Debug, Clone, Copy, PartialEq, Eq, Structural)]
pub enum ConnectionPhase {
    /// Accepted, nothing exchanged yet.
    Init,
    /// Reading the greeting and writing the method selection.
    Handshake,
    /// Reading the request, resolving and validating it.
    Request,
    /// Running the command and writing the reply.
    Reply,
    /// Copying octets in both directions.
    Relay,
    /// Both sockets dropped.
    Closed(CloseReason),
}

/// What the embedding executable reports after working one phase.
#[derive(Debug, Clone, Copy, PartialEq, Eq, Structural)]
pub enum ConnectionEvent {
    /// The connection is set up (buffers allocated, options applied).
    Accepted,
    /// The greeting was answered with a selected method.
    GreetingAccepted,
    /// The greeting failed; any refusal frame has been written.
    GreetingRejected,
    /// The handshake deadline fired.
    HandshakeTimedOut,
    /// A valid request was parsed and resolved.
    RequestAccepted,
    /// The request failed; the error reply was written when possible.
    RequestRejected,
    /// The command handler failed; the error reply was written.
    CommandRejected,
    /// The success reply was written and a target socket is open.
    ReplySent,
    /// One relay direction saw end of stream.
    RelayEnded,
    /// A relay direction failed with an I/O error.
    RelayFailed,
    /// The connection deadline fired.
    ConnectionTimedOut,
}

/// The transition table of the driver: for each phase, which events can
/// arise and the phase that follows.  `None` marks a pair the driver never
/// produces.
pub open spec fn spec_advance(
    phase: ConnectionPhase,
    event: ConnectionEvent,
) -> Option<ConnectionPhase> {
    match (phase, event) {
        (ConnectionPhase::Init, ConnectionEvent::Accepted) => Some(ConnectionPhase::Handshake),
        (ConnectionPhase::Handshake, ConnectionEvent::GreetingAccepted) => Some(
            ConnectionPhase::Request,
        ),
        (ConnectionPhase::Handshake, ConnectionEvent::GreetingRejected) => Some(
            ConnectionPhase::Closed(CloseReason::HandshakeFailed),
        ),
        (ConnectionPhase::Handshake, ConnectionEvent::HandshakeTimedOut) => Some(
            ConnectionPhase::Closed(CloseReason::HandshakeTimeout),
        ),
        (ConnectionPhase::Request, ConnectionEvent::RequestAccepted) => Some(ConnectionPhase::Reply),
        (ConnectionPhase::Request, ConnectionEvent::RequestRejected) => Some(
            ConnectionPhase::Closed(CloseReason::RequestFailed),
        ),
        (ConnectionPhase::Request, ConnectionEvent::ConnectionTimedOut) => Some(
            ConnectionPhase::Closed(CloseReason::ConnectionTimeout),
        ),
        (ConnectionPhase::Reply, ConnectionEvent::ReplySent) => Some(ConnectionPhase::Relay),
        (ConnectionPhase::Reply, ConnectionEvent::CommandRejected) => Some(
            ConnectionPhase::Closed(CloseReason::CommandFailed),
        ),
        (ConnectionPhase::Reply, ConnectionEvent::ConnectionTimedOut) => Some(
            ConnectionPhase::Closed(CloseReason::ConnectionTimeout),
        ),
        (ConnectionPhase::Relay, ConnectionEvent::RelayEnded) => Some(
            ConnectionPhase::Closed(CloseReason::Completed),
        ),
        (ConnectionPhase::Relay, ConnectionEvent::RelayFailed) => Some(
            ConnectionPhase::Closed(CloseReason::RelayFailed),
        ),
        (ConnectionPhase::Relay, ConnectionEvent::ConnectionTimedOut) => Some(
            ConnectionPhase::Closed(CloseReason::ConnectionTimeout),
        ),
        _ => None,
    }
}

impl ConnectionPhase {
    /// Advance the machine by one event.
    pub fn advance(self, event: ConnectionEvent) -> (next: Option<ConnectionPhase>)
        ensures
            next == spec_advance(self, event),
    {
        match (self, event) {
            (ConnectionPhase::Init, ConnectionEvent::Accepted) => Some(ConnectionPhase::Handshake),
            (ConnectionPhase::Handshake, ConnectionEvent::GreetingAccepted) => Some(
                ConnectionPhase::Request,
            ),
            (ConnectionPhase::Handshake, ConnectionEvent::GreetingRejected) => Some(
                ConnectionPhase::Closed(CloseReason::HandshakeFailed),
            ),
            (ConnectionPhase::Handshake, ConnectionEvent::HandshakeTimedOut) => Some(
                ConnectionPhase::Closed(CloseReason::HandshakeTimeout),
            ),
            (ConnectionPhase::Request, ConnectionEvent::RequestAccepted) => Some(
                ConnectionPhase::Reply,
            ),
            (ConnectionPhase::Request, ConnectionEvent::RequestRejected) => Some(
                ConnectionPhase::Closed(CloseReason::RequestFailed),
            ),
            (ConnectionPhase::Request, ConnectionEvent::ConnectionTimedOut) => Some(
                ConnectionPhase::Closed(CloseReason::ConnectionTimeout),
            ),
            (ConnectionPhase::Reply, ConnectionEvent::ReplySent) => Some(ConnectionPhase::Relay),
            (ConnectionPhase::Reply, ConnectionEvent::CommandRejected) => Some(
                ConnectionPhase::Closed(CloseReason::CommandFailed),
            ),
            (ConnectionPhase::Reply, ConnectionEvent::ConnectionTimedOut) => Some(
                ConnectionPhase::Closed(CloseReason::ConnectionTimeout),
            ),
            (ConnectionPhase::Relay, ConnectionEvent::RelayEnded) => Some(
                ConnectionPhase::Closed(CloseReason::Completed),
            ),
            (ConnectionPhase::Relay, ConnectionEvent::RelayFailed) => Some(
                ConnectionPhase::Closed(CloseReason::RelayFailed),
            ),
            (ConnectionPhase::Relay, ConnectionEvent::ConnectionTimedOut) => Some(
                ConnectionPhase::Closed(CloseReason::ConnectionTimeout),
            ),
            _ => None,
        }
    }

    /// Whether the phase is terminal.
    pub fn is_closed(self) -> (r: bool)
        ensures
            r == (self is Closed),
    {
        matches!(self, ConnectionPhase::Closed(_))
    }
}

/// A closed connection stays closed: no event leads out of a terminal
/// phase.
pub proof fn lemma_closed_is_terminal(reason: CloseReason, event: ConnectionEvent)
    ensures
        spec_advance(ConnectionPhase::Closed(reason), event) is None,
{
}

} // verus!
