//! Error types for the circuit data-plane core.
//!
//! Failures fall into two classes.  A *protocol violation* means the peer
//! (or an onion service talking to us) broke the rules: the circuit must be
//! torn down, and never silently, because ignoring bogus handshake cells
//! would weaken the defences against traffic-correlation attacks.  An
//! *internal* error means one of this crate's own invariants was broken by
//! its caller; it is still fatal, but points at a local bug rather than at
//! the peer.

use vstd::prelude::*;

verus! {

/// The two classes of fatal error this crate can report.
#[derive(Clone, Copy, Debug, PartialEq, Eq, Structural)]
pub enum ErrorKind {
    /// The peer misbehaved; the circuit is unusable and must be closed.
    ProtocolViolation,
    /// A local invariant was broken; indicates a bug in the calling code.
    Internal,
}

/// An error from the stream multiplexer or the conflux handler.
#[derive(Clone, Copy, Debug, PartialEq, Eq, Structural)]
pub enum Error {
    /// A relay cell arrived for a stream that does not exist and never did.
    CellOnUnknownStream,
    /// A stream's inbound sink was full: the peer sent more cells than
    /// flow control entitled it to.
    ExcessInboundCells,
    /// A stream-level SENDME would push the send window past its maximum.
    ExcessSendme,
    /// A stream-level SENDME arrived although this hop's congestion control
    /// does not use stream-level SENDME messages.
    UnexpectedStreamSendme,
    /// A message's command is not acceptable in the stream's current state.
    UnexpectedMessage,
    /// An END (or other stream-ending message) arrived for a stream whose
    /// end had already been received.
    EndReceivedTwice,
    /// A raw relay cell body could not be decoded.
    InvalidRelayCell,
    /// A conflux cell arrived from a hop other than the join point.
    ConfluxCellFromWrongHop,
    /// A CONFLUX_LINKED cell arrived before we ever sent CONFLUX_LINK.
    LinkedBeforeLink,
    /// A CONFLUX_LINKED cell arrived on an already-linked circuit.
    LinkedWhenLinked,
    /// A CONFLUX_LINKED cell carried a nonce different from the one we sent.
    LinkedNonceMismatch,
    /// A CONFLUX_LINK or CONFLUX_LINKED_ACK cell arrived at a client,
    /// which may never receive either.
    UnexpectedConfluxCell,
    /// A CONFLUX_SWITCH cell arrived on a circuit that is not linked.
    SwitchOnUnlinkedCircuit,
    /// A CONFLUX_SWITCH cell carried a relative sequence number of zero.
    ZeroSeqnoSwitch,
    /// We tried to send CONFLUX_LINK twice on the same leg.
    DuplicateLinkSent,
    /// A non-conflux cell was routed to the conflux message handler.
    NonConfluxCellInHandler,
    /// We tried to send a relay cell on a stream that is not open.
    StreamNotOpen,
    /// We tried to send a window-counted message with no window capacity.
    NoSendCapacity,
    /// A peer opened a stream with an ID that is still in use.
    StreamIdInUse,
    /// A peer opened a stream with the reserved ID zero.
    ZeroStreamId,
    /// We tried to close a stream this hop does not know about.
    TerminateUnknownStream,
    /// We tried to close a stream whose END we had already sent.
    TerminatedTwice,
    /// Every stream ID on this hop has been used up.
    StreamIdsExhausted,
    /// We tried to replace a stream map that still has open streams.
    DiscardedOpenStreams,
}

impl Error {
    /// Which class this error belongs to, as a specification-level value.
    pub open spec fn spec_kind(self) -> ErrorKind {
        match self {
            Error::DuplicateLinkSent => ErrorKind::Internal,
            Error::NonConfluxCellInHandler => ErrorKind::Internal,
            Error::StreamNotOpen => ErrorKind::Internal,
            Error::NoSendCapacity => ErrorKind::Internal,
            Error::TerminateUnknownStream => ErrorKind::Internal,
            Error::TerminatedTwice => ErrorKind::Internal,
            Error::StreamIdsExhausted => ErrorKind::Internal,
            Error::DiscardedOpenStreams => ErrorKind::Internal,
            _ => ErrorKind::ProtocolViolation,
        }
    }

    /// Which class this error belongs to.
    pub fn kind(&self) -> (k: ErrorKind)
        ensures
            k == self.spec_kind(),
    {
        match self {
            Error::DuplicateLinkSent => ErrorKind::Internal,
            Error::NonConfluxCellInHandler => ErrorKind::Internal,
            Error::StreamNotOpen => ErrorKind::Internal,
            Error::NoSendCapacity => ErrorKind::Internal,
            Error::TerminateUnknownStream => ErrorKind::Internal,
            Error::TerminatedTwice => ErrorKind::Internal,
            Error::StreamIdsExhausted => ErrorKind::Internal,
            Error::DiscardedOpenStreams => ErrorKind::Internal,
            _ => ErrorKind::ProtocolViolation,
        }
    }

    /// True if the peer broke the protocol.
    pub fn is_protocol_violation(&self) -> (r: bool)
        ensures
            r == (self.spec_kind() == ErrorKind::ProtocolViolation),
    {
        self.kind() == ErrorKind::ProtocolViolation
    }
}

/// The result type used throughout this crate.
pub type Result<T> = core::result::Result<T, Error>;

} // verus!
