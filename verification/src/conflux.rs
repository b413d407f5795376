//! The client-side conflux link state machine, one instance per circuit
//! leg.
//!
//! Conflux carries one logical tunnel over several circuit legs.  Each leg
//! performs a handshake: the client sends CONFLUX_LINK carrying a nonce,
//! and the join-point relay answers with CONFLUX_LINKED carrying the same
//! nonce.  The state only ever advances `Unlinked` to `AwaitingLink` to
//! `Linked`; a LINKED cell is accepted only while awaiting it and only with
//! the exact nonce we sent.  That nonce check is the load-bearing defence
//! against dropmark-style traffic-confirmation attacks: an attacker who
//! could forge or replay LINKED could correlate streams across legs, so
//! every illegal handshake cell is a fatal protocol error, never a silent
//! no-op.
//!
//! Once linked, CONFLUX_SWITCH cells move the peer's sending between legs;
//! their strictly positive relative sequence number advances this leg's
//! received-sequence counter.  Handshake and switch cells are out-of-band:
//! they never count toward the sequence numbers themselves.

use vstd::prelude::*;

use crate::circhop::{CircuitCmd, SendRelayCell};
use crate::err::{Error, Result};
use crate::relaycell::{AnyRelayMsg, AnyRelayMsgOuter, HopNum, RelayCmd, V1Nonce};
use crate::time::{DynTimeProvider, TimeProviderImpl};

verus! {

/// How long to wait for the LINKED reply after sending LINK, in
/// milliseconds.  Past this deadline the owning reactor must treat the
/// handshake as failed.
pub const LINK_TIMEOUT_MILLIS: u64 = 60_000;

/// The externally visible progress of a leg's conflux handshake.
#[derive(Clone, Copy, Debug, PartialEq, Eq, Structural)]
pub enum ConfluxStatus {
    /// No LINK cell has been sent yet.
    Unlinked,
    /// LINK was sent; awaiting the LINKED reply.
    Pending,
    /// The handshake finished; the leg carries multiplexed traffic.
    Linked,
}

/// The internal handshake state of a leg.
#[derive(Clone, Copy, Debug, PartialEq, Eq, Structural)]
pub enum ConfluxState {
    /// The circuit is not linked.
    Unlinked,
    /// The LINK cell was sent with this nonce; awaiting the reply.
    AwaitingLink(V1Nonce),
    /// The circuit is linked.
    Linked,
}

/// Client-side conflux message handler for one circuit leg.
pub struct ClientConfluxMsgHandler {
    /// The current state this leg is in.
    pub state: ConfluxState,
    /// The nonce shared by all the circuits of this conflux set.
    pub nonce: V1Nonce,
    /// The hop at which the legs of the set join.
    pub join_point: HopNum,
    /// The initial round-trip time measured by the handshake: the time
    /// between sending LINK and receiving a valid LINKED.
    pub init_rtt: Option<u64>,
    /// When the LINK cell was sent, in wall-clock milliseconds.
    pub link_sent: Option<u64>,
    /// The clock used to measure the round-trip time.
    pub runtime: DynTimeProvider,
    /// The relative sequence number of the last multiplexed cell received
    /// on this leg; the owning reactor bumps it once per qualifying cell.
    pub last_seq_recv: u64,
    /// The relative sequence number of the last multiplexed cell sent on
    /// this leg; the owning reactor bumps it once per qualifying cell.
    pub last_seq_sent: u64,
}

impl ClientConfluxMsgHandler {
    /// The handler's structural invariant: a leg past `Unlinked` remembers
    /// when LINK was sent (early enough that the timeout arithmetic cannot
    /// overflow), and a leg awaiting its reply awaits it under the
    /// handler's own nonce.
    pub open spec fn wf(self) -> bool {
        &&& (self.state is AwaitingLink || self.state is Linked) ==> self.link_sent is Some
        &&& (self.link_sent matches Some(t) ==> t + LINK_TIMEOUT_MILLIS <= u64::MAX)
        &&& (self.state matches ConfluxState::AwaitingLink(n) ==> n == self.nonce)
    }

    /// Create a new handler for a leg whose join point is `join_point` and
    /// whose set is identified by `nonce`.
    pub fn new(join_point: HopNum, nonce: V1Nonce, runtime: DynTimeProvider) -> (r: Self)
        ensures
            r.wf(),
            r.state == ConfluxState::Unlinked,
            r.nonce == nonce,
            r.join_point == join_point,
            r.init_rtt is None,
            r.link_sent is None,
            r.runtime == runtime,
            r.last_seq_recv == 0,
            r.last_seq_sent == 0,
    {
        ClientConfluxMsgHandler {
            state: ConfluxState::Unlinked,
            nonce,
            join_point,
            init_rtt: None,
            link_sent: None,
            runtime,
            last_seq_recv: 0,
            last_seq_sent: 0,
        }
    }

    /// Check that a conflux cell came from the join point: conflux cells
    /// from any other hop are a protocol violation.
    pub fn validate_source_hop(&self, _msg: &AnyRelayMsg, hop: HopNum) -> (r: Result<()>)
        ensures
            (r is Ok) <==> (hop == self.join_point),
            (r is Err) ==> r == Err::<(), Error>(Error::ConfluxCellFromWrongHop),
    {
        if hop != self.join_point {
            return Err(Error::ConfluxCellFromWrongHop);
        }
        Ok(())
    }

    /// The externally visible progress of this leg's handshake.
    pub fn status(&self) -> (r: ConfluxStatus)
        ensures
            r == (match self.state {
                ConfluxState::Unlinked => ConfluxStatus::Unlinked,
                ConfluxState::AwaitingLink(_) => ConfluxStatus::Pending,
                ConfluxState::Linked => ConfluxStatus::Linked,
            }),
    {
        match self.state {
            ConfluxState::Unlinked => ConfluxStatus::Unlinked,
            ConfluxState::AwaitingLink(_) => ConfluxStatus::Pending,
            ConfluxState::Linked => ConfluxStatus::Linked,
        }
    }

    /// Note that the LINK cell was sent at wall-clock time `ts` (in
    /// milliseconds), moving the leg from `Unlinked` to `AwaitingLink`.
    ///
    /// Sending LINK twice is a local bug, not peer misbehaviour: it is
    /// reported as an internal error and nothing changes.
    pub fn note_link_sent(&mut self, ts: u64) -> (r: Result<()>)
        requires
            old(self).wf(),
            ts + LINK_TIMEOUT_MILLIS <= u64::MAX,
        ensures
            final(self).wf(),
            if old(self).state is Unlinked {
                &&& r is Ok
                &&& *final(self) == (ClientConfluxMsgHandler {
                    state: ConfluxState::AwaitingLink(old(self).nonce),
                    link_sent: Some(ts),
                    ..*old(self)
                })
            } else {
                &&& r == Err::<(), Error>(Error::DuplicateLinkSent)
                &&& *final(self) == *old(self)
            },
    {
        match self.state {
            ConfluxState::Unlinked => {
                self.state = ConfluxState::AwaitingLink(self.nonce);
            },
            ConfluxState::AwaitingLink(_) | ConfluxState::Linked => {
                return Err(Error::DuplicateLinkSent);
            },
        }
        self.link_sent = Some(ts);
        Ok(())
    }

    /// The wall-clock time (in milliseconds) when the handshake on this
    /// leg times out, or `None` if no LINK has been sent yet.
    pub fn handshake_timeout(&self) -> (r: Option<u64>)
        requires
            self.wf(),
        ensures
            r == (match self.link_sent {
                Some(t) => Some((t + LINK_TIMEOUT_MILLIS) as u64),
                None => None::<u64>,
            }),
    {
        match self.link_sent {
            Some(t) => Some(t + LINK_TIMEOUT_MILLIS),
            None => None,
        }
    }

    /// The initial round-trip time measured by the handshake, if finished.
    pub fn init_rtt(&self) -> (r: Option<u64>)
        ensures
            r == self.init_rtt,
    {
        self.init_rtt
    }

    /// The relative sequence number of the last multiplexed cell received
    /// on this leg.
    pub fn last_seq_recv(&self) -> (r: u64)
        ensures
            r == self.last_seq_recv,
    {
        self.last_seq_recv
    }

    /// The relative sequence number of the last multiplexed cell sent on
    /// this leg.
    pub fn last_seq_sent(&self) -> (r: u64)
        ensures
            r == self.last_seq_sent,
    {
        self.last_seq_sent
    }

    /// Count one multiplexed cell received on this leg.
    pub fn inc_last_seq_recv(&mut self)
        requires
            old(self).last_seq_recv < u64::MAX,
        ensures
            *final(self) == (ClientConfluxMsgHandler {
                last_seq_recv: (old(self).last_seq_recv + 1) as u64,
                ..*old(self)
            }),
    {
        self.last_seq_recv = self.last_seq_recv + 1;
    }

    /// Count one multiplexed cell sent on this leg.
    pub fn inc_last_seq_sent(&mut self)
        requires
            old(self).last_seq_sent < u64::MAX,
        ensures
            *final(self) == (ClientConfluxMsgHandler {
                last_seq_sent: (old(self).last_seq_sent + 1) as u64,
                ..*old(self)
            }),
    {
        self.last_seq_sent = self.last_seq_sent + 1;
    }

    /// Dispatch one conflux cell from `hop` to the right handler.
    ///
    /// Routing a non-conflux cell here is a local bug.
    pub fn handle_msg(&mut self, msg: AnyRelayMsg, hop: HopNum) -> (r: Result<Option<CircuitCmd>>)
        requires
            old(self).wf(),
            old(self).last_seq_recv <= u64::MAX - u32::MAX as u64,
        ensures
            final(self).wf(),
            spec_handle_conflux(*old(self), msg, hop, *final(self), r),
    {
        match msg.cmd() {
            RelayCmd::ConfluxLink => self.handle_conflux_link(msg, hop),
            RelayCmd::ConfluxLinked => self.handle_conflux_linked(msg, hop),
            RelayCmd::ConfluxLinkedAck => self.handle_conflux_linked_ack(msg, hop),
            RelayCmd::ConfluxSwitch => self.handle_conflux_switch(msg, hop),
            _ => Err(Error::NonConfluxCellInHandler),
        }
    }

    /// Handle a CONFLUX_LINK cell.
    ///
    /// LINK is sent by clients and answered by relays; a client may never
    /// receive one, whatever state the leg is in, so this always reports a
    /// protocol violation and changes nothing.
    pub fn handle_conflux_link(&mut self, msg: AnyRelayMsg, _hop: HopNum) -> (r: Result<
        Option<CircuitCmd>,
    >)
        ensures
            *final(self) == *old(self),
            r == (if msg@.cmd() == RelayCmd::ConfluxLink {
                Err::<Option<CircuitCmd>, Error>(Error::UnexpectedConfluxCell)
            } else {
                Err::<Option<CircuitCmd>, Error>(Error::NonConfluxCellInHandler)
            }),
    {
        if !matches!(msg.cmd(), RelayCmd::ConfluxLink) {
            return Err(Error::NonConfluxCellInHandler);
        }
        Err(Error::UnexpectedConfluxCell)
    }

    /// Handle a CONFLUX_LINKED_ACK cell.
    ///
    /// LINKED_ACK is sent by clients and consumed by relays; a client may
    /// never receive one, whatever state the leg is in, so this always
    /// reports a protocol violation and changes nothing.
    pub fn handle_conflux_linked_ack(&mut self, msg: AnyRelayMsg, _hop: HopNum) -> (r: Result<
        Option<CircuitCmd>,
    >)
        ensures
            *final(self) == *old(self),
            r == (if msg@.cmd() == RelayCmd::ConfluxLinkedAck {
                Err::<Option<CircuitCmd>, Error>(Error::UnexpectedConfluxCell)
            } else {
                Err::<Option<CircuitCmd>, Error>(Error::NonConfluxCellInHandler)
            }),
    {
        if !matches!(msg.cmd(), RelayCmd::ConfluxLinkedAck) {
            return Err(Error::NonConfluxCellInHandler);
        }
        Err(Error::UnexpectedConfluxCell)
    }

    /// Handle a CONFLUX_LINKED cell from `hop`.
    ///
    /// The caller must already have validated that `hop` is the join
    /// point.  The cell is accepted only while the leg awaits it, and only
    /// if it carries exactly the nonce we sent with LINK; any other state
    /// or nonce is a protocol error that leaves the handler unchanged.  On
    /// success the leg becomes linked, the initial round-trip time is
    /// recorded (a clock that went backward yields the largest measurable
    /// time rather than a failure), and the returned command asks the
    /// reactor to send the LINKED_ACK and mark the leg usable.
    pub fn handle_conflux_linked(&mut self, msg: AnyRelayMsg, hop: HopNum) -> (r: Result<
        Option<CircuitCmd>,
    >)
        requires
            old(self).wf(),
        ensures
            final(self).wf(),
            spec_handle_linked(*old(self), msg, hop, *final(self), r),
            (r is Ok) <==> (old(self).state matches ConfluxState::AwaitingLink(expected) && msg
                == AnyRelayMsg::ConfluxLinked(expected)),
            (r is Err) ==> *final(self) == *old(self),
    {
        if let AnyRelayMsg::ConfluxLinked(linked_nonce) = msg {
            let link_sent = match self.link_sent {
                Some(t) => t,
                None => {
                    return Err(Error::LinkedBeforeLink);
                },
            };
            let expected_nonce = match self.state {
                ConfluxState::Unlinked => {
                    return Err(Error::LinkedBeforeLink);
                },
                ConfluxState::AwaitingLink(expected_nonce) => expected_nonce,
                ConfluxState::Linked => {
                    return Err(Error::LinkedWhenLinked);
                },
            };
            if linked_nonce != expected_nonce {
                return Err(Error::LinkedNonceMismatch);
            }
            self.state = ConfluxState::Linked;
            // Measure the initial RTT between sending LINK and receiving
            // LINKED.  The wall clock is not monotonic, so a reading
            // earlier than the send time must not fail the circuit.
            let now = self.runtime.wallclock();
            let rtt = if now >= link_sent {
                now - link_sent
            } else {
                u64::MAX
            };
            self.init_rtt = Some(rtt);
            let linked_ack = AnyRelayMsgOuter::new(None, AnyRelayMsg::ConfluxLinkedAck);
            let cell = SendRelayCell { hop, early: false, cell: linked_ack };
            // ConfluxHandshakeComplete rather than a plain send: besides
            // sending the ack, the reactor must note that this leg is now
            // usable for multiplexed traffic.
            Ok(Some(CircuitCmd::ConfluxHandshakeComplete(cell)))
        } else {
            Err(Error::NonConfluxCellInHandler)
        }
    }

    /// Handle a CONFLUX_SWITCH cell from the peer.
    ///
    /// Only a linked leg may receive one, and its relative sequence number
    /// must be strictly positive: a zero delta would be a no-op switch with
    /// no legitimate use, and accepting it would open a side channel.  The
    /// delta advances this leg's received-sequence counter; the SWITCH cell
    /// itself is out-of-band and does not count toward sequence numbers,
    /// which is why the counter grows by exactly the delta and no more.
    pub fn handle_conflux_switch(&mut self, msg: AnyRelayMsg, _hop: HopNum) -> (r: Result<
        Option<CircuitCmd>,
    >)
        requires
            old(self).wf(),
            old(self).last_seq_recv <= u64::MAX - u32::MAX as u64,
        ensures
            final(self).wf(),
            spec_handle_switch(*old(self), msg, *final(self), r),
            (r is Err) ==> *final(self) == *old(self),
            msg == AnyRelayMsg::ConfluxSwitch(0u32) ==> (r is Err && final(self).last_seq_recv
                == old(self).last_seq_recv),
    {
        if let AnyRelayMsg::ConfluxSwitch(rel_seqno) = msg {
            if !matches!(self.state, ConfluxState::Linked) {
                return Err(Error::SwitchOnUnlinkedCircuit);
            }
            self.validate_switch_seqno(rel_seqno)?;
            // The switch cell itself is not multiplexed, so the counter
            // advances by the delta alone: no extra +1 for the cell.
            self.last_seq_recv = self.last_seq_recv + rel_seqno as u64;
            Ok(None)
        } else {
            Err(Error::NonConfluxCellInHandler)
        }
    }

    /// Check the relative sequence number carried by a SWITCH cell: it
    /// must be strictly positive.
    pub fn validate_switch_seqno(&self, rel_seqno: u32) -> (r: Result<()>)
        ensures
            (r is Ok) <==> (rel_seqno != 0),
            (r is Err) ==> r == Err::<(), Error>(Error::ZeroSeqnoSwitch),
    {
        if rel_seqno == 0 {
            return Err(Error::ZeroSeqnoSwitch);
        }
        Ok(())
    }
}

/// How [`ClientConfluxMsgHandler::handle_conflux_linked`] relates the
/// handler before (`c1`) and after (`c2`) to the message, the hop, and the
/// result: success exactly when the leg awaits a LINKED cell carrying the
/// nonce it sent, and no state change on any error.
pub open spec fn spec_handle_linked(
    c1: ClientConfluxMsgHandler,
    msg: AnyRelayMsg,
    hop: HopNum,
    c2: ClientConfluxMsgHandler,
    r: Result<Option<CircuitCmd>>,
) -> bool {
    match msg {
        AnyRelayMsg::ConfluxLinked(linked_nonce) => {
            match c1.state {
                ConfluxState::Unlinked => {
                    r == Err::<Option<CircuitCmd>, Error>(Error::LinkedBeforeLink) && c2 == c1
                },
                ConfluxState::Linked => {
                    r == Err::<Option<CircuitCmd>, Error>(Error::LinkedWhenLinked) && c2 == c1
                },
                ConfluxState::AwaitingLink(expected) => {
                    if linked_nonce == expected {
                        &&& r == Ok::<Option<CircuitCmd>, Error>(
                            Some(
                                CircuitCmd::ConfluxHandshakeComplete(
                                    SendRelayCell {
                                        hop,
                                        early: false,
                                        cell: AnyRelayMsgOuter {
                                            stream_id: None,
                                            msg: AnyRelayMsg::ConfluxLinkedAck,
                                        },
                                    },
                                ),
                            ),
                        )
                        &&& c2 == (ClientConfluxMsgHandler {
                            state: ConfluxState::Linked,
                            init_rtt: c2.init_rtt,
                            ..c1
                        })
                        &&& c2.init_rtt is Some
                        &&& (c1.runtime.imp matches TimeProviderImpl::Fixed(now) ==> c2.init_rtt
                            == Some(
                            (if now >= c1.link_sent->0 {
                                (now - c1.link_sent->0) as u64
                            } else {
                                u64::MAX
                            }),
                        ))
                    } else {
                        r == Err::<Option<CircuitCmd>, Error>(Error::LinkedNonceMismatch) && c2
                            == c1
                    }
                },
            }
        },
        _ => r == Err::<Option<CircuitCmd>, Error>(Error::NonConfluxCellInHandler) && c2 == c1,
    }
}

/// How [`ClientConfluxMsgHandler::handle_conflux_switch`] relates the
/// handler before (`c1`) and after (`c2`) to the message and the result: a
/// zero delta always errors and never moves the counter; a positive delta
/// on a linked leg advances the counter by exactly that delta.
pub open spec fn spec_handle_switch(
    c1: ClientConfluxMsgHandler,
    msg: AnyRelayMsg,
    c2: ClientConfluxMsgHandler,
    r: Result<Option<CircuitCmd>>,
) -> bool {
    match msg {
        AnyRelayMsg::ConfluxSwitch(rel_seqno) => {
            if !(c1.state is Linked) {
                r == Err::<Option<CircuitCmd>, Error>(Error::SwitchOnUnlinkedCircuit) && c2 == c1
            } else if rel_seqno == 0 {
                r == Err::<Option<CircuitCmd>, Error>(Error::ZeroSeqnoSwitch) && c2 == c1
            } else {
                &&& r == Ok::<Option<CircuitCmd>, Error>(None)
                &&& c2 == (ClientConfluxMsgHandler {
                    last_seq_recv: (c1.last_seq_recv + rel_seqno) as u64,
                    ..c1
                })
            }
        },
        _ => r == Err::<Option<CircuitCmd>, Error>(Error::NonConfluxCellInHandler) && c2 == c1,
    }
}

/// How [`ClientConfluxMsgHandler::handle_msg`] relates the handler before
/// and after to the message, the hop, and the result: LINKED and SWITCH
/// are handled by their state machines, LINK and LINKED_ACK are rejected
/// unconditionally (they are server-role cells a client may never see).
pub open spec fn spec_handle_conflux(
    c1: ClientConfluxMsgHandler,
    msg: AnyRelayMsg,
    hop: HopNum,
    c2: ClientConfluxMsgHandler,
    r: Result<Option<CircuitCmd>>,
) -> bool {
    match msg@.cmd() {
        RelayCmd::ConfluxLink => {
            r == Err::<Option<CircuitCmd>, Error>(Error::UnexpectedConfluxCell) && c2 == c1
        },
        RelayCmd::ConfluxLinkedAck => {
            r == Err::<Option<CircuitCmd>, Error>(Error::UnexpectedConfluxCell) && c2 == c1
        },
        RelayCmd::ConfluxLinked => spec_handle_linked(c1, msg, hop, c2, r),
        RelayCmd::ConfluxSwitch => spec_handle_switch(c1, msg, c2, r),
        _ => r == Err::<Option<CircuitCmd>, Error>(Error::NonConfluxCellInHandler) && c2 == c1,
    }
}

} // verus!
