//! One hop of a circuit, and the ordered list of a circuit's hops.
//!
//! A [`CircHop`] ties together everything the data plane keeps per hop: the
//! stream map, the hop's congestion control, and the decoder for inbound
//! relay cells.  A [`CircHopList`] multiplexes a whole circuit: each
//! scheduling pass visits every hop whose congestion window permits
//! sending, and takes at most one ready item per hop, so control traffic is
//! never starved by one busy hop.

use vstd::prelude::*;

use crate::err::{Error, Result};
use crate::flow::{spec_take_capacity, CongestionControl, CongestionControlSettings};
use crate::flow::{StreamSendFlowControl, STREAM_SEND_WINDOW_INIT};
use crate::relaycell::{
    AnyRelayMsg, AnyRelayMsgOuter, HopNum, RelayCellDecoder, RelayCellDecoderResult,
    RelayCellFormat, StreamId, END_REASON_MISC,
};
use crate::streammap::{
    count_open, first_ready_from, norm_start, spec_deliver, spec_half_handle, take_ready_post,
    CmdChecker, EntStatus, ShouldSendEnd, StreamEnt, StreamEntry, StreamMap, StreamSink,
    StreamStatus, TerminateReason,
};

verus! {

/// Whether closing a stream should tell the peer, and how.
#[derive(Clone, Copy, Debug, PartialEq, Eq, Structural)]
pub enum CloseStreamBehavior {
    /// Close our records quietly, sending nothing.
    SendNothing,
    /// Send an END cell with this reason byte, unless the peer's END
    /// already arrived.
    SendEnd(u8),
}

impl Default for CloseStreamBehavior {
    /// An END cell with the "miscellaneous" reason.
    fn default() -> (r: Self)
        ensures
            r == CloseStreamBehavior::SendEnd(END_REASON_MISC),
    {
        CloseStreamBehavior::SendEnd(END_REASON_MISC)
    }
}

/// A relay cell to be encrypted and sent toward a hop.
#[derive(Clone, Debug, PartialEq, Eq)]
pub struct SendRelayCell {
    /// The hop the cell is addressed to.
    pub hop: HopNum,
    /// True if the cell must be sent as RELAY_EARLY.
    pub early: bool,
    /// The message and the stream it belongs to.
    pub cell: AnyRelayMsgOuter,
}

/// An instruction the multiplexer hands back to the reactor that owns the
/// circuit.
#[derive(Clone, Debug, PartialEq, Eq)]
pub enum CircuitCmd {
    /// Send this relay cell.
    Send(SendRelayCell),
    /// Close this stream, sending an END if `behav` asks for one.
    CloseStream {
        /// The hop the stream lives on.
        hop: HopNum,
        /// The stream to close.
        sid: StreamId,
        /// Whether (and how) to tell the peer.
        behav: CloseStreamBehavior,
        /// Why the stream is being closed.
        reason: TerminateReason,
    },
    /// The conflux handshake on this leg finished; send this LINKED_ACK
    /// cell and mark the leg usable for multiplexed traffic.
    ConfluxHandshakeComplete(SendRelayCell),
}

/// The stream flow control a hop hands to each new stream: window-based
/// when the hop's congestion control uses stream-level SENDME, signal-based
/// otherwise.  The choice is per hop, never per stream.
pub open spec fn spec_send_flow_ctrl(cc: CongestionControl) -> StreamSendFlowControl {
    if cc.uses_stream_sendme {
        StreamSendFlowControl::WindowBased { window: STREAM_SEND_WINDOW_INIT }
    } else {
        StreamSendFlowControl::XonXoffBased
    }
}

/// One hop of a circuit, as the data plane sees it.
pub struct CircHop {
    /// The circuit's identifier, kept for bookkeeping by the owner.
    pub unique_id: u64,
    /// This hop's position in the circuit.
    pub hop_num: HopNum,
    /// The table of streams that terminate at this hop.
    pub map: StreamMap,
    /// Congestion accounting for cells sent toward this hop.
    pub ccontrol: CongestionControl,
    /// Decoder for relay cells received from this hop.
    pub inbound: RelayCellDecoder,
    /// The relay-cell format used with this hop.
    pub relay_format: RelayCellFormat,
}

impl CircHop {
    /// The hop's structural invariant.
    pub open spec fn wf(self) -> bool {
        &&& self.map.wf()
        &&& self.ccontrol.wf()
    }

    /// Create a new hop.
    pub fn new(
        unique_id: u64,
        hop_num: HopNum,
        relay_format: RelayCellFormat,
        settings: &CongestionControlSettings,
    ) -> (r: Self)
        ensures
            r.wf(),
            r.unique_id == unique_id,
            r.hop_num == hop_num,
            r.relay_format == relay_format,
            r.map.ents@ == Seq::<StreamEntry>::empty(),
            r.map.next_id == 1,
            r.ccontrol.uses_stream_sendme == settings.uses_stream_sendme,
            r.ccontrol.send_window == settings.send_window_init,
            r.ccontrol.send_window_max == settings.send_window_init,
            r.inbound.format == relay_format,
    {
        CircHop {
            unique_id,
            hop_num,
            map: StreamMap::new(),
            ccontrol: CongestionControl::new(settings),
            inbound: RelayCellDecoder::new(relay_format),
            relay_format,
        }
    }

    /// The stream flow control for a new stream on this hop.
    fn build_send_flow_ctrl(&self) -> (r: StreamSendFlowControl)
        ensures
            r == spec_send_flow_ctrl(self.ccontrol),
    {
        if self.ccontrol.uses_stream_sendme() {
            StreamSendFlowControl::new_window_based()
        } else {
            StreamSendFlowControl::new_xon_xoff_based()
        }
    }

    /// Start a new stream on this hop: allocate a fresh entry in the stream
    /// map and wrap `message` as the stream's opening cell.
    ///
    /// The fresh ID is one this hop has never used, so an open stream can
    /// never be confused with an earlier one.
    pub fn begin_stream(
        &mut self,
        message: AnyRelayMsg,
        sink: StreamSink,
        cmd_checker: CmdChecker,
    ) -> (r: Result<(SendRelayCell, StreamId)>)
        requires
            old(self).wf(),
        ensures
            final(self).wf(),
            final(self).unique_id == old(self).unique_id,
            final(self).hop_num == old(self).hop_num,
            final(self).ccontrol == old(self).ccontrol,
            final(self).inbound == old(self).inbound,
            final(self).relay_format == old(self).relay_format,
            (r is Err) <==> old(self).map.next_id == crate::streammap::STREAM_ID_LIMIT,
            match r {
                Ok((cell, id)) => {
                    &&& id.0 == old(self).map.next_id
                    &&& !old(self).map.contains_id(id)
                    &&& final(self).map.contains_id(id)
                    &&& cell.hop == old(self).hop_num
                    &&& cell.early == false
                    &&& cell.cell.stream_id == Some(id)
                    &&& cell.cell.msg == message
                    &&& final(self).map.ents@.len() == old(self).map.ents@.len() + 1
                    &&& final(self).map.ents@.subrange(0, old(self).map.ents@.len() as int)
                        == old(self).map.ents@
                    &&& final(self).map.ents@.last().id == id
                    &&& final(self).map.ents@.last().ent matches StreamEnt::Open(o)
                        && o.sink == sink
                        && o.flow_ctrl == spec_send_flow_ctrl(old(self).ccontrol)
                        && o.cmd_checker == cmd_checker
                        && o.dropped == 0
                        && o.outbound@ == Seq::<AnyRelayMsg>::empty()
                        && o.writer_done == false
                },
                Err(e) => {
                    &&& e == Error::StreamIdsExhausted
                    &&& final(self).map == old(self).map
                },
            },
    {
        let flow_ctrl = self.build_send_flow_ctrl();
        let id = match self.map.add_ent(sink, flow_ctrl, cmd_checker) {
            Ok(id) => id,
            Err(e) => {
                return Err(e);
            },
        };
        let cell = AnyRelayMsgOuter::new(Some(id), message);
        Ok((SendRelayCell { hop: self.hop_num, early: false, cell }, id))
    }

    /// Add a stream entry under the ID the peer chose (an incoming stream
    /// request, service side).
    pub fn add_ent_with_id(
        &mut self,
        sink: StreamSink,
        stream_id: StreamId,
        cmd_checker: CmdChecker,
    ) -> (r: Result<()>)
        requires
            old(self).wf(),
        ensures
            final(self).wf(),
            final(self).unique_id == old(self).unique_id,
            final(self).hop_num == old(self).hop_num,
            final(self).ccontrol == old(self).ccontrol,
            final(self).inbound == old(self).inbound,
            final(self).relay_format == old(self).relay_format,
            (r is Ok) <==> (stream_id.0 != 0 && !old(self).map.contains_id(stream_id)),
            match r {
                Ok(()) => {
                    &&& final(self).map.contains_id(stream_id)
                    &&& final(self).map.ents@.len() == old(self).map.ents@.len() + 1
                    &&& final(self).map.ents@.subrange(0, old(self).map.ents@.len() as int)
                        == old(self).map.ents@
                    &&& final(self).map.ents@.last().id == stream_id
                    &&& final(self).map.ents@.last().ent matches StreamEnt::Open(o)
                        && o.sink == sink
                        && o.flow_ctrl == spec_send_flow_ctrl(old(self).ccontrol)
                        && o.cmd_checker == cmd_checker
                        && o.dropped == 0
                        && o.outbound@ == Seq::<AnyRelayMsg>::empty()
                        && o.writer_done == false
                },
                Err(e) => {
                    &&& final(self).map == old(self).map
                    &&& (e == Error::ZeroStreamId) <==> (stream_id.0 == 0)
                    &&& (e == Error::StreamIdInUse) <==> (stream_id.0 != 0
                        && old(self).map.contains_id(stream_id))
                },
            },
    {
        let flow_ctrl = self.build_send_flow_ctrl();
        self.map.add_ent_with_id(sink, flow_ctrl, stream_id, cmd_checker)
    }

    /// Close the stream `id` from our side.
    ///
    /// If we have not already received an END from the peer, and `message`
    /// asks for one, an END cell with the requested reason is produced; if
    /// the peer's END already arrived, nothing is owed and `None` is
    /// returned.
    pub fn close_stream(
        &mut self,
        id: StreamId,
        message: CloseStreamBehavior,
        why: TerminateReason,
    ) -> (r: Result<Option<SendRelayCell>>)
        requires
            old(self).wf(),
        ensures
            final(self).wf(),
            final(self).unique_id == old(self).unique_id,
            final(self).hop_num == old(self).hop_num,
            final(self).ccontrol == old(self).ccontrol,
            final(self).inbound == old(self).inbound,
            final(self).relay_format == old(self).relay_format,
            final(self).map.next_id == old(self).map.next_id,
            final(self).map.rr_index == old(self).map.rr_index,
            match r {
                Ok(out) => exists|i: int|
                    {
                        &&& 0 <= i < old(self).map.ents@.len()
                        &&& (#[trigger] old(self).map.ents@[i]).id == id
                        &&& match old(self).map.ents@[i].ent {
                            StreamEnt::Open(o1) => {
                                &&& final(self).map.ents@ == old(self).map.ents@.update(
                                    i,
                                    StreamEntry {
                                        id,
                                        ent: StreamEnt::EndSent(
                                            crate::streammap::EndSentStreamEnt {
                                                half_stream: crate::streammap::HalfStream {
                                                    flow_ctrl: o1.flow_ctrl,
                                                    cmd_checker: o1.cmd_checker,
                                                },
                                            },
                                        ),
                                    },
                                )
                                &&& match message {
                                    CloseStreamBehavior::SendEnd(reason) => out matches Some(cell)
                                        && cell == (SendRelayCell {
                                        hop: old(self).hop_num,
                                        early: false,
                                        cell: AnyRelayMsgOuter {
                                            stream_id: Some(id),
                                            msg: AnyRelayMsg::End(reason),
                                        },
                                    }),
                                    CloseStreamBehavior::SendNothing => out is None,
                                }
                            },
                            StreamEnt::EndReceived => {
                                &&& out is None
                                &&& final(self).map.ents@ == old(self).map.ents@.remove(i)
                            },
                            StreamEnt::EndSent(_) => false,
                        }
                    },
                Err(e) => {
                    &&& final(self).map == old(self).map
                    &&& (e == Error::TerminateUnknownStream || e == Error::TerminatedTwice)
                    &&& (e == Error::TerminateUnknownStream) <==> !old(self).map.contains_id(id)
                },
            },
            (r is Err) <==> (!old(self).map.contains_id(id) || old(self).map.has_end_sent(id)),
    {
        let should_send_end = match self.map.terminate(id, why) {
            Ok(s) => s,
            Err(e) => {
                return Err(e);
            },
        };
        if let (ShouldSendEnd::Send, CloseStreamBehavior::SendEnd(reason)) = (
            should_send_end,
            message,
        ) {
            let end_cell = AnyRelayMsgOuter::new(Some(id), AnyRelayMsg::End(reason));
            let cell = SendRelayCell { hop: self.hop_num, early: false, cell: end_cell };
            return Ok(Some(cell));
        }
        Ok(None)
    }

    /// Parse a RELAY cell body received from this hop.
    ///
    /// The cryptographic checks must already have been performed by the
    /// caller; this only decodes the plaintext structure.
    pub fn decode(&mut self, cell: &Vec<u8>) -> (r: Result<RelayCellDecoderResult>)
        ensures
            final(self).unique_id == old(self).unique_id,
            final(self).hop_num == old(self).hop_num,
            final(self).ccontrol == old(self).ccontrol,
            final(self).relay_format == old(self).relay_format,
            final(self).map == old(self).map,
            final(self).inbound == old(self).inbound,
            match crate::relaycell::spec_decode_body(cell@) {
                Ok((sid, m)) => {
                    &&& r matches Ok(d)
                    &&& d.msgs@.len() == 1
                    &&& d.msgs@[0].stream_id == (match sid {
                        Some(v) => Some(StreamId(v)),
                        None => None::<StreamId>,
                    })
                    &&& d.msgs@[0].msg@ == m
                },
                Err(e) => r matches Err(e2) && e2 == e,
            },
    {
        self.inbound.decode(cell)
    }

    /// Handle one inbound message addressed to stream `streamid`.
    ///
    /// Open stream: a SENDME is absorbed into flow-control accounting and
    /// never reaches the sink; anything else is checked and delivered to
    /// the sink, and a message that ends the stream marks the entry
    /// end-received.  Half-closed stream: a fresh incoming stream request
    /// tears the old entry down and the message is handed back for
    /// first-class handling; other messages go to the half-stream until the
    /// peer's END arrives.  No entry at all: a stream request is handed
    /// back; anything else is a protocol violation.
    pub fn handle_msg(
        &mut self,
        cell_counts_toward_windows: bool,
        streamid: StreamId,
        msg: AnyRelayMsg,
    ) -> (r: Result<Option<AnyRelayMsg>>)
        requires
            old(self).wf(),
        ensures
            final(self).wf(),
            final(self).unique_id == old(self).unique_id,
            final(self).hop_num == old(self).hop_num,
            final(self).ccontrol == old(self).ccontrol,
            final(self).inbound == old(self).inbound,
            final(self).relay_format == old(self).relay_format,
            final(self).map.next_id == old(self).map.next_id,
            final(self).map.rr_index == old(self).map.rr_index,
            if old(self).map.has_open(streamid) {
                exists|i: int|
                    {
                        &&& 0 <= i < old(self).map.ents@.len()
                        &&& (#[trigger] old(self).map.ents@[i]).id == streamid
                        &&& old(self).map.ents@[i].ent matches StreamEnt::Open(o1)
                            && exists|o2: crate::streammap::OpenStreamEnt, dr: Result<bool>|
                            {
                                &&& #[trigger] spec_deliver(
                                    o1,
                                    cell_counts_toward_windows,
                                    msg,
                                    o2,
                                    dr,
                                )
                                &&& match dr {
                                    Ok(true) => {
                                        &&& r == Ok::<Option<AnyRelayMsg>, Error>(None)
                                        &&& final(self).map.ents@ == old(self).map.ents@.update(
                                            i,
                                            StreamEntry { id: streamid, ent: StreamEnt::EndReceived },
                                        )
                                    },
                                    Ok(false) => {
                                        &&& r == Ok::<Option<AnyRelayMsg>, Error>(None)
                                        &&& final(self).map.ents@ == old(self).map.ents@.update(
                                            i,
                                            StreamEntry { id: streamid, ent: StreamEnt::Open(o2) },
                                        )
                                    },
                                    Err(e) => {
                                        &&& r == Err::<Option<AnyRelayMsg>, Error>(e)
                                        &&& final(self).map.ents@ == old(self).map.ents@.update(
                                            i,
                                            StreamEntry { id: streamid, ent: StreamEnt::Open(o2) },
                                        )
                                    },
                                }
                            }
                    }
            } else if old(self).map.has_end_sent(streamid) {
                exists|i: int|
                    {
                        &&& 0 <= i < old(self).map.ents@.len()
                        &&& (#[trigger] old(self).map.ents@[i]).id == streamid
                        &&& old(self).map.ents@[i].ent matches StreamEnt::EndSent(e1)
                            && (if msg@.cmd().spec_is_stream_request() {
                            &&& r == Ok::<Option<AnyRelayMsg>, Error>(Some(msg))
                            &&& final(self).map.ents@ == old(self).map.ents@.remove(i)
                        } else {
                            exists|h2: crate::streammap::HalfStream, hr: Result<StreamStatus>|
                                {
                                    &&& #[trigger] spec_half_handle(e1.half_stream, msg, h2, hr)
                                    &&& match hr {
                                        Ok(StreamStatus::Open) => {
                                            &&& r == Ok::<Option<AnyRelayMsg>, Error>(None)
                                            &&& final(self).map.ents@ == old(self).map.ents@.update(
                                                i,
                                                StreamEntry {
                                                    id: streamid,
                                                    ent: StreamEnt::EndSent(
                                                        crate::streammap::EndSentStreamEnt {
                                                            half_stream: h2,
                                                        },
                                                    ),
                                                },
                                            )
                                        },
                                        Ok(StreamStatus::Closed) => {
                                            &&& r == Ok::<Option<AnyRelayMsg>, Error>(None)
                                            &&& final(self).map.ents@ == old(self).map.ents@.remove(
                                                i,
                                            )
                                        },
                                        Err(e) => {
                                            &&& r == Err::<Option<AnyRelayMsg>, Error>(e)
                                            &&& final(self).map.ents@ == old(self).map.ents@.update(
                                                i,
                                                StreamEntry {
                                                    id: streamid,
                                                    ent: StreamEnt::EndSent(
                                                        crate::streammap::EndSentStreamEnt {
                                                            half_stream: h2,
                                                        },
                                                    ),
                                                },
                                            )
                                        },
                                    }
                                }
                        })
                    }
            } else if old(self).map.contains_id(streamid) {
                // The entry is end-received: the peer already finished this
                // stream, so any further message on it is a violation.
                &&& r == Err::<Option<AnyRelayMsg>, Error>(Error::CellOnUnknownStream)
                &&& final(self).map.ents@ == old(self).map.ents@
            } else if msg@.cmd().spec_is_stream_request() {
                &&& r == Ok::<Option<AnyRelayMsg>, Error>(Some(msg))
                &&& final(self).map.ents@ == old(self).map.ents@
            } else {
                &&& r == Err::<Option<AnyRelayMsg>, Error>(Error::CellOnUnknownStream)
                &&& final(self).map.ents@ == old(self).map.ents@
            },
    {
        match self.map.ent_status(streamid) {
            EntStatus::Open => {
                let closes = match self.map.deliver_to_open(
                    streamid,
                    cell_counts_toward_windows,
                    msg,
                ) {
                    Ok(c) => c,
                    Err(e) => {
                        return Err(e);
                    },
                };
                if closes {
                    let ghost i1 = choose|i: int|
                        0 <= i < old(self).map.ents@.len() && (#[trigger] old(
                            self,
                        ).map.ents@[i]).id == streamid && old(self).map.ents@[i].ent is Open;
                    match self.map.ending_msg_received(streamid) {
                        Ok(()) => {},
                        Err(e) => {
                            proof {
                                assert(false);
                            }
                            return Err(e);
                        },
                    }
                    proof {
                        assert(final(self).map.ents@ =~= old(self).map.ents@.update(
                            i1,
                            StreamEntry { id: streamid, ent: StreamEnt::EndReceived },
                        ));
                    }
                }
                Ok(None)
            },
            EntStatus::EndSent => {
                if msg.cmd().is_stream_request() {
                    match self.map.ending_msg_received(streamid) {
                        Ok(()) => {},
                        Err(e) => {
                            proof {
                                assert(false);
                            }
                            return Err(e);
                        },
                    }
                    Ok(Some(msg))
                } else {
                    let status = match self.map.deliver_to_end_sent(streamid, &msg) {
                        Ok(s) => s,
                        Err(e) => {
                            return Err(e);
                        },
                    };
                    match status {
                        StreamStatus::Open => Ok(None),
                        StreamStatus::Closed => {
                            let ghost i1 = choose|i: int|
                                0 <= i < old(self).map.ents@.len() && (#[trigger] old(
                                    self,
                                ).map.ents@[i]).id == streamid && old(self).map.ents@[i].ent
                                    is EndSent;
                            match self.map.ending_msg_received(streamid) {
                                Ok(()) => {},
                                Err(e) => {
                                    proof {
                                        assert(false);
                                    }
                                    return Err(e);
                                },
                            }
                            proof {
                                assert(final(self).map.ents@ =~= old(self).map.ents@.remove(i1));
                            }
                            Ok(None)
                        },
                    }
                }
            },
            EntStatus::EndReceived => Err(Error::CellOnUnknownStream),
            EntStatus::Missing => {
                if msg.cmd().is_stream_request() {
                    Ok(Some(msg))
                } else {
                    Err(Error::CellOnUnknownStream)
                }
            },
        }
    }

    /// Take the stream-level capacity needed to send `msg` on `stream_id`.
    ///
    /// Sending on a stream that is not open is a local bug: the scheduler
    /// only hands out messages for open streams.
    pub fn take_capacity_to_send(&mut self, stream_id: StreamId, msg: &AnyRelayMsg) -> (r: Result<
        (),
    >)
        requires
            old(self).wf(),
        ensures
            final(self).wf(),
            final(self).unique_id == old(self).unique_id,
            final(self).hop_num == old(self).hop_num,
            final(self).ccontrol == old(self).ccontrol,
            final(self).inbound == old(self).inbound,
            final(self).relay_format == old(self).relay_format,
            final(self).map.next_id == old(self).map.next_id,
            final(self).map.rr_index == old(self).map.rr_index,
            if old(self).map.has_open(stream_id) {
                exists|i: int|
                    {
                        &&& 0 <= i < old(self).map.ents@.len()
                        &&& (#[trigger] old(self).map.ents@[i]).id == stream_id
                        &&& old(self).map.ents@[i].ent matches StreamEnt::Open(o1)
                            && final(self).map.ents@ == old(self).map.ents@.update(
                            i,
                            StreamEntry {
                                id: stream_id,
                                ent: StreamEnt::Open(
                                    crate::streammap::OpenStreamEnt {
                                        flow_ctrl: final(self).map.ents@[i].ent->Open_0.flow_ctrl,
                                        ..o1
                                    },
                                ),
                            },
                        ) && spec_take_capacity(
                            o1.flow_ctrl,
                            msg@,
                            final(self).map.ents@[i].ent->Open_0.flow_ctrl,
                            r,
                        )
                    }
            } else {
                r == Err::<(), Error>(Error::StreamNotOpen) && final(self).map.ents@ == old(
                    self,
                ).map.ents@
            },
    {
        self.map.take_capacity(stream_id, msg)
    }

    /// Note that a stream-ending message was observed for `stream_id`.
    pub fn ending_msg_received(&mut self, stream_id: StreamId) -> (r: Result<()>)
        requires
            old(self).wf(),
        ensures
            final(self).wf(),
            final(self).unique_id == old(self).unique_id,
            final(self).hop_num == old(self).hop_num,
            final(self).ccontrol == old(self).ccontrol,
            final(self).inbound == old(self).inbound,
            final(self).relay_format == old(self).relay_format,
            final(self).map.next_id == old(self).map.next_id,
            final(self).map.rr_index == old(self).map.rr_index,
            match r {
                Ok(()) => exists|i: int|
                    {
                        &&& 0 <= i < old(self).map.ents@.len()
                        &&& (#[trigger] old(self).map.ents@[i]).id == stream_id
                        &&& match old(self).map.ents@[i].ent {
                            StreamEnt::Open(_) => final(self).map.ents@ == old(
                                self,
                            ).map.ents@.update(
                                i,
                                StreamEntry { id: stream_id, ent: StreamEnt::EndReceived },
                            ),
                            StreamEnt::EndSent(_) => final(self).map.ents@ == old(
                                self,
                            ).map.ents@.remove(i),
                            StreamEnt::EndReceived => false,
                        }
                    },
                Err(e) => {
                    &&& final(self).map == old(self).map
                    &&& (e == Error::CellOnUnknownStream || e == Error::EndReceivedTwice)
                    &&& (e == Error::CellOnUnknownStream) <==> !old(self).map.contains_id(
                        stream_id,
                    )
                },
            },
            (r is Err) <==> (!old(self).map.contains_id(stream_id) || old(
                self,
            ).map.has_end_received(stream_id)),
    {
        self.map.ending_msg_received(stream_id)
    }

    /// The format used for relay cells sent to this hop.
    pub fn relay_cell_format(&self) -> (r: RelayCellFormat)
        ensures
            r == self.relay_format,
    {
        self.relay_format
    }

    /// The format used for relay cells sent to this hop.
    pub fn relay_format(&self) -> (r: RelayCellFormat)
        ensures
            r == self.relay_format,
    {
        self.relay_format
    }

    /// The number of open streams on this hop.
    pub fn n_open_streams(&self) -> (n: usize)
        ensures
            n == crate::streammap::count_open(self.map.ents@),
    {
        self.map.n_open_streams()
    }

    /// This hop's congestion control.
    pub fn ccontrol(&self) -> (r: &CongestionControl)
        ensures
            *r == self.ccontrol,
    {
        &self.ccontrol
    }

    /// This hop's congestion control, mutably.
    pub fn ccontrol_mut(&mut self) -> (r: &mut CongestionControl)
        ensures
            *r == old(self).ccontrol,
            *final(self) == (CircHop { ccontrol: *final(r), ..*old(self) }),
    {
        &mut self.ccontrol
    }

    /// This hop's current circuit-level send window, for inspection.
    pub fn send_window(&self) -> (r: u32)
        ensures
            r == self.ccontrol.send_window,
    {
        self.ccontrol.send_window()
    }

    /// This hop's stream map.
    pub fn stream_map(&self) -> (r: &StreamMap)
        ensures
            *r == self.map,
    {
        &self.map
    }

    /// Replace this hop's stream map with `map`.
    ///
    /// Only permitted while the hop has no open stream: at a conflux join
    /// point the joining legs come to share one stream table, but throwing
    /// away live streams would be a bug, so it is refused.
    pub fn set_stream_map(&mut self, map: StreamMap) -> (r: Result<()>)
        requires
            old(self).wf(),
            map.wf(),
        ensures
            final(self).wf(),
            final(self).unique_id == old(self).unique_id,
            final(self).hop_num == old(self).hop_num,
            final(self).ccontrol == old(self).ccontrol,
            final(self).inbound == old(self).inbound,
            final(self).relay_format == old(self).relay_format,
            if crate::streammap::count_open(old(self).map.ents@) == 0 {
                r is Ok && final(self).map == map
            } else {
                &&& r == Err::<(), Error>(Error::DiscardedOpenStreams)
                &&& final(self).map == old(self).map
            },
    {
        if self.n_open_streams() != 0 {
            return Err(Error::DiscardedOpenStreams);
        }
        self.map = map;
        Ok(())
    }
}

/// What one scheduling pass takes from a single hop, determined by the
/// hop's state alone: the first ready stream after the round-robin cursor
/// gives up its next message, or asks to be closed once drained.
pub open spec fn spec_hop_take_result(h: CircHop) -> Option<(StreamId, Option<AnyRelayMsg>)> {
    match first_ready_from(h.map.ents@, norm_start(h.map)) {
        None => None,
        Some(i) => {
            let e = h.map.ents@[i];
            let o = e.ent->Open_0;
            if o.outbound@.len() > 0 {
                Some((e.id, Some(o.outbound@[0])))
            } else {
                Some((e.id, None))
            }
        },
    }
}

/// The commands one hop contributes to a scheduling pass: nothing when its
/// congestion window is exhausted, otherwise at most one send or close.
pub open spec fn spec_hop_contrib(h: CircHop, hn: HopNum) -> Seq<CircuitCmd> {
    if h.ccontrol.send_window > 0 {
        match spec_hop_take_result(h) {
            None => Seq::<CircuitCmd>::empty(),
            Some((sid, Some(m))) => seq![
                CircuitCmd::Send(
                    SendRelayCell {
                        hop: hn,
                        early: false,
                        cell: AnyRelayMsgOuter { stream_id: Some(sid), msg: m },
                    },
                ),
            ],
            Some((sid, None)) => seq![
                CircuitCmd::CloseStream {
                    hop: hn,
                    sid,
                    behav: CloseStreamBehavior::SendEnd(END_REASON_MISC),
                    reason: TerminateReason::StreamTargetClosed,
                },
            ],
        }
    } else {
        Seq::<CircuitCmd>::empty()
    }
}

/// The commands the first `k` hops contribute to one scheduling pass, in
/// hop order.
pub open spec fn spec_pass_cmds(hops: Seq<CircHop>, k: int) -> Seq<CircuitCmd>
    decreases k,
{
    if k <= 0 {
        Seq::<CircuitCmd>::empty()
    } else {
        spec_pass_cmds(hops, k - 1) + spec_hop_contrib(hops[k - 1], HopNum((k - 1) as u8))
    }
}

/// The total number of open streams across the first `k` hops.
pub open spec fn spec_total_open(hops: Seq<CircHop>, k: int) -> nat
    decreases k,
{
    if k <= 0 {
        0
    } else {
        spec_total_open(hops, k - 1) + count_open(hops[k - 1].map.ents@)
    }
}

/// The ordered hops of one circuit.
///
/// Hops are appended as the circuit is extended and never removed or
/// reordered: hop `n` stays hop `n` for the circuit's whole life.
pub struct CircHopList {
    /// The hops, in path order: index 0 is the first relay.
    pub hops: Vec<CircHop>,
}

impl Default for CircHopList {
    /// An empty hop list.
    fn default() -> (r: Self)
        ensures
            r.hops@ == Seq::<CircHop>::empty(),
    {
        CircHopList { hops: Vec::new() }
    }
}

impl CircHopList {
    /// The list's structural invariant: every hop is well formed, and hop
    /// positions fit the 8-bit hop numbers cells carry.
    pub open spec fn wf(self) -> bool {
        &&& self.hops@.len() <= 256
        &&& forall|i: int| 0 <= i < self.hops@.len() ==> (#[trigger] self.hops@[i]).wf()
    }

    /// A reference to the hop at `hopnum`, if there is one.
    pub fn hop(&self, hopnum: HopNum) -> (r: Option<&CircHop>)
        ensures
            match r {
                Some(h) => (hopnum.0 as int) < self.hops@.len() && *h == self.hops@[hopnum.0 as int],
                None => (hopnum.0 as int) >= self.hops@.len(),
            },
    {
        let i = hopnum.0 as usize;
        if i < self.hops.len() {
            Some(&self.hops[i])
        } else {
            None
        }
    }

    /// A mutable reference to the hop at `hopnum`, if there is one.
    pub fn get_mut(&mut self, hopnum: HopNum) -> (r: Option<&mut CircHop>)
        ensures
            match r {
                Some(h) => {
                    &&& (hopnum.0 as int) < old(self).hops@.len()
                    &&& *h == old(self).hops@[hopnum.0 as int]
                    &&& final(self).hops@ == old(self).hops@.update(
                        hopnum.0 as int,
                        *final(h),
                    )
                },
                None => {
                    &&& (hopnum.0 as int) >= old(self).hops@.len()
                    &&& *final(self) == *old(self)
                },
            },
    {
        let i = hopnum.0 as usize;
        if i < self.hops.len() {
            Some(&mut self.hops[i])
        } else {
            None
        }
    }

    /// Append a hop to the circuit.
    pub fn push(&mut self, hop: CircHop)
        requires
            old(self).wf(),
            hop.wf(),
            old(self).hops@.len() < 256,
        ensures
            final(self).wf(),
            final(self).hops@ == old(self).hops@.push(hop),
    {
        self.hops.push(hop);
    }

    /// True if the circuit has no hops.
    pub fn is_empty(&self) -> (r: bool)
        ensures
            r == (self.hops@.len() == 0),
    {
        self.hops.is_empty()
    }

    /// The number of hops in the circuit.
    pub fn len(&self) -> (n: usize)
        ensures
            n == self.hops@.len(),
    {
        self.hops.len()
    }

    /// True if any hop of the circuit has an open stream.
    pub fn has_streams(&self) -> (r: bool)
        ensures
            r == exists|i: int|
                0 <= i < self.hops@.len() && count_open((#[trigger] self.hops@[i]).map.ents@) > 0,
    {
        let len = self.hops.len();
        let mut i: usize = 0;
        while i < len
            invariant
                i <= len,
                len == self.hops@.len(),
                forall|j: int| 0 <= j < i ==> count_open((#[trigger] self.hops@[j]).map.ents@) == 0,
            decreases len - i,
        {
            if self.hops[i].n_open_streams() > 0 {
                return true;
            }
            i += 1;
        }
        false
    }

    /// The number of open streams across the whole circuit.
    ///
    /// Stream counts cannot realistically overflow a `usize`, but the sum
    /// saturates rather than assume so.
    pub fn n_open_streams(&self) -> (n: usize)
        ensures
            if spec_total_open(self.hops@, self.hops@.len() as int) <= usize::MAX {
                n == spec_total_open(self.hops@, self.hops@.len() as int)
            } else {
                n == usize::MAX
            },
    {
        let len = self.hops.len();
        let mut n: usize = 0;
        let mut i: usize = 0;
        while i < len
            invariant
                i <= len,
                len == self.hops@.len(),
                if spec_total_open(self.hops@, i as int) <= usize::MAX {
                    n == spec_total_open(self.hops@, i as int)
                } else {
                    n == usize::MAX
                },
            decreases len - i,
        {
            let c = self.hops[i].n_open_streams();
            if n > usize::MAX - c {
                n = usize::MAX;
            } else {
                n = n + c;
            }
            i += 1;
        }
        n
    }

    /// Run one scheduling pass over every hop.
    ///
    /// Each hop whose congestion window permits sending contributes at most
    /// one command: the next message of its first ready stream (round-robin
    /// within the hop, so no stream starves), or a request to close a
    /// drained stream.  A hop with an exhausted window contributes nothing
    /// and is retried on a later pass, once a SENDME has refilled the
    /// window.  Draining at most one message per hop per pass keeps control
    /// traffic timely at some cost in throughput.
    pub fn ready_streams_pass(&mut self) -> (r: Vec<CircuitCmd>)
        requires
            old(self).wf(),
        ensures
            final(self).wf(),
            final(self).hops@.len() == old(self).hops@.len(),
            r@ == spec_pass_cmds(old(self).hops@, old(self).hops@.len() as int),
            forall|i: int|
                0 <= i < old(self).hops@.len() ==> {
                    let h1 = #[trigger] old(self).hops@[i];
                    let h2 = final(self).hops@[i];
                    &&& h2.unique_id == h1.unique_id
                    &&& h2.hop_num == h1.hop_num
                    &&& h2.ccontrol == h1.ccontrol
                    &&& h2.inbound == h1.inbound
                    &&& h2.relay_format == h1.relay_format
                    &&& if h1.ccontrol.send_window > 0 {
                        take_ready_post(h1.map, h2.map, spec_hop_take_result(h1))
                    } else {
                        h2 == h1
                    }
                },
    {
        let len = self.hops.len();
        let mut out: Vec<CircuitCmd> = Vec::new();
        let mut j: usize = 0;
        while j < len
            invariant
                j <= len,
                len == self.hops@.len(),
                len == old(self).hops@.len(),
                len <= 256,
                forall|i: int| 0 <= i < len ==> (#[trigger] self.hops@[i]).wf(),
                forall|i: int| j <= i < len ==> self.hops@[i] == old(self).hops@[i],
                out@ == spec_pass_cmds(old(self).hops@, j as int),
                forall|i: int|
                    0 <= i < j ==> {
                        let h1 = #[trigger] old(self).hops@[i];
                        let h2 = self.hops@[i];
                        &&& h2.unique_id == h1.unique_id
                        &&& h2.hop_num == h1.hop_num
                        &&& h2.ccontrol == h1.ccontrol
                        &&& h2.inbound == h1.inbound
                        &&& h2.relay_format == h1.relay_format
                        &&& if h1.ccontrol.send_window > 0 {
                            take_ready_post(h1.map, h2.map, spec_hop_take_result(h1))
                        } else {
                            h2 == h1
                        }
                    },
            decreases len - j,
        {
            let ghost h1 = self.hops@[j as int];
            let ghost prev = self.hops@;
            proof {
                assert(spec_pass_cmds(old(self).hops@, j as int + 1) == spec_pass_cmds(
                    old(self).hops@,
                    j as int,
                ) + spec_hop_contrib(old(self).hops@[j as int], HopNum(j as u8)));
            }
            let can = self.hops[j].ccontrol.can_send();
            if can {
                let mut hop = self.hops.remove(j);
                let tr = hop.map.take_ready_stream();
                let hopnum = HopNum(j as u8);
                match tr {
                    Some((sid, Some(msg))) => {
                        out.push(
                            CircuitCmd::Send(
                                SendRelayCell {
                                    hop: hopnum,
                                    early: false,
                                    cell: AnyRelayMsgOuter::new(Some(sid), msg),
                                },
                            ),
                        );
                    },
                    Some((sid, None)) => {
                        out.push(
                            CircuitCmd::CloseStream {
                                hop: hopnum,
                                sid,
                                behav: CloseStreamBehavior::default(),
                                reason: TerminateReason::StreamTargetClosed,
                            },
                        );
                    },
                    None => {},
                }
                self.hops.insert(j, hop);
                proof {
                    assert(self.hops@ =~= prev.update(j as int, self.hops@[j as int]));
                    assert(tr == spec_hop_take_result(h1));
                    assert(out@ =~= spec_pass_cmds(old(self).hops@, j as int) + spec_hop_contrib(
                        h1,
                        HopNum(j as u8),
                    ));
                }
            } else {
                proof {
                    assert(spec_hop_contrib(h1, HopNum(j as u8)) =~= Seq::<CircuitCmd>::empty());
                    assert(out@ =~= spec_pass_cmds(old(self).hops@, j as int + 1));
                }
            }
            j += 1;
        }
        out
    }
}

} // verus!
