//! The per-hop table of streams.
//!
//! A [`StreamMap`] maps stream IDs to stream state.  A stream is *open*
//! while both sides may still talk; after we send our END it is *end-sent*
//! (a half-stream that still absorbs the peer's late messages); after the
//! peer's END arrives first it is *end-received* until our own side closes
//! it too.  Entries disappear only when both directions have ended.
//!
//! The map also owns the outbound side of every open stream: the messages
//! the local writer has queued, handed out one at a time by
//! [`StreamMap::take_ready_stream`], which rotates round-robin over the
//! streams so that no stream with ready data starves.

use vstd::prelude::*;

use crate::err::{Error, Result};
use crate::flow::StreamSendFlowControl;
use crate::relaycell::{AnyRelayMsg, RelayCmd, StreamId};

verus! {

/// Whether a stream is still open after a message was checked.
#[derive(Clone, Copy, Debug, PartialEq, Eq, Structural)]
pub enum StreamStatus {
    /// The stream stays open.
    Open,
    /// The message ended the stream.
    Closed,
}

/// Whether closing a stream must emit an END cell.
#[derive(Clone, Copy, Debug, PartialEq, Eq, Structural)]
pub enum ShouldSendEnd {
    /// We have not yet told the peer: send an END.
    Send,
    /// The peer's END already arrived: nothing to send.
    DontSend,
}

/// Why a stream is being closed locally.
#[derive(Clone, Copy, Debug, PartialEq, Eq, Structural)]
pub enum TerminateReason {
    /// The local consumer asked for the stream to end.
    ExplicitEnd,
    /// The local writer went away, so the stream has nothing more to send.
    StreamTargetClosed,
}

/// The outcome of offering a message to a stream's sink.
#[derive(Clone, Copy, Debug, PartialEq, Eq, Structural)]
pub enum TrySendOutcome {
    /// The message was queued for the local consumer.
    Sent,
    /// The sink is at capacity; the peer overran its flow-control credit.
    Full,
    /// The local consumer is gone; the message was dropped.
    Disconnected,
}

/// Checks that the peer's messages are legal for this kind of stream.
#[derive(Clone, Copy, Debug, PartialEq, Eq, Structural)]
pub enum CmdChecker {
    /// An ordinary data stream: CONNECTED and DATA are expected, END closes
    /// it, anything else is a protocol violation.
    DataStream,
}

impl CmdChecker {
    /// What checking a message with command `cmd` yields.
    pub open spec fn spec_check(self, cmd: RelayCmd) -> Result<StreamStatus> {
        match self {
            CmdChecker::DataStream => {
                if cmd == RelayCmd::End {
                    Ok(StreamStatus::Closed)
                } else if cmd == RelayCmd::Data || cmd == RelayCmd::Connected {
                    Ok(StreamStatus::Open)
                } else {
                    Err(Error::UnexpectedMessage)
                }
            },
        }
    }

    /// Check whether `msg` is legal here, and whether it ends the stream.
    pub fn check_msg(&self, msg: &AnyRelayMsg) -> (r: Result<StreamStatus>)
        ensures
            r == self.spec_check(msg@.cmd()),
    {
        match self {
            CmdChecker::DataStream => {
                match msg.cmd() {
                    RelayCmd::End => Ok(StreamStatus::Closed),
                    RelayCmd::Data | RelayCmd::Connected => Ok(StreamStatus::Open),
                    _ => Err(Error::UnexpectedMessage),
                }
            },
        }
    }
}

/// The bounded queue that carries a stream's inbound messages to the local
/// consumer.
///
/// The capacity is the flow-control allowance turned into queue space: a
/// peer that respects flow control can never fill it.
#[derive(Clone, Debug, PartialEq, Eq)]
pub struct StreamSink {
    /// The queued messages; index 0 is the oldest.
    pub msgs: Vec<AnyRelayMsg>,
    /// How many messages the queue may hold.
    pub capacity: usize,
    /// False once the local consumer has gone away.
    pub connected: bool,
}

impl StreamSink {
    /// Create an empty, connected sink with room for `capacity` messages.
    pub fn new(capacity: usize) -> (r: Self)
        ensures
            r.msgs@ == Seq::<AnyRelayMsg>::empty(),
            r.capacity == capacity,
            r.connected,
    {
        StreamSink { msgs: Vec::new(), capacity, connected: true }
    }

    /// Note that the local consumer has gone away.
    pub fn disconnect(&mut self)
        ensures
            *final(self) == (StreamSink { connected: false, ..*old(self) }),
    {
        self.connected = false;
    }

    /// Offer `m` to the sink.
    pub fn try_send(&mut self, m: AnyRelayMsg) -> (r: TrySendOutcome)
        ensures
            if !old(self).connected {
                r == TrySendOutcome::Disconnected && *final(self) == *old(self)
            } else if old(self).msgs@.len() >= old(self).capacity {
                r == TrySendOutcome::Full && *final(self) == *old(self)
            } else {
                &&& r == TrySendOutcome::Sent
                &&& final(self).msgs@ == old(self).msgs@.push(m)
                &&& final(self).capacity == old(self).capacity
                &&& final(self).connected == old(self).connected
            },
    {
        if !self.connected {
            TrySendOutcome::Disconnected
        } else if self.msgs.len() >= self.capacity {
            TrySendOutcome::Full
        } else {
            self.msgs.push(m);
            TrySendOutcome::Sent
        }
    }

    /// Take the oldest queued message, as the local consumer would.
    pub fn take_next(&mut self) -> (r: Option<AnyRelayMsg>)
        ensures
            final(self).capacity == old(self).capacity,
            final(self).connected == old(self).connected,
            if old(self).msgs@.len() == 0 {
                r is None && final(self).msgs@ == old(self).msgs@
            } else {
                &&& r == Some(old(self).msgs@[0])
                &&& final(self).msgs@ == old(self).msgs@.drop_first()
            },
    {
        if self.msgs.len() == 0 {
            None
        } else {
            let m = self.msgs.remove(0);
            Some(m)
        }
    }

    /// How many messages are queued.
    pub fn len(&self) -> (n: usize)
        ensures
            n == self.msgs@.len(),
    {
        self.msgs.len()
    }
}

/// The state of an open stream.
#[derive(Clone, Debug, PartialEq, Eq)]
pub struct OpenStreamEnt {
    /// The inbound queue toward the local consumer.
    pub sink: StreamSink,
    /// Sender-side flow control for this stream.
    pub flow_ctrl: StreamSendFlowControl,
    /// How many inbound cells were dropped because the consumer was gone.
    pub dropped: u32,
    /// The checker that enforces legal message sequences on this stream.
    pub cmd_checker: CmdChecker,
    /// Messages the local writer has queued to send; index 0 is next.
    pub outbound: Vec<AnyRelayMsg>,
    /// True once the local writer is done: after `outbound` drains, the
    /// stream is ready to be closed.
    pub writer_done: bool,
}

/// What is left of a stream after we sent our END: enough state to check
/// the peer's late messages until its own END arrives.
#[derive(Clone, Copy, Debug, PartialEq, Eq, Structural)]
pub struct HalfStream {
    /// Flow control, still accounted so a late SENDME can be validated.
    pub flow_ctrl: StreamSendFlowControl,
    /// The stream's message checker.
    pub cmd_checker: CmdChecker,
}

/// How [`HalfStream::handle_msg`] relates the half-stream before (`h1`)
/// and after (`h2`) to the message `msg` and the result `r`: a SENDME
/// updates (and validates) the window, everything else is checked for
/// legality without changing the half-stream.
pub open spec fn spec_half_handle(
    h1: HalfStream,
    msg: AnyRelayMsg,
    h2: HalfStream,
    r: Result<StreamStatus>,
) -> bool {
    if msg@.cmd() == RelayCmd::Sendme {
        match h1.flow_ctrl {
            StreamSendFlowControl::WindowBased { window } => {
                if window + crate::flow::STREAM_SENDME_INCREMENT
                    <= crate::flow::STREAM_SEND_WINDOW_INIT {
                    &&& r == Ok::<_, Error>(StreamStatus::Open)
                    &&& h2 == (HalfStream {
                        flow_ctrl: StreamSendFlowControl::WindowBased {
                            window: (window + crate::flow::STREAM_SENDME_INCREMENT) as u16,
                        },
                        ..h1
                    })
                } else {
                    r == Err::<StreamStatus, _>(Error::ExcessSendme) && h2 == h1
                }
            },
            StreamSendFlowControl::XonXoffBased => {
                r == Err::<StreamStatus, _>(Error::UnexpectedStreamSendme) && h2 == h1
            },
        }
    } else {
        r == h1.cmd_checker.spec_check(msg@.cmd()) && h2 == h1
    }
}

impl HalfStream {
    /// Handle a message arriving on the half-closed stream.
    ///
    /// A SENDME still updates (and validates) the flow-control window; any
    /// other message is checked for legality, and the result says whether
    /// it was the peer's END.
    pub fn handle_msg(&mut self, msg: &AnyRelayMsg) -> (r: Result<StreamStatus>)
        ensures
            spec_half_handle(*old(self), *msg, *final(self), r),
    {
        if matches!(msg.cmd(), RelayCmd::Sendme) {
            self.flow_ctrl.put_for_incoming_sendme()?;
            Ok(StreamStatus::Open)
        } else {
            self.cmd_checker.check_msg(msg)
        }
    }
}

/// The state kept after our END was sent but the peer's has not arrived.
#[derive(Clone, Copy, Debug, PartialEq, Eq, Structural)]
pub struct EndSentStreamEnt {
    /// The half-stream that absorbs the peer's late messages.
    pub half_stream: HalfStream,
}

/// One stream's state.
#[derive(Clone, Debug, PartialEq, Eq)]
pub enum StreamEnt {
    /// Open in both directions.
    Open(OpenStreamEnt),
    /// We sent END; waiting for the peer's.
    EndSent(EndSentStreamEnt),
    /// The peer sent END; waiting for our side to close.
    EndReceived,
}

/// One entry of the stream map: an ID and the stream's state.
#[derive(Clone, Debug, PartialEq, Eq)]
pub struct StreamEntry {
    /// The stream's ID, unique within the map and never zero.
    pub id: StreamId,
    /// The stream's state.
    pub ent: StreamEnt,
}

/// The smallest stream ID value that can never be allocated any more:
/// one past the largest 16-bit ID.
pub const STREAM_ID_LIMIT: u32 = 0x1_0000;

/// The per-hop table of streams.
///
/// IDs are handed out in increasing order and never reused, so an ID can
/// never denote one stream first and a different one later (a fresh ID is
/// larger than every ID this map has ever held).
pub struct StreamMap {
    /// The entries, in insertion order.
    pub ents: Vec<StreamEntry>,
    /// The next stream ID to allocate; `STREAM_ID_LIMIT` once exhausted.
    pub next_id: u32,
    /// Where the next round-robin scan starts, as an index into `ents`.
    /// Values past the end simply wrap to the start.
    pub rr_index: usize,
}

/// The number of open entries in `s`.
pub open spec fn count_open(s: Seq<StreamEntry>) -> nat
    decreases s.len(),
{
    if s.len() == 0 {
        0
    } else {
        (if s[0].ent is Open {
            1nat
        } else {
            0nat
        }) + count_open(s.drop_first())
    }
}

/// Appending an entry adds its own openness to the count.
pub proof fn lemma_count_open_push(s: Seq<StreamEntry>, e: StreamEntry)
    ensures
        count_open(s.push(e)) == count_open(s) + (if e.ent is Open {
            1nat
        } else {
            0nat
        }),
    decreases s.len(),
{
    assert(s.push(e).len() == s.len() + 1);
    assert(count_open(s.push(e)) == (if s.push(e)[0].ent is Open {
        1nat
    } else {
        0nat
    }) + count_open(s.push(e).drop_first()));
    if s.len() == 0 {
        assert(s.push(e)[0] == e);
        assert(s.push(e).drop_first() =~= Seq::<StreamEntry>::empty());
        assert(count_open(s.push(e).drop_first()) == 0);
    } else {
        assert(s.push(e)[0] == s[0]);
        assert(s.push(e).drop_first() =~= s.drop_first().push(e));
        lemma_count_open_push(s.drop_first(), e);
    }
}

impl StreamMap {
    /// The map's structural invariant: IDs are non-zero, below the
    /// allocation cursor, and pairwise distinct.
    pub open spec fn wf(self) -> bool {
        &&& 1 <= self.next_id <= STREAM_ID_LIMIT
        &&& forall|i: int|
            0 <= i < self.ents@.len() ==> 0 < (#[trigger] self.ents@[i]).id.0 < self.next_id
        &&& forall|i: int, j: int|
            0 <= i < j < self.ents@.len() ==> self.ents@[i].id != self.ents@[j].id
    }

    /// True if the map has an entry (in any state) for `id`.
    pub open spec fn contains_id(self, id: StreamId) -> bool {
        exists|i: int| 0 <= i < self.ents@.len() && (#[trigger] self.ents@[i]).id == id
    }

    /// True if the map has an open entry for `id`.
    pub open spec fn has_open(self, id: StreamId) -> bool {
        exists|i: int|
            0 <= i < self.ents@.len() && (#[trigger] self.ents@[i]).id == id && self.ents@[i].ent
                is Open
    }

    /// True if the map has an end-sent (half-closed) entry for `id`.
    pub open spec fn has_end_sent(self, id: StreamId) -> bool {
        exists|i: int|
            0 <= i < self.ents@.len() && (#[trigger] self.ents@[i]).id == id && self.ents@[i].ent
                is EndSent
    }

    /// True if the map has an end-received entry for `id`.
    pub open spec fn has_end_received(self, id: StreamId) -> bool {
        exists|i: int|
            0 <= i < self.ents@.len() && (#[trigger] self.ents@[i]).id == id && self.ents@[i].ent
                is EndReceived
    }

    /// Create an empty stream map.
    pub fn new() -> (r: Self)
        ensures
            r.wf(),
            r.ents@ == Seq::<StreamEntry>::empty(),
            r.next_id == 1,
            r.rr_index == 0,
    {
        StreamMap { ents: Vec::new(), next_id: 1, rr_index: 0 }
    }

    /// Find the index of the entry for `id`, if there is one.
    fn lookup(&self, id: StreamId) -> (r: Option<usize>)
        ensures
            match r {
                Some(i) => i < self.ents@.len() && self.ents@[i as int].id == id,
                None => !self.contains_id(id),
            },
    {
        let n = self.ents.len();
        let mut i: usize = 0;
        while i < n
            invariant
                n == self.ents@.len(),
                i <= n,
                forall|j: int| 0 <= j < i ==> (#[trigger] self.ents@[j]).id != id,
            decreases n - i,
        {
            if self.ents[i].id == id {
                return Some(i);
            }
            i += 1;
        }
        None
    }

    /// The number of open streams in this map.
    pub fn n_open_streams(&self) -> (n: usize)
        ensures
            n == count_open(self.ents@),
    {
        let len = self.ents.len();
        let mut n: usize = 0;
        let mut i: usize = 0;
        while i < len
            invariant
                len == self.ents@.len(),
                i <= len,
                n <= i,
                n == count_open(self.ents@.subrange(0, i as int)),
            decreases len - i,
        {
            proof {
                assert(self.ents@.subrange(0, i as int + 1)
                    =~= self.ents@.subrange(0, i as int).push(self.ents@[i as int]));
                lemma_count_open_push(self.ents@.subrange(0, i as int), self.ents@[i as int]);
            }
            if matches!(self.ents[i].ent, StreamEnt::Open(_)) {
                n += 1;
            }
            i += 1;
        }
        proof {
            assert(self.ents@.subrange(0, len as int) =~= self.ents@);
        }
        n
    }

    /// Add a new stream with a freshly allocated ID.
    ///
    /// The fresh ID is never one that this map holds or ever held, so an
    /// ID can never be observed to denote two different streams: this is
    /// the no-reuse guarantee for stream IDs.
    pub fn add_ent(
        &mut self,
        sink: StreamSink,
        flow_ctrl: StreamSendFlowControl,
        cmd_checker: CmdChecker,
    ) -> (r: Result<StreamId>)
        requires
            old(self).wf(),
        ensures
            final(self).wf(),
            match r {
                Ok(id) => {
                    &&& id.0 == old(self).next_id
                    &&& !old(self).contains_id(id)
                    &&& final(self).contains_id(id)
                    &&& final(self).next_id == old(self).next_id + 1
                    &&& final(self).rr_index == old(self).rr_index
                    &&& final(self).ents@.len() == old(self).ents@.len() + 1
                    &&& final(self).ents@.subrange(0, old(self).ents@.len() as int)
                        == old(self).ents@
                    &&& final(self).ents@.last().id == id
                    &&& final(self).ents@.last().ent matches StreamEnt::Open(o)
                        && o.sink == sink
                        && o.flow_ctrl == flow_ctrl
                        && o.cmd_checker == cmd_checker
                        && o.dropped == 0
                        && o.outbound@ == Seq::<AnyRelayMsg>::empty()
                        && o.writer_done == false
                },
                Err(e) => {
                    &&& e == Error::StreamIdsExhausted
                    &&& *final(self) == *old(self)
                },
            },
            (r is Err) <==> old(self).next_id == STREAM_ID_LIMIT,
    {
        if self.next_id == STREAM_ID_LIMIT {
            return Err(Error::StreamIdsExhausted);
        }
        let id = StreamId(self.next_id as u16);
        let ent = OpenStreamEnt {
            sink,
            flow_ctrl,
            dropped: 0,
            cmd_checker,
            outbound: Vec::new(),
            writer_done: false,
        };
        self.ents.push(StreamEntry { id, ent: StreamEnt::Open(ent) });
        self.next_id = self.next_id + 1;
        proof {
            assert(final(self).ents@.subrange(0, old(self).ents@.len() as int) =~= old(self).ents@);
            assert(final(self).ents@[old(self).ents@.len() as int].id == id);
        }
        Ok(id)
    }

    /// Add a new stream under an ID the peer chose (an incoming stream
    /// request on the service side).
    ///
    /// Fails if the ID is zero or still in use.  The allocation cursor is
    /// advanced past the peer's ID so that locally allocated IDs can never
    /// collide with it later.
    pub fn add_ent_with_id(
        &mut self,
        sink: StreamSink,
        flow_ctrl: StreamSendFlowControl,
        id: StreamId,
        cmd_checker: CmdChecker,
    ) -> (r: Result<()>)
        requires
            old(self).wf(),
        ensures
            final(self).wf(),
            match r {
                Ok(()) => {
                    &&& id.0 != 0
                    &&& !old(self).contains_id(id)
                    &&& final(self).contains_id(id)
                    &&& final(self).rr_index == old(self).rr_index
                    &&& final(self).ents@.len() == old(self).ents@.len() + 1
                    &&& final(self).ents@.subrange(0, old(self).ents@.len() as int)
                        == old(self).ents@
                    &&& final(self).ents@.last().id == id
                    &&& final(self).ents@.last().ent matches StreamEnt::Open(o)
                        && o.sink == sink
                        && o.flow_ctrl == flow_ctrl
                        && o.cmd_checker == cmd_checker
                        && o.dropped == 0
                        && o.outbound@ == Seq::<AnyRelayMsg>::empty()
                        && o.writer_done == false
                },
                Err(e) => {
                    &&& *final(self) == *old(self)
                    &&& (e == Error::ZeroStreamId || e == Error::StreamIdInUse)
                    &&& (e == Error::ZeroStreamId) <==> (id.0 == 0)
                    &&& (e == Error::StreamIdInUse)
                        <==> (id.0 != 0 && old(self).contains_id(id))
                },
            },
            (r is Ok) <==> (id.0 != 0 && !old(self).contains_id(id)),
    {
        if id.0 == 0 {
            return Err(Error::ZeroStreamId);
        }
        if self.lookup(id).is_some() {
            return Err(Error::StreamIdInUse);
        }
        let ent = OpenStreamEnt {
            sink,
            flow_ctrl,
            dropped: 0,
            cmd_checker,
            outbound: Vec::new(),
            writer_done: false,
        };
        self.ents.push(StreamEntry { id, ent: StreamEnt::Open(ent) });
        if id.0 as u32 >= self.next_id {
            self.next_id = id.0 as u32 + 1;
        }
        proof {
            assert(final(self).ents@.subrange(0, old(self).ents@.len() as int) =~= old(self).ents@);
            assert(final(self).ents@[old(self).ents@.len() as int].id == id);
        }
        Ok(())
    }

    /// Queue a message from the local writer for sending on stream `id`.
    ///
    /// This is the writer-side edge of the multiplexer: whatever owns the
    /// stream's write half hands its messages in here, and a scheduling
    /// pass later takes them out fairly.
    pub fn queue_outbound(&mut self, id: StreamId, msg: AnyRelayMsg) -> (r: Result<()>)
        requires
            old(self).wf(),
        ensures
            final(self).wf(),
            final(self).next_id == old(self).next_id,
            final(self).rr_index == old(self).rr_index,
            match r {
                Ok(()) => exists|i: int|
                    {
                        &&& 0 <= i < old(self).ents@.len()
                        &&& (#[trigger] old(self).ents@[i]).id == id
                        &&& old(self).ents@[i].ent matches StreamEnt::Open(o1)
                            && final(self).ents@ == old(self).ents@.update(
                            i,
                            StreamEntry {
                                id,
                                ent: StreamEnt::Open(
                                    OpenStreamEnt { outbound: final(self).ents@[i].ent->Open_0.outbound, ..o1 },
                                ),
                            },
                        ) && final(self).ents@[i].ent->Open_0.outbound@ == o1.outbound@.push(msg)
                    },
                Err(e) => {
                    &&& e == Error::StreamNotOpen
                    &&& *final(self) == *old(self)
                },
            },
            (r is Ok) <==> old(self).has_open(id),
    {
        let i = match self.lookup(id) {
            Some(i) => i,
            None => {
                return Err(Error::StreamNotOpen);
            },
        };
        proof {
            assert forall|k: int|
                0 <= k < self.ents@.len() && (#[trigger] self.ents@[k]).id == id implies k
                == i as int by {
                lemma_id_index_unique(*self, id, i as int, k);
            }
        }
        let is_open = matches!(&self.ents[i].ent, StreamEnt::Open(_));
        if !is_open {
            return Err(Error::StreamNotOpen);
        }
        let ghost old_ents = self.ents@;
        let mut entry = self.ents.remove(i);
        if let StreamEnt::Open(o) = &mut entry.ent {
            o.outbound.push(msg);
        }
        self.ents.insert(i, entry);
        proof {
            let i_ = i as int;
            let o1 = old_ents[i_].ent->Open_0;
            assert(final(self).ents@ =~= old_ents.update(
                i_,
                StreamEntry {
                    id,
                    ent: StreamEnt::Open(
                        OpenStreamEnt { outbound: final(self).ents@[i_].ent->Open_0.outbound, ..o1 },
                    ),
                },
            ));
            assert(final(self).ents@[i_].ent->Open_0.outbound@ =~= o1.outbound@.push(msg));
            assert forall|a: int, b: int|
                0 <= a < b < final(self).ents@.len() implies final(self).ents@[a].id
                != final(self).ents@[b].id by {
                assert(final(self).ents@[a].id == old_ents[a].id);
                assert(final(self).ents@[b].id == old_ents[b].id);
            }
        }
        Ok(())
    }

    /// Note that the local writer of stream `id` is done: once its queued
    /// messages drain, the scheduler will ask for the stream to be closed.
    pub fn close_writer(&mut self, id: StreamId) -> (r: Result<()>)
        requires
            old(self).wf(),
        ensures
            final(self).wf(),
            final(self).next_id == old(self).next_id,
            final(self).rr_index == old(self).rr_index,
            match r {
                Ok(()) => exists|i: int|
                    {
                        &&& 0 <= i < old(self).ents@.len()
                        &&& (#[trigger] old(self).ents@[i]).id == id
                        &&& old(self).ents@[i].ent matches StreamEnt::Open(o1)
                            && final(self).ents@ == old(self).ents@.update(
                            i,
                            StreamEntry {
                                id,
                                ent: StreamEnt::Open(OpenStreamEnt { writer_done: true, ..o1 }),
                            },
                        )
                    },
                Err(e) => {
                    &&& e == Error::StreamNotOpen
                    &&& *final(self) == *old(self)
                },
            },
            (r is Ok) <==> old(self).has_open(id),
    {
        let i = match self.lookup(id) {
            Some(i) => i,
            None => {
                return Err(Error::StreamNotOpen);
            },
        };
        proof {
            assert forall|k: int|
                0 <= k < self.ents@.len() && (#[trigger] self.ents@[k]).id == id implies k
                == i as int by {
                lemma_id_index_unique(*self, id, i as int, k);
            }
        }
        let is_open = matches!(&self.ents[i].ent, StreamEnt::Open(_));
        if !is_open {
            return Err(Error::StreamNotOpen);
        }
        let ghost old_ents = self.ents@;
        let mut entry = self.ents.remove(i);
        if let StreamEnt::Open(o) = &mut entry.ent {
            o.writer_done = true;
        }
        self.ents.insert(i, entry);
        proof {
            let i_ = i as int;
            let o1 = old_ents[i_].ent->Open_0;
            assert(final(self).ents@ =~= old_ents.update(
                i_,
                StreamEntry { id, ent: StreamEnt::Open(OpenStreamEnt { writer_done: true, ..o1 }) },
            ));
            assert forall|a: int, b: int|
                0 <= a < b < final(self).ents@.len() implies final(self).ents@[a].id
                != final(self).ents@[b].id by {
                assert(final(self).ents@[a].id == old_ents[a].id);
                assert(final(self).ents@[b].id == old_ents[b].id);
            }
        }
        Ok(())
    }

    /// Terminate our side of stream `id`, as [`ShouldSendEnd`] says whether
    /// an END cell must still go out.
    ///
    /// If the stream is open, it becomes a half-closed entry that keeps
    /// absorbing the peer's messages, and the caller should send an END.
    /// If the peer's END already arrived, the entry just disappears and no
    /// END is owed.
    pub fn terminate(&mut self, id: StreamId, _why: TerminateReason) -> (r: Result<ShouldSendEnd>)
        requires
            old(self).wf(),
        ensures
            final(self).wf(),
            final(self).next_id == old(self).next_id,
            final(self).rr_index == old(self).rr_index,
            match r {
                Ok(sse) => exists|i: int|
                    {
                        &&& 0 <= i < old(self).ents@.len()
                        &&& (#[trigger] old(self).ents@[i]).id == id
                        &&& match old(self).ents@[i].ent {
                            StreamEnt::Open(o1) => {
                                &&& sse == ShouldSendEnd::Send
                                &&& final(self).ents@ == old(self).ents@.update(
                                    i,
                                    StreamEntry {
                                        id,
                                        ent: StreamEnt::EndSent(
                                            EndSentStreamEnt {
                                                half_stream: HalfStream {
                                                    flow_ctrl: o1.flow_ctrl,
                                                    cmd_checker: o1.cmd_checker,
                                                },
                                            },
                                        ),
                                    },
                                )
                            },
                            StreamEnt::EndReceived => {
                                &&& sse == ShouldSendEnd::DontSend
                                &&& final(self).ents@ == old(self).ents@.remove(i)
                            },
                            StreamEnt::EndSent(_) => false,
                        }
                    },
                Err(e) => {
                    &&& *final(self) == *old(self)
                    &&& (e == Error::TerminateUnknownStream || e == Error::TerminatedTwice)
                    &&& (e == Error::TerminateUnknownStream) <==> !old(self).contains_id(id)
                },
            },
            (r is Err) <==> (!old(self).contains_id(id) || old(self).has_end_sent(id)),
    {
        let i = match self.lookup(id) {
            Some(i) => i,
            None => {
                return Err(Error::TerminateUnknownStream);
            },
        };
        let ghost old_ents = self.ents@;
        proof {
            assert forall|k: int|
                0 <= k < old_ents.len() && (#[trigger] old_ents[k]).id == id implies k
                == i as int by {
                lemma_id_index_unique(*old(self), id, i as int, k);
            }
        }
        match &self.ents[i].ent {
            StreamEnt::Open(o) => {
                let half = HalfStream { flow_ctrl: o.flow_ctrl, cmd_checker: o.cmd_checker };
                self.ents.set(
                    i,
                    StreamEntry { id, ent: StreamEnt::EndSent(EndSentStreamEnt { half_stream: half }) },
                );
                proof {
                    assert forall|a: int, b: int|
                        0 <= a < b < final(self).ents@.len() implies final(self).ents@[a].id
                        != final(self).ents@[b].id by {
                        assert(old_ents[a].id != old_ents[b].id);
                    }
                }
                Ok(ShouldSendEnd::Send)
            },
            StreamEnt::EndReceived => {
                self.ents.remove(i);
                proof {
                    lemma_remove_keeps_wf(old_ents, i as int, self.next_id);
                }
                Ok(ShouldSendEnd::DontSend)
            },
            StreamEnt::EndSent(_) => Err(Error::TerminatedTwice),
        }
    }

    /// Note that a message ending the stream (such as END) arrived from the
    /// peer for stream `id`.
    ///
    /// An open stream becomes end-received; a half-closed stream is fully
    /// torn down; anything else is a protocol violation.
    pub fn ending_msg_received(&mut self, id: StreamId) -> (r: Result<()>)
        requires
            old(self).wf(),
        ensures
            final(self).wf(),
            final(self).next_id == old(self).next_id,
            final(self).rr_index == old(self).rr_index,
            match r {
                Ok(()) => exists|i: int|
                    {
                        &&& 0 <= i < old(self).ents@.len()
                        &&& (#[trigger] old(self).ents@[i]).id == id
                        &&& match old(self).ents@[i].ent {
                            StreamEnt::Open(_) => final(self).ents@ == old(self).ents@.update(
                                i,
                                StreamEntry { id, ent: StreamEnt::EndReceived },
                            ),
                            StreamEnt::EndSent(_) => final(self).ents@ == old(self).ents@.remove(
                                i,
                            ),
                            StreamEnt::EndReceived => false,
                        }
                    },
                Err(e) => {
                    &&& *final(self) == *old(self)
                    &&& (e == Error::CellOnUnknownStream || e == Error::EndReceivedTwice)
                    &&& (e == Error::CellOnUnknownStream) <==> !old(self).contains_id(id)
                },
            },
            (r is Err) <==> (!old(self).contains_id(id) || old(self).has_end_received(id)),
    {
        let i = match self.lookup(id) {
            Some(i) => i,
            None => {
                return Err(Error::CellOnUnknownStream);
            },
        };
        let ghost old_ents = self.ents@;
        proof {
            assert forall|k: int|
                0 <= k < old_ents.len() && (#[trigger] old_ents[k]).id == id implies k
                == i as int by {
                lemma_id_index_unique(*old(self), id, i as int, k);
            }
        }
        match &self.ents[i].ent {
            StreamEnt::Open(_) => {
                self.ents.set(i, StreamEntry { id, ent: StreamEnt::EndReceived });
                proof {
                    assert forall|a: int, b: int|
                        0 <= a < b < final(self).ents@.len() implies final(self).ents@[a].id
                        != final(self).ents@[b].id by {
                        assert(old_ents[a].id != old_ents[b].id);
                    }
                }
                Ok(())
            },
            StreamEnt::EndSent(_) => {
                self.ents.remove(i);
                proof {
                    lemma_remove_keeps_wf(old_ents, i as int, self.next_id);
                }
                Ok(())
            },
            StreamEnt::EndReceived => Err(Error::EndReceivedTwice),
        }
    }
}

/// True if entry `e` could yield a scheduling item right now: it is open
/// and either has a queued message its flow control lets it send, or its
/// writer is done (so the stream is ready to be closed).
pub open spec fn spec_ready(e: StreamEntry) -> bool {
    match e.ent {
        StreamEnt::Open(o) => {
            if o.outbound@.len() > 0 {
                o.flow_ctrl.spec_can_send(o.outbound@[0]@)
            } else {
                o.writer_done
            }
        },
        _ => false,
    }
}

/// The index of the first ready entry in `s[lo..hi]`, if any.
pub open spec fn first_ready_in_range(s: Seq<StreamEntry>, lo: int, hi: int) -> Option<int>
    decreases hi - lo,
{
    if lo >= hi {
        None
    } else if spec_ready(s[lo]) {
        Some(lo)
    } else {
        first_ready_in_range(s, lo + 1, hi)
    }
}

/// The index of the first ready entry at or after `start`, wrapping around
/// to the front of `s` if the tail has none.
pub open spec fn first_ready_from(s: Seq<StreamEntry>, start: int) -> Option<int> {
    match first_ready_in_range(s, start, s.len() as int) {
        Some(i) => Some(i),
        None => first_ready_in_range(s, 0, start),
    }
}

/// What [`first_ready_in_range`] returns: the first ready index in the
/// range, or nothing when the range has none.
pub proof fn lemma_first_ready_in_range(s: Seq<StreamEntry>, lo: int, hi: int)
    requires
        0 <= lo <= hi <= s.len(),
    ensures
        match first_ready_in_range(s, lo, hi) {
            Some(i) => {
                &&& lo <= i < hi
                &&& spec_ready(s[i])
                &&& forall|j: int| lo <= j < i ==> !spec_ready(#[trigger] s[j])
            },
            None => forall|j: int| lo <= j < hi ==> !spec_ready(#[trigger] s[j]),
        },
    decreases hi - lo,
{
    if lo < hi && !spec_ready(s[lo]) {
        lemma_first_ready_in_range(s, lo + 1, hi);
    }
}

/// The scan start the round-robin cursor denotes: itself, or the front of
/// the table once it has run off the end.
pub open spec fn norm_start(m: StreamMap) -> int {
    if m.rr_index < m.ents@.len() {
        m.rr_index as int
    } else {
        0
    }
}

/// How one call of [`StreamMap::take_ready_stream`] relates the map before
/// (`m1`) and after (`m2`) to its result `r`.
///
/// The first ready stream at or after the round-robin cursor is chosen; the
/// cursor moves just past it, which is what makes consecutive calls fair.
/// A chosen stream with a queued message gives that message up; a drained
/// stream whose writer is done is reported with `None` so the caller can
/// close it.
pub open spec fn take_ready_post(
    m1: StreamMap,
    m2: StreamMap,
    r: Option<(StreamId, Option<AnyRelayMsg>)>,
) -> bool {
    match first_ready_from(m1.ents@, norm_start(m1)) {
        None => r is None && m2 == m1,
        Some(i) => {
            let e1 = m1.ents@[i];
            let o1 = e1.ent->Open_0;
            &&& m2.rr_index == i + 1
            &&& m2.next_id == m1.next_id
            &&& if o1.outbound@.len() > 0 {
                &&& r == Some((e1.id, Some(o1.outbound@[0])))
                &&& m2.ents@ == m1.ents@.update(
                    i,
                    StreamEntry {
                        id: e1.id,
                        ent: StreamEnt::Open(
                            OpenStreamEnt { outbound: m2.ents@[i].ent->Open_0.outbound, ..o1 },
                        ),
                    },
                )
                &&& m2.ents@[i].ent->Open_0.outbound@ == o1.outbound@.drop_first()
            } else {
                &&& r == Some((e1.id, None::<AnyRelayMsg>))
                &&& m2.ents@ == m1.ents@
            }
        },
    }
}

impl StreamMap {
    /// True if the entry at index `j` is ready to yield a scheduling item.
    fn is_ready_at(&self, j: usize) -> (b: bool)
        requires
            j < self.ents@.len(),
        ensures
            b == spec_ready(self.ents@[j as int]),
    {
        match &self.ents[j].ent {
            StreamEnt::Open(o) => {
                if o.outbound.len() > 0 {
                    o.flow_ctrl.can_send(&o.outbound[0])
                } else {
                    o.writer_done
                }
            },
            _ => false,
        }
    }

    /// Find the first ready entry with index in `[lo, hi)`.
    fn scan_ready(&self, lo: usize, hi: usize) -> (r: Option<usize>)
        requires
            lo <= hi <= self.ents@.len(),
        ensures
            match first_ready_in_range(self.ents@, lo as int, hi as int) {
                Some(i) => r matches Some(u) && u == i,
                None => r is None,
            },
    {
        proof {
            lemma_first_ready_in_range(self.ents@, lo as int, hi as int);
        }
        let mut j = lo;
        while j < hi
            invariant
                lo <= j <= hi <= self.ents@.len(),
                forall|k: int| lo <= k < j ==> !spec_ready(#[trigger] self.ents@[k]),
            decreases hi - j,
        {
            if self.is_ready_at(j) {
                proof {
                    lemma_first_ready_in_range(self.ents@, lo as int, hi as int);
                }
                return Some(j);
            }
            j += 1;
        }
        None
    }

    /// Hand out the next ready stream, round-robin.
    ///
    /// Scanning starts where the last call left off, and the cursor is
    /// advanced past the chosen stream, so no ready stream starves: see
    /// [`take_ready_post`] for the exact relation.  Returns `None` when no
    /// stream is ready, the chosen stream's next queued message, or `None`
    /// in the second position when the chosen stream is drained and its
    /// writer done, meaning the stream should now be closed.
    pub fn take_ready_stream(&mut self) -> (r: Option<(StreamId, Option<AnyRelayMsg>)>)
        requires
            old(self).wf(),
        ensures
            final(self).wf(),
            take_ready_post(*old(self), *final(self), r),
    {
        let len = self.ents.len();
        if len == 0 {
            return None;
        }
        let start = if self.rr_index < len {
            self.rr_index
        } else {
            0
        };
        let mut found: Option<usize> = self.scan_ready(start, len);
        if found.is_none() {
            found = self.scan_ready(0, start);
        }
        let i = match found {
            None => {
                return None;
            },
            Some(i) => i,
        };
        let ghost old_ents = self.ents@;
        proof {
            lemma_first_ready_in_range(old_ents, start as int, len as int);
            lemma_first_ready_in_range(old_ents, 0, start as int);
            assert(first_ready_from(old_ents, norm_start(*old(self))) == Some(i as int));
            assert(i < len);
            assert(spec_ready(old_ents[i as int]));
        }
        let mut entry = self.ents.remove(i);
        let id = entry.id;
        let mut took: Option<AnyRelayMsg> = None;
        if let StreamEnt::Open(o) = &mut entry.ent {
            if o.outbound.len() > 0 {
                took = Some(o.outbound.remove(0));
            }
        }
        self.ents.insert(i, entry);
        self.rr_index = i + 1;
        proof {
            let i_ = i as int;
            let o1 = old_ents[i_].ent->Open_0;
            if o1.outbound@.len() > 0 {
                assert(final(self).ents@ =~= old_ents.update(
                    i_,
                    StreamEntry {
                        id,
                        ent: StreamEnt::Open(
                            OpenStreamEnt {
                                outbound: final(self).ents@[i_].ent->Open_0.outbound,
                                ..o1
                            },
                        ),
                    },
                ));
                assert(final(self).ents@[i_].ent->Open_0.outbound@ =~= o1.outbound@.drop_first());
            } else {
                assert(final(self).ents@ =~= old_ents);
            }
            assert forall|a: int, b: int|
                0 <= a < b < final(self).ents@.len() implies final(self).ents@[a].id
                != final(self).ents@[b].id by {
                assert(final(self).ents@[a].id == old_ents[a].id);
                assert(final(self).ents@[b].id == old_ents[b].id);
            }
        }
        match took {
            Some(m) => Some((id, Some(m))),
            None => Some((id, None)),
        }
    }
}


/// Two entries with the same stream ID are the same entry.
pub proof fn lemma_id_index_unique(m: StreamMap, id: StreamId, i: int, j: int)
    requires
        m.wf(),
        0 <= i < m.ents@.len(),
        0 <= j < m.ents@.len(),
        m.ents@[i].id == id,
        m.ents@[j].id == id,
    ensures
        i == j,
{
    if i < j {
        assert(m.ents@[i].id != m.ents@[j].id);
    } else if j < i {
        assert(m.ents@[j].id != m.ents@[i].id);
    }
}

/// Removing an entry keeps the well-formedness facts about the rest.
proof fn lemma_remove_keeps_wf(s: Seq<StreamEntry>, i: int, next_id: u32)
    requires
        0 <= i < s.len(),
        forall|a: int| 0 <= a < s.len() ==> 0 < (#[trigger] s[a]).id.0 < next_id,
        forall|a: int, b: int| 0 <= a < b < s.len() ==> s[a].id != s[b].id,
    ensures
        forall|a: int| 0 <= a < s.remove(i).len() ==> 0 < (#[trigger] s.remove(i)[a]).id.0 < next_id,
        forall|a: int, b: int|
            0 <= a < b < s.remove(i).len() ==> s.remove(i)[a].id != s.remove(i)[b].id,
{
    s.remove_ensures(i);
    assert forall|a: int| 0 <= a < s.remove(i).len() implies 0 < (#[trigger] s.remove(i)[a]).id.0
        < next_id by {
        if a < i {
            assert(s.remove(i)[a] == s[a]);
        } else {
            assert(s.remove(i)[a] == s[a + 1]);
        }
    }
    assert forall|a: int, b: int|
        0 <= a < b < s.remove(i).len() implies s.remove(i)[a].id != s.remove(i)[b].id by {
        if a < i {
            assert(s.remove(i)[a] == s[a]);
        } else {
            assert(s.remove(i)[a] == s[a + 1]);
        }
        if b < i {
            assert(s.remove(i)[b] == s[b]);
        } else {
            assert(s.remove(i)[b] == s[b + 1]);
        }
    }
}

/// The dropped-cell counter after one more drop; it sticks at its maximum
/// rather than wrap.
pub open spec fn spec_bump_dropped(d: u32, counts: bool) -> u32 {
    if counts {
        if d == u32::MAX {
            d
        } else {
            (d + 1) as u32
        }
    } else {
        d
    }
}

/// How delivering one inbound message relates an open stream entry before
/// (`o1`) and after (`o2`) to the result `r` (`Ok(true)` when the message
/// ends the stream).
///
/// A SENDME is pure flow-control bookkeeping: it updates the window and is
/// never placed in the sink, so a consumer that never polls still cannot
/// miss it.  Any other message is checked for legality and offered to the
/// sink; a full sink means the peer overran its flow-control credit (a
/// protocol violation), while a disconnected sink merely counts the
/// message as dropped.
pub open spec fn spec_deliver(
    o1: OpenStreamEnt,
    counts: bool,
    msg: AnyRelayMsg,
    o2: OpenStreamEnt,
    r: Result<bool>,
) -> bool {
    if msg@.cmd() == RelayCmd::Sendme {
        match o1.flow_ctrl {
            StreamSendFlowControl::WindowBased { window } => {
                if window + crate::flow::STREAM_SENDME_INCREMENT
                    <= crate::flow::STREAM_SEND_WINDOW_INIT {
                    &&& r == Ok::<bool, Error>(false)
                    &&& o2 == (OpenStreamEnt {
                        flow_ctrl: StreamSendFlowControl::WindowBased {
                            window: (window + crate::flow::STREAM_SENDME_INCREMENT) as u16,
                        },
                        ..o1
                    })
                } else {
                    r == Err::<bool, Error>(Error::ExcessSendme) && o2 == o1
                }
            },
            StreamSendFlowControl::XonXoffBased => {
                r == Err::<bool, Error>(Error::UnexpectedStreamSendme) && o2 == o1
            },
        }
    } else {
        match o1.cmd_checker.spec_check(msg@.cmd()) {
            Err(e) => r == Err::<bool, Error>(e) && o2 == o1,
            Ok(status) => {
                let closes = status == StreamStatus::Closed;
                if !o1.sink.connected {
                    r == Ok::<bool, Error>(closes) && o2 == (OpenStreamEnt {
                        dropped: spec_bump_dropped(o1.dropped, counts),
                        ..o1
                    })
                } else if o1.sink.msgs@.len() >= o1.sink.capacity {
                    r == Err::<bool, Error>(Error::ExcessInboundCells) && o2 == o1
                } else {
                    &&& r == Ok::<bool, Error>(closes)
                    &&& o2 == (OpenStreamEnt { sink: StreamSink { msgs: o2.sink.msgs, ..o1.sink }, ..o1 })
                    &&& o2.sink.msgs@ == o1.sink.msgs@.push(msg)
                }
            },
        }
    }
}

impl OpenStreamEnt {
    /// Deliver one inbound message to this open stream.
    ///
    /// Returns `Ok(true)` when the message ends the stream; see
    /// [`spec_deliver`] for the exact relation.  In particular a SENDME is
    /// fully absorbed here and never reaches the sink.
    pub fn deliver_msg(&mut self, cell_counts_toward_windows: bool, msg: AnyRelayMsg) -> (r: Result<
        bool,
    >)
        ensures
            spec_deliver(*old(self), cell_counts_toward_windows, msg, *final(self), r),
    {
        if matches!(msg.cmd(), RelayCmd::Sendme) {
            self.flow_ctrl.put_for_incoming_sendme()?;
            return Ok(false);
        }
        let status = self.cmd_checker.check_msg(&msg)?;
        let closes = matches!(status, StreamStatus::Closed);
        match self.sink.try_send(msg) {
            TrySendOutcome::Sent => Ok(closes),
            TrySendOutcome::Full => Err(Error::ExcessInboundCells),
            TrySendOutcome::Disconnected => {
                if cell_counts_toward_windows {
                    if self.dropped < u32::MAX {
                        self.dropped = self.dropped + 1;
                    }
                }
                Ok(closes)
            },
        }
    }
}

/// Which state the entry for a stream ID is in, if any.
#[derive(Clone, Copy, Debug, PartialEq, Eq, Structural)]
pub enum EntStatus {
    /// No entry exists for this ID.
    Missing,
    /// The stream is open in both directions.
    Open,
    /// We sent END and are waiting for the peer's.
    EndSent,
    /// The peer's END arrived and our side has not closed yet.
    EndReceived,
}

impl StreamMap {
    /// Which state the entry for `id` is in.
    pub fn ent_status(&self, id: StreamId) -> (r: EntStatus)
        requires
            self.wf(),
        ensures
            match r {
                EntStatus::Missing => {
                    &&& !self.contains_id(id)
                    &&& !self.has_open(id)
                    &&& !self.has_end_sent(id)
                    &&& !self.has_end_received(id)
                },
                EntStatus::Open => {
                    &&& self.contains_id(id)
                    &&& self.has_open(id)
                    &&& !self.has_end_sent(id)
                    &&& !self.has_end_received(id)
                },
                EntStatus::EndSent => {
                    &&& self.contains_id(id)
                    &&& !self.has_open(id)
                    &&& self.has_end_sent(id)
                    &&& !self.has_end_received(id)
                },
                EntStatus::EndReceived => {
                    &&& self.contains_id(id)
                    &&& !self.has_open(id)
                    &&& !self.has_end_sent(id)
                    &&& self.has_end_received(id)
                },
            },
    {
        match self.lookup(id) {
            None => EntStatus::Missing,
            Some(i) => {
                proof {
                    assert forall|k: int|
                        0 <= k < self.ents@.len() && (#[trigger] self.ents@[k]).id == id implies k
                        == i as int by {
                        lemma_id_index_unique(*self, id, i as int, k);
                    }
                }
                match &self.ents[i].ent {
                    StreamEnt::Open(_) => EntStatus::Open,
                    StreamEnt::EndSent(_) => EntStatus::EndSent,
                    StreamEnt::EndReceived => EntStatus::EndReceived,
                }
            },
        }
    }

    /// A shared view of the open entry for `id`, if the stream is open.
    pub fn open_ent(&self, id: StreamId) -> (r: Option<&OpenStreamEnt>)
        requires
            self.wf(),
        ensures
            match r {
                Some(o) => exists|i: int|
                    {
                        &&& 0 <= i < self.ents@.len()
                        &&& (#[trigger] self.ents@[i]).id == id
                        &&& self.ents@[i].ent matches StreamEnt::Open(o1) && *o == o1
                    },
                None => forall|i: int|
                    0 <= i < self.ents@.len() && (#[trigger] self.ents@[i]).id == id
                        ==> !(self.ents@[i].ent is Open),
            },
    {
        match self.lookup(id) {
            Some(i) => match &self.ents[i].ent {
                StreamEnt::Open(o) => Some(o),
                _ => None,
            },
            None => None,
        }
    }

    /// Deliver one inbound message to the open stream `id`.
    ///
    /// See [`spec_deliver`]; only the addressed entry changes.
    pub(crate) fn deliver_to_open(&mut self, id: StreamId, counts: bool, msg: AnyRelayMsg) -> (r:
        Result<bool>)
        requires
            old(self).wf(),
            exists|i: int|
                0 <= i < old(self).ents@.len() && (#[trigger] old(self).ents@[i]).id == id && old(
                    self,
                ).ents@[i].ent is Open,
        ensures
            final(self).wf(),
            final(self).next_id == old(self).next_id,
            final(self).rr_index == old(self).rr_index,
            final(self).has_open(id),
            final(self).contains_id(id),
            !final(self).has_end_received(id),
            exists|i: int|
                {
                    &&& 0 <= i < old(self).ents@.len()
                    &&& (#[trigger] old(self).ents@[i]).id == id
                    &&& old(self).ents@[i].ent matches StreamEnt::Open(o1)
                        && final(self).ents@ == old(self).ents@.update(
                        i,
                        StreamEntry { id, ent: StreamEnt::Open(final(self).ents@[i].ent->Open_0) },
                    ) && spec_deliver(o1, counts, msg, final(self).ents@[i].ent->Open_0, r)
                },
    {
        let i = match self.lookup(id) {
            Some(i) => i,
            None => {
                proof {
                    assert(false);
                }
                return Err(Error::StreamNotOpen);
            },
        };
        let ghost old_ents = self.ents@;
        proof {
            let w = choose|w: int|
                0 <= w < old_ents.len() && (#[trigger] old_ents[w]).id == id
                    && old_ents[w].ent is Open;
            assert(w == i as int);
        }
        let mut entry = self.ents.remove(i);
        let mut res: Result<bool> = Ok(false);
        if let StreamEnt::Open(o) = &mut entry.ent {
            res = o.deliver_msg(counts, msg);
        }
        self.ents.insert(i, entry);
        proof {
            let i_ = i as int;
            assert(final(self).ents@ =~= old_ents.update(
                i_,
                StreamEntry { id, ent: StreamEnt::Open(final(self).ents@[i_].ent->Open_0) },
            ));
            assert forall|a: int, b: int|
                0 <= a < b < final(self).ents@.len() implies final(self).ents@[a].id
                != final(self).ents@[b].id by {
                assert(final(self).ents@[a].id == old_ents[a].id);
                assert(final(self).ents@[b].id == old_ents[b].id);
            }
            assert(final(self).ents@[i_].ent is Open);
            assert forall|k: int|
                0 <= k < final(self).ents@.len() && (#[trigger] final(self).ents@[k]).id == id
                implies final(self).ents@[k].ent is Open by {
                lemma_id_index_unique(*final(self), id, i_, k);
            }
        }
        res
    }

    /// Deliver one inbound message to the half-closed stream `id`.
    ///
    /// See [`spec_half_handle`]; only the addressed entry changes.  A
    /// result of `Ok(Closed)` means the peer's END arrived and the caller
    /// should now tear the entry down with
    /// [`ending_msg_received`](Self::ending_msg_received).
    pub(crate) fn deliver_to_end_sent(&mut self, id: StreamId, msg: &AnyRelayMsg) -> (r: Result<
        StreamStatus,
    >)
        requires
            old(self).wf(),
            exists|i: int|
                0 <= i < old(self).ents@.len() && (#[trigger] old(self).ents@[i]).id == id && old(
                    self,
                ).ents@[i].ent is EndSent,
        ensures
            final(self).wf(),
            final(self).next_id == old(self).next_id,
            final(self).rr_index == old(self).rr_index,
            final(self).has_end_sent(id),
            final(self).contains_id(id),
            !final(self).has_end_received(id),
            exists|i: int|
                {
                    &&& 0 <= i < old(self).ents@.len()
                    &&& (#[trigger] old(self).ents@[i]).id == id
                    &&& old(self).ents@[i].ent matches StreamEnt::EndSent(e1)
                        && final(self).ents@ == old(self).ents@.update(
                        i,
                        StreamEntry {
                            id,
                            ent: StreamEnt::EndSent(
                                EndSentStreamEnt {
                                    half_stream: final(self).ents@[i].ent->EndSent_0.half_stream,
                                },
                            ),
                        },
                    ) && spec_half_handle(
                        e1.half_stream,
                        *msg,
                        final(self).ents@[i].ent->EndSent_0.half_stream,
                        r,
                    )
                },
    {
        let i = match self.lookup(id) {
            Some(i) => i,
            None => {
                proof {
                    assert(false);
                }
                return Err(Error::CellOnUnknownStream);
            },
        };
        let ghost old_ents = self.ents@;
        proof {
            let w = choose|w: int|
                0 <= w < old_ents.len() && (#[trigger] old_ents[w]).id == id
                    && old_ents[w].ent is EndSent;
            assert(w == i as int);
        }
        let mut entry = self.ents.remove(i);
        let mut res: Result<StreamStatus> = Ok(StreamStatus::Open);
        if let StreamEnt::EndSent(e) = &mut entry.ent {
            res = e.half_stream.handle_msg(msg);
        }
        self.ents.insert(i, entry);
        proof {
            let i_ = i as int;
            assert(final(self).ents@ =~= old_ents.update(
                i_,
                StreamEntry {
                    id,
                    ent: StreamEnt::EndSent(
                        EndSentStreamEnt {
                            half_stream: final(self).ents@[i_].ent->EndSent_0.half_stream,
                        },
                    ),
                },
            ));
            assert forall|a: int, b: int|
                0 <= a < b < final(self).ents@.len() implies final(self).ents@[a].id
                != final(self).ents@[b].id by {
                assert(final(self).ents@[a].id == old_ents[a].id);
                assert(final(self).ents@[b].id == old_ents[b].id);
            }
            assert(final(self).ents@[i_].ent is EndSent);
            assert forall|k: int|
                0 <= k < final(self).ents@.len() && (#[trigger] final(self).ents@[k]).id == id
                implies final(self).ents@[k].ent is EndSent by {
                lemma_id_index_unique(*final(self), id, i_, k);
            }
        }
        res
    }

    /// Take the stream-level send capacity needed to send `msg` on stream
    /// `id`, which must be open.
    pub fn take_capacity(&mut self, id: StreamId, msg: &AnyRelayMsg) -> (r: Result<()>)
        requires
            old(self).wf(),
        ensures
            final(self).wf(),
            final(self).next_id == old(self).next_id,
            final(self).rr_index == old(self).rr_index,
            if old(self).has_open(id) {
                exists|i: int|
                    {
                        &&& 0 <= i < old(self).ents@.len()
                        &&& (#[trigger] old(self).ents@[i]).id == id
                        &&& old(self).ents@[i].ent matches StreamEnt::Open(o1)
                            && final(self).ents@ == old(self).ents@.update(
                            i,
                            StreamEntry {
                                id,
                                ent: StreamEnt::Open(
                                    OpenStreamEnt {
                                        flow_ctrl: final(self).ents@[i].ent->Open_0.flow_ctrl,
                                        ..o1
                                    },
                                ),
                            },
                        ) && crate::flow::spec_take_capacity(
                            o1.flow_ctrl,
                            msg@,
                            final(self).ents@[i].ent->Open_0.flow_ctrl,
                            r,
                        )
                    }
            } else {
                r == Err::<(), Error>(Error::StreamNotOpen) && final(self).ents@ == old(
                    self,
                ).ents@
            },
    {
        let i = match self.lookup(id) {
            Some(i) => i,
            None => {
                return Err(Error::StreamNotOpen);
            },
        };
        let is_open = matches!(&self.ents[i].ent, StreamEnt::Open(_));
        if !is_open {
            proof {
                assert forall|w: int|
                    0 <= w < self.ents@.len() && (#[trigger] self.ents@[w]).id == id implies !(
                self.ents@[w].ent is Open) by {
                    assert(w == i as int);
                }
            }
            return Err(Error::StreamNotOpen);
        }
        let ghost old_ents = self.ents@;
        let mut entry = self.ents.remove(i);
        let mut res: Result<()> = Ok(());
        if let StreamEnt::Open(o) = &mut entry.ent {
            res = o.flow_ctrl.take_capacity_to_send(msg);
        }
        self.ents.insert(i, entry);
        proof {
            let i_ = i as int;
            let o1 = old_ents[i_].ent->Open_0;
            assert(final(self).ents@ =~= old_ents.update(
                i_,
                StreamEntry {
                    id,
                    ent: StreamEnt::Open(
                        OpenStreamEnt { flow_ctrl: final(self).ents@[i_].ent->Open_0.flow_ctrl, ..o1 },
                    ),
                },
            ));
            assert forall|a: int, b: int|
                0 <= a < b < final(self).ents@.len() implies final(self).ents@[a].id
                != final(self).ents@[b].id by {
                assert(final(self).ents@[a].id == old_ents[a].id);
                assert(final(self).ents@[b].id == old_ents[b].id);
            }
        }
        res
    }
}

/// Stream IDs are never reused while live: in a well-formed map any two
/// distinct entries carry different IDs, so an ID that currently names a
/// live stream cannot simultaneously name another.
pub proof fn lemma_live_ids_distinct(m: StreamMap, i: int, j: int)
    requires
        m.wf(),
        0 <= i < m.ents@.len(),
        0 <= j < m.ents@.len(),
        i != j,
    ensures
        m.ents@[i].id != m.ents@[j].id,
{
    if i < j {
        assert(m.ents@[i].id != m.ents@[j].id);
    } else {
        assert(m.ents@[j].id != m.ents@[i].id);
    }
}

/// The ID a well-formed map would allocate next never names a live entry:
/// together with [`lemma_live_ids_distinct`] and the `add_ent` contract,
/// an ID can never be reused while an entry for it still exists.
pub proof fn lemma_next_id_fresh(m: StreamMap)
    requires
        m.wf(),
        m.next_id < STREAM_ID_LIMIT,
    ensures
        !m.contains_id(StreamId(m.next_id as u16)),
{
    assert forall|i: int|
        0 <= i < m.ents@.len() implies (#[trigger] m.ents@[i]).id != StreamId(
        m.next_id as u16,
    ) by {
        assert(m.ents@[i].id.0 < m.next_id);
    }
}

/// A SENDME never reaches a stream's sink: delivering one leaves the sink
/// (and everything else except the flow-control window) exactly as it
/// was, and when it is accepted its whole effect is the window update.
pub proof fn lemma_sendme_never_reaches_sink(
    o1: OpenStreamEnt,
    counts: bool,
    msg: AnyRelayMsg,
    o2: OpenStreamEnt,
    r: Result<bool>,
)
    requires
        msg@.cmd() == RelayCmd::Sendme,
        spec_deliver(o1, counts, msg, o2, r),
    ensures
        o2.sink == o1.sink,
        o2.outbound == o1.outbound,
        o2.dropped == o1.dropped,
        o2.cmd_checker == o1.cmd_checker,
        o2.writer_done == o1.writer_done,
        r is Ok ==> (o1.flow_ctrl matches StreamSendFlowControl::WindowBased { window }
            && o2.flow_ctrl == (StreamSendFlowControl::WindowBased {
            window: (window + crate::flow::STREAM_SENDME_INCREMENT) as u16,
        })),
        r is Err ==> o2 == o1,
{
}

/// The starting configuration of the fairness theorem: every entry of the
/// map is an open stream holding exactly one queued message its flow
/// control lets it send, and no writer is done.
pub open spec fn all_single(m: StreamMap) -> bool {
    &&& m.wf()
    &&& forall|i: int|
        0 <= i < m.ents@.len() ==> {
            let e = #[trigger] m.ents@[i];
            &&& e.ent is Open
            &&& e.ent->Open_0.outbound@.len() == 1
            &&& e.ent->Open_0.flow_ctrl.spec_can_send(e.ent->Open_0.outbound@[0]@)
            &&& e.ent->Open_0.writer_done == false
        }
}

/// A partially drained configuration: `m1` is `m0` with exactly the
/// streams whose indices are in `served` drained of their one message.
pub open spec fn drained_except(m0: StreamMap, m1: StreamMap, served: Set<int>) -> bool {
    &&& m1.ents@.len() == m0.ents@.len()
    &&& m1.next_id == m0.next_id
    &&& m1.wf()
    &&& forall|i: int|
        0 <= i < m0.ents@.len() ==> {
            let e0 = m0.ents@[i];
            let e1 = #[trigger] m1.ents@[i];
            &&& e1.id == e0.id
            &&& e1.ent is Open
            &&& e1.ent->Open_0.flow_ctrl == e0.ent->Open_0.flow_ctrl
            &&& e1.ent->Open_0.writer_done == e0.ent->Open_0.writer_done
            &&& if served.contains(i) {
                e1.ent->Open_0.outbound@.len() == 0
            } else {
                e1.ent->Open_0.outbound@ == e0.ent->Open_0.outbound@
            }
        }
}

/// One scheduling step of the fairness theorem: when not every stream has
/// been served yet, the step serves exactly one stream that was not served
/// before, handing out that stream's single message.
proof fn lemma_fair_step(
    m0: StreamMap,
    m1: StreamMap,
    m2: StreamMap,
    r: Option<(StreamId, Option<AnyRelayMsg>)>,
    served: Set<int>,
)
    requires
        all_single(m0),
        drained_except(m0, m1, served),
        served.finite(),
        served.subset_of(vstd::set_lib::set_int_range(0, m0.ents@.len() as int)),
        served.len() < m0.ents@.len(),
        take_ready_post(m1, m2, r),
    ensures
        exists|j: int|
            {
                &&& 0 <= j < m0.ents@.len()
                &&& !served.contains(j)
                &&& r == Some(
                    (
                        (#[trigger] m0.ents@[j]).id,
                        Some(m0.ents@[j].ent->Open_0.outbound@[0]),
                    ),
                )
                &&& drained_except(m0, m2, served.insert(j))
            },
{
    let n = m0.ents@.len() as int;
    // Readiness in `m1` is exactly "not yet served".
    assert forall|i: int| 0 <= i < n implies spec_ready(m1.ents@[i]) == !served.contains(
        i,
    ) by {
        assert(m1.ents@[i].ent is Open);
    }
    // Some stream is still unserved, so the scan cannot come up empty.
    let range = vstd::set_lib::set_int_range(0, n);
    vstd::set_lib::lemma_int_range(0, n);
    assert(exists|i: int| 0 <= i < n && !served.contains(i)) by {
        if forall|i: int| 0 <= i < n ==> #[trigger] served.contains(i) {
            assert(range.subset_of(served));
            vstd::set_lib::lemma_len_subset(range, served);
            assert(false);
        }
    }
    let start = norm_start(m1);
    lemma_first_ready_in_range(m1.ents@, start, n);
    lemma_first_ready_in_range(m1.ents@, 0, start);
    let iw = choose|i: int| 0 <= i < n && !served.contains(i);
    assert(spec_ready(m1.ents@[iw]));
    match first_ready_from(m1.ents@, start) {
        None => {
            assert(false);
        },
        Some(j) => {
            assert(spec_ready(m1.ents@[j]));
            assert(!served.contains(j));
            assert(m1.ents@[j].ent->Open_0.outbound@ == m0.ents@[j].ent->Open_0.outbound@);
            assert(m1.ents@[j].ent->Open_0.outbound@.len() == 1);
            assert(r == Some(
                (m0.ents@[j].id, Some(m0.ents@[j].ent->Open_0.outbound@[0])),
            ));
            assert forall|i: int| 0 <= i < n implies {
                let e0 = m0.ents@[i];
                let e1 = #[trigger] m2.ents@[i];
                &&& e1.id == e0.id
                &&& e1.ent is Open
                &&& e1.ent->Open_0.flow_ctrl == e0.ent->Open_0.flow_ctrl
                &&& e1.ent->Open_0.writer_done == e0.ent->Open_0.writer_done
                &&& if served.insert(j).contains(i) {
                    e1.ent->Open_0.outbound@.len() == 0
                } else {
                    e1.ent->Open_0.outbound@ == e0.ent->Open_0.outbound@
                }
            } by {
                if i == j {
                    assert(m2.ents@[j].ent->Open_0.outbound@ == m1.ents@[
                        j
                    ].ent->Open_0.outbound@.drop_first());
                } else {
                    assert(m2.ents@[i] == m1.ents@[i]);
                }
            }
            assert(drained_except(m0, m2, served.insert(j)));
        },
    }
}

/// The served-index set after the first `k` scheduling passes, together
/// with everything the induction needs about it.
#[verifier::rlimit(100)]
proof fn lemma_fair_run(
    ms: Seq<StreamMap>,
    rs: Seq<Option<(StreamId, Option<AnyRelayMsg>)>>,
    k: int,
) -> (served: Set<int>)
    requires
        ms.len() == rs.len() + 1,
        rs.len() == ms[0].ents@.len(),
        all_single(ms[0]),
        forall|t: int| 0 <= t < rs.len() ==> take_ready_post(ms[t], ms[t + 1], #[trigger] rs[t]),
        0 <= k <= rs.len(),
    ensures
        served.finite(),
        served.len() == k,
        served.subset_of(vstd::set_lib::set_int_range(0, ms[0].ents@.len() as int)),
        drained_except(ms[0], ms[k], served),
        forall|t: int|
            0 <= t < k ==> exists|j: int|
                {
                    &&& 0 <= j < ms[0].ents@.len()
                    &&& served.contains(j)
                    &&& #[trigger] rs[t] == Some(
                        (ms[0].ents@[j].id, Some(ms[0].ents@[j].ent->Open_0.outbound@[0])),
                    )
                },
        forall|j: int|
            #[trigger] served.contains(j) ==> exists|t: int|
                0 <= t < k && rs[t] == Some(
                    (ms[0].ents@[j].id, Some(ms[0].ents@[j].ent->Open_0.outbound@[0])),
                ),
    decreases k,
{
    let n = ms[0].ents@.len() as int;
    if k == 0 {
        let served = Set::<int>::empty();
        assert(drained_except(ms[0], ms[0], served));
        served
    } else {
        let prev = lemma_fair_run(ms, rs, k - 1);
        lemma_fair_step(ms[0], ms[k - 1], ms[k], rs[k - 1], prev);
        let j = choose|j: int|
            {
                &&& 0 <= j < ms[0].ents@.len()
                &&& !prev.contains(j)
                &&& rs[k - 1] == Some(
                    (
                        (#[trigger] ms[0].ents@[j]).id,
                        Some(ms[0].ents@[j].ent->Open_0.outbound@[0]),
                    ),
                )
                &&& drained_except(ms[0], ms[k], prev.insert(j))
            };
        let served = prev.insert(j);
        assert(served.len() == k);
        assert(drained_except(ms[0], ms[k], served));
        vstd::set_lib::lemma_int_range(0, n);
        assert(served.subset_of(vstd::set_lib::set_int_range(0, n)));
        assert forall|t: int| 0 <= t < k implies exists|jj: int|
            {
                &&& 0 <= jj < ms[0].ents@.len()
                &&& served.contains(jj)
                &&& #[trigger] rs[t] == Some(
                    (ms[0].ents@[jj].id, Some(ms[0].ents@[jj].ent->Open_0.outbound@[0])),
                )
            } by {
            if t < k - 1 {
                let jt = choose|jj: int|
                    {
                        &&& 0 <= jj < ms[0].ents@.len()
                        &&& prev.contains(jj)
                        &&& #[trigger] rs[t] == Some(
                            (ms[0].ents@[jj].id, Some(ms[0].ents@[jj].ent->Open_0.outbound@[0])),
                        )
                    };
                assert(served.contains(jt));
                assert(rs[t] == Some(
                    (ms[0].ents@[jt].id, Some(ms[0].ents@[jt].ent->Open_0.outbound@[0])),
                ));
            } else {
                assert(served.contains(j));
                assert(rs[k - 1] == Some(
                    (ms[0].ents@[j].id, Some(ms[0].ents@[j].ent->Open_0.outbound@[0])),
                ));
            }
        }
        assert forall|jj: int| #[trigger] served.contains(jj) implies exists|t: int|
            0 <= t < k && rs[t] == Some(
                (ms[0].ents@[jj].id, Some(ms[0].ents@[jj].ent->Open_0.outbound@[0])),
            ) by {
            if jj == j {
                assert(0 <= k - 1 < k && rs[k - 1] == Some(
                    (ms[0].ents@[j].id, Some(ms[0].ents@[j].ent->Open_0.outbound@[0])),
                ));
            } else {
                assert(prev.contains(jj));
                let t0 = choose|t: int|
                    0 <= t < k - 1 && #[trigger] rs[t] == Some(
                        (ms[0].ents@[jj].id, Some(ms[0].ents@[jj].ent->Open_0.outbound@[0])),
                    );
                assert(0 <= t0 < k && rs[t0] == Some(
                    (ms[0].ents@[jj].id, Some(ms[0].ents@[jj].ent->Open_0.outbound@[0])),
                ));
            }
        }
        served
    }
}

/// No stream is served twice in the first `t2 + 1` passes: pass `t2`
/// serves a stream that still has its message, which a stream served
/// earlier no longer does.
#[verifier::spinoff_prover]
proof fn lemma_fair_no_repeat(
    ms: Seq<StreamMap>,
    rs: Seq<Option<(StreamId, Option<AnyRelayMsg>)>>,
    t1: int,
    t2: int,
)
    requires
        ms.len() == rs.len() + 1,
        rs.len() == ms[0].ents@.len(),
        all_single(ms[0]),
        forall|t: int| 0 <= t < rs.len() ==> take_ready_post(ms[t], ms[t + 1], #[trigger] rs[t]),
        0 <= t1 < t2 < rs.len(),
    ensures
        (rs[t1]->0).0 != (rs[t2]->0).0,
{
    let n = ms[0].ents@.len() as int;
    let s1 = lemma_fair_run(ms, rs, t2);
    lemma_fair_step(ms[0], ms[t2], ms[t2 + 1], rs[t2], s1);
    let j2 = choose|j: int|
        {
            &&& 0 <= j < ms[0].ents@.len()
            &&& !s1.contains(j)
            &&& rs[t2] == Some(
                ((#[trigger] ms[0].ents@[j]).id, Some(ms[0].ents@[j].ent->Open_0.outbound@[0])),
            )
            &&& drained_except(ms[0], ms[t2 + 1], s1.insert(j))
        };
    let j1 = choose|j: int|
        {
            &&& 0 <= j < ms[0].ents@.len()
            &&& s1.contains(j)
            &&& #[trigger] rs[t1] == Some(
                (ms[0].ents@[j].id, Some(ms[0].ents@[j].ent->Open_0.outbound@[0])),
            )
        };
    assert(j1 != j2);
    lemma_live_ids_distinct(ms[0], j1, j2);
}

/// Every stream is served within one pass per stream.
#[verifier::spinoff_prover]
proof fn lemma_fair_coverage(
    ms: Seq<StreamMap>,
    rs: Seq<Option<(StreamId, Option<AnyRelayMsg>)>>,
    j: int,
)
    requires
        ms.len() == rs.len() + 1,
        rs.len() == ms[0].ents@.len(),
        all_single(ms[0]),
        forall|t: int| 0 <= t < rs.len() ==> take_ready_post(ms[t], ms[t + 1], #[trigger] rs[t]),
        0 <= j < ms[0].ents@.len(),
    ensures
        stream_is_served(ms[0], rs, j),
{
    let n = ms[0].ents@.len() as int;
    let served = lemma_fair_run(ms, rs, n);
    let range = vstd::set_lib::set_int_range(0, n);
    vstd::set_lib::lemma_int_range(0, n);
    vstd::set_lib::lemma_subset_equality(served, range);
    assert(served =~= range);
    assert(served.contains(j));
    let t0 = choose|t: int|
        0 <= t < n && #[trigger] rs[t] == Some(
            (ms[0].ents@[j].id, Some(ms[0].ents@[j].ent->Open_0.outbound@[0])),
        );
    assert(0 <= t0 < rs.len() && rs[t0] == Some(
        (ms[0].ents@[j].id, Some(ms[0].ents@[j].ent->Open_0.outbound@[0])),
    ));
}



/// Pass `t` handed out the single queued message of some stream of the
/// starting map `m0`.
pub open spec fn pass_serves_some(
    m0: StreamMap,
    rs: Seq<Option<(StreamId, Option<AnyRelayMsg>)>>,
    t: int,
) -> bool {
    exists|j: int|
        #![trigger m0.ents@[j]]
        {
            &&& 0 <= j < m0.ents@.len()
            &&& rs[t] == Some((m0.ents@[j].id, Some(m0.ents@[j].ent->Open_0.outbound@[0])))
        }
}

/// Some pass among the first `n` handed out the single queued message of
/// stream `j` of the starting map `m0`.
pub open spec fn stream_is_served(
    m0: StreamMap,
    rs: Seq<Option<(StreamId, Option<AnyRelayMsg>)>>,
    j: int,
) -> bool {
    exists|t: int|
        #![trigger rs[t]]
        {
            &&& 0 <= t < rs.len()
            &&& rs[t] == Some((m0.ents@[j].id, Some(m0.ents@[j].ent->Open_0.outbound@[0])))
        }
}

/// Pass `t` of a fair run serves some stream's single message.
#[verifier::spinoff_prover]
proof fn lemma_fair_serves(
    ms: Seq<StreamMap>,
    rs: Seq<Option<(StreamId, Option<AnyRelayMsg>)>>,
    t: int,
)
    requires
        ms.len() == rs.len() + 1,
        rs.len() == ms[0].ents@.len(),
        all_single(ms[0]),
        forall|tt: int|
            0 <= tt < rs.len() ==> take_ready_post(ms[tt], ms[tt + 1], #[trigger] rs[tt]),
        0 <= t < rs.len(),
    ensures
        pass_serves_some(ms[0], rs, t),
{
    let served = lemma_fair_run(ms, rs, rs.len() as int);
    let jt = choose|j: int|
        {
            &&& 0 <= j < ms[0].ents@.len()
            &&& served.contains(j)
            &&& #[trigger] rs[t] == Some(
                (ms[0].ents@[j].id, Some(ms[0].ents@[j].ent->Open_0.outbound@[0])),
            )
        };
    assert(0 <= jt < ms[0].ents@.len());
    assert(rs[t] == Some((ms[0].ents@[jt].id, Some(ms[0].ents@[jt].ent->Open_0.outbound@[0]))));
}

/// Round-robin fairness.  Start one scheduling pass per stream from a map
/// where every stream holds exactly one sendable message.  Then every pass
/// hands out exactly one stream's message, no stream is served twice, and
/// every stream is served: all streams are covered before any could
/// repeat, so none starves.
///
/// `ms` are the successive map states (`ms[0]` first) and `rs[t]` is what
/// the pass from `ms[t]` to `ms[t + 1]` returned.
#[verifier::rlimit(100)]
#[verifier::spinoff_prover]
pub proof fn lemma_round_robin_fairness(
    ms: Seq<StreamMap>,
    rs: Seq<Option<(StreamId, Option<AnyRelayMsg>)>>,
)
    requires
        ms.len() == rs.len() + 1,
        rs.len() == ms[0].ents@.len(),
        all_single(ms[0]),
        forall|t: int| 0 <= t < rs.len() ==> take_ready_post(ms[t], ms[t + 1], #[trigger] rs[t]),
    ensures
        forall|t: int| #![trigger rs[t]] 0 <= t < rs.len() ==> pass_serves_some(ms[0], rs, t),
        forall|t1: int, t2: int|
            #![trigger rs[t1], rs[t2]]
            0 <= t1 < t2 < rs.len() ==> (rs[t1]->0).0 != (rs[t2]->0).0,
        forall|j: int|
            #![trigger ms[0].ents@[j]]
            0 <= j < ms[0].ents@.len() ==> stream_is_served(ms[0], rs, j),
{
    assert forall|t: int| #![trigger rs[t]] 0 <= t < rs.len() implies pass_serves_some(
        ms[0],
        rs,
        t,
    ) by {
        lemma_fair_serves(ms, rs, t);
    }
    assert forall|t1: int, t2: int|
        #![trigger rs[t1], rs[t2]]
        0 <= t1 < t2 < rs.len() implies (rs[t1]->0).0 != (rs[t2]->0).0 by {
        lemma_fair_no_repeat(ms, rs, t1, t2);
    }
    assert forall|j: int|
        #![trigger ms[0].ents@[j]]
        0 <= j < ms[0].ents@.len() implies stream_is_served(ms[0], rs, j) by {
        lemma_fair_coverage(ms, rs, j);
    }
}

} // verus!

