//! Tests for the circuit-wide scheduling pass and its fairness.

use conflux_mux::{
    AnyRelayMsg, CircHop, CircHopList, CircuitCmd, CmdChecker, CongestionControlSettings, Error,
    HopNum, RelayCellFormat, StreamId, StreamSink, TerminateReason, CIRCUIT_SENDME_INCREMENT,
    CIRCUIT_SEND_WINDOW_INIT, STREAM_SEND_WINDOW_INIT,
};

fn hop_with_settings(settings: &CongestionControlSettings) -> CircHop {
    CircHop::new(1, HopNum(0), RelayCellFormat::V0, settings)
}

fn open_stream(hop: &mut CircHop) -> StreamId {
    let (_cell, id) = hop
        .begin_stream(AnyRelayMsg::Begin, StreamSink::new(16), CmdChecker::DataStream)
        .unwrap();
    id
}

#[test]
fn round_robin_covers_every_stream_before_any_repeat() {
    // N streams, each with one pending message: N passes dequeue N
    // distinct streams, covering all of them.
    let mut hop = hop_with_settings(&CongestionControlSettings::sendme_window());
    let mut ids = Vec::new();
    for k in 0..3u8 {
        let id = open_stream(&mut hop);
        hop.map.queue_outbound(id, AnyRelayMsg::Data(vec![k])).unwrap();
        ids.push(id);
    }
    let mut list = CircHopList::default();
    list.push(hop);

    let mut served: Vec<StreamId> = Vec::new();
    for _ in 0..3 {
        let cmds = list.ready_streams_pass();
        assert_eq!(cmds.len(), 1, "one hop contributes at most one command");
        match &cmds[0] {
            CircuitCmd::Send(cell) => {
                assert_eq!(cell.hop, HopNum(0));
                let sid = cell.cell.stream_id.unwrap();
                assert!(!served.contains(&sid), "stream {sid:?} served twice");
                served.push(sid);
            },
            other => panic!("expected a send command, got {other:?}"),
        }
    }
    served.sort_by_key(|s| s.0);
    assert_eq!(served, ids);
    // Everything is drained: a fourth pass finds nothing.
    assert_eq!(list.ready_streams_pass().len(), 0);
}

#[test]
fn exhausted_congestion_window_contributes_nothing() {
    let mut hop = hop_with_settings(&CongestionControlSettings::congestion_window(0));
    let id = open_stream(&mut hop);
    hop.map.queue_outbound(id, AnyRelayMsg::Data(vec![1])).unwrap();
    let mut list = CircHopList::default();
    list.push(hop);
    // The hop's window is exhausted, so the pass skips it entirely.
    assert_eq!(list.ready_streams_pass().len(), 0);
}

#[test]
fn drained_stream_with_closed_writer_asks_to_be_closed() {
    let mut hop = hop_with_settings(&CongestionControlSettings::sendme_window());
    let id = open_stream(&mut hop);
    hop.map.close_writer(id).unwrap();
    let mut list = CircHopList::default();
    list.push(hop);
    let cmds = list.ready_streams_pass();
    assert_eq!(cmds.len(), 1);
    match &cmds[0] {
        CircuitCmd::CloseStream { hop, sid, reason, .. } => {
            assert_eq!(*hop, HopNum(0));
            assert_eq!(*sid, id);
            assert_eq!(*reason, TerminateReason::StreamTargetClosed);
        },
        other => panic!("expected a close command, got {other:?}"),
    }
}

#[test]
fn writer_messages_drain_before_the_close_marker() {
    let mut hop = hop_with_settings(&CongestionControlSettings::sendme_window());
    let id = open_stream(&mut hop);
    hop.map.queue_outbound(id, AnyRelayMsg::Data(vec![1])).unwrap();
    hop.map.close_writer(id).unwrap();
    let mut list = CircHopList::default();
    list.push(hop);
    let first = list.ready_streams_pass();
    assert!(matches!(&first[0], CircuitCmd::Send(_)));
    let second = list.ready_streams_pass();
    assert!(matches!(&second[0], CircuitCmd::CloseStream { .. }));
}

#[test]
fn each_pass_takes_at_most_one_item_per_hop() {
    let mut list = CircHopList::default();
    for hop_idx in 0..2u64 {
        let mut hop = hop_with_settings(&CongestionControlSettings::sendme_window());
        let id = open_stream(&mut hop);
        hop.map
            .queue_outbound(id, AnyRelayMsg::Data(vec![hop_idx as u8]))
            .unwrap();
        hop.map
            .queue_outbound(id, AnyRelayMsg::Data(vec![hop_idx as u8, 1]))
            .unwrap();
        list.push(hop);
    }
    let cmds = list.ready_streams_pass();
    assert_eq!(cmds.len(), 2);
    let hops: Vec<HopNum> = cmds
        .iter()
        .map(|c| match c {
            CircuitCmd::Send(cell) => cell.hop,
            other => panic!("expected a send command, got {other:?}"),
        })
        .collect();
    assert_eq!(hops, vec![HopNum(0), HopNum(1)]);
}

#[test]
fn hop_list_basics() {
    let mut list = CircHopList::default();
    assert!(list.is_empty());
    assert_eq!(list.len(), 0);
    assert!(list.hop(HopNum(0)).is_none());
    assert!(!list.has_streams());

    list.push(hop_with_settings(&CongestionControlSettings::sendme_window()));
    list.push(hop_with_settings(&CongestionControlSettings::sendme_window()));
    assert!(!list.is_empty());
    assert_eq!(list.len(), 2);
    assert!(list.hop(HopNum(1)).is_some());
    assert!(list.hop(HopNum(2)).is_none());
    assert_eq!(list.n_open_streams(), 0);

    let hop = list.get_mut(HopNum(1)).unwrap();
    let _id = open_stream(hop);
    assert!(list.has_streams());
    assert_eq!(list.n_open_streams(), 1);
}

#[test]
fn circuit_sendme_refills_the_hop_window() {
    let mut hop = hop_with_settings(&CongestionControlSettings::sendme_window());
    assert_eq!(hop.send_window(), CIRCUIT_SEND_WINDOW_INIT);
    // With a full window, a SENDME over-acknowledges.
    assert_eq!(hop.ccontrol_mut().note_sendme_received(), Err(Error::ExcessSendme));
    for _ in 0..CIRCUIT_SENDME_INCREMENT {
        hop.ccontrol_mut().note_data_sent();
    }
    assert_eq!(hop.send_window(), CIRCUIT_SEND_WINDOW_INIT - CIRCUIT_SENDME_INCREMENT);
    assert!(hop.ccontrol_mut().note_sendme_received().is_ok());
    assert_eq!(hop.send_window(), CIRCUIT_SEND_WINDOW_INIT);
}

#[test]
fn round_robin_alternates_between_streams() {
    // Two streams with two messages each: passes alternate a, b, a, b
    // rather than draining one stream first.
    let mut hop = hop_with_settings(&CongestionControlSettings::sendme_window());
    let a = open_stream(&mut hop);
    let b = open_stream(&mut hop);
    for k in 0..2u8 {
        hop.map.queue_outbound(a, AnyRelayMsg::Data(vec![b'a', k])).unwrap();
        hop.map.queue_outbound(b, AnyRelayMsg::Data(vec![b'b', k])).unwrap();
    }
    let mut list = CircHopList::default();
    list.push(hop);
    let mut order = Vec::new();
    for _ in 0..4 {
        match &list.ready_streams_pass()[0] {
            CircuitCmd::Send(cell) => order.push(cell.cell.stream_id.unwrap()),
            other => panic!("expected a send command, got {other:?}"),
        }
    }
    assert_eq!(order, vec![a, b, a, b]);
}

#[test]
fn stream_blocked_by_its_window_is_skipped() {
    // A stream whose own send window is empty is passed over in favour of
    // one that can send.
    let mut hop = hop_with_settings(&CongestionControlSettings::sendme_window());
    let a = open_stream(&mut hop);
    let b = open_stream(&mut hop);
    for _ in 0..STREAM_SEND_WINDOW_INIT {
        hop.take_capacity_to_send(a, &AnyRelayMsg::Data(vec![0])).unwrap();
    }
    hop.map.queue_outbound(a, AnyRelayMsg::Data(vec![1])).unwrap();
    hop.map.queue_outbound(b, AnyRelayMsg::Data(vec![2])).unwrap();
    let mut list = CircHopList::default();
    list.push(hop);
    match &list.ready_streams_pass()[0] {
        CircuitCmd::Send(cell) => assert_eq!(cell.cell.stream_id, Some(b)),
        other => panic!("expected a send command, got {other:?}"),
    }
    // Stream a stays blocked, so nothing further is ready.
    assert_eq!(list.ready_streams_pass().len(), 0);
}

#[test]
fn queue_outbound_needs_an_open_stream() {
    let mut hop = hop_with_settings(&CongestionControlSettings::sendme_window());
    assert_eq!(
        hop.map.queue_outbound(StreamId(9), AnyRelayMsg::Data(vec![1])),
        Err(Error::StreamNotOpen)
    );
    assert_eq!(hop.map.close_writer(StreamId(9)), Err(Error::StreamNotOpen));
}

#[test]
fn sink_hands_messages_to_the_consumer_in_order() {
    let mut sink = StreamSink::new(4);
    assert_eq!(sink.take_next(), None);
    sink.try_send(AnyRelayMsg::Data(vec![1]));
    sink.try_send(AnyRelayMsg::Data(vec![2]));
    assert_eq!(sink.len(), 2);
    assert_eq!(sink.take_next(), Some(AnyRelayMsg::Data(vec![1])));
    assert_eq!(sink.take_next(), Some(AnyRelayMsg::Data(vec![2])));
    assert_eq!(sink.take_next(), None);
}
