//! Tests for one hop's stream lifecycle and inbound message handling.

use conflux_mux::{
    AnyRelayMsg, CircHop, CloseStreamBehavior, CmdChecker, CongestionControlSettings, Error,
    ErrorKind, HopNum, RelayCellFormat, StreamId, StreamMap, StreamSendFlowControl, StreamSink,
    TerminateReason, STREAM_SENDME_INCREMENT, STREAM_SEND_WINDOW_INIT,
};

fn new_hop() -> CircHop {
    CircHop::new(
        7,
        HopNum(1),
        RelayCellFormat::V0,
        &CongestionControlSettings::sendme_window(),
    )
}

fn open_stream(hop: &mut CircHop) -> StreamId {
    let (_cell, id) = hop
        .begin_stream(AnyRelayMsg::Begin, StreamSink::new(16), CmdChecker::DataStream)
        .unwrap();
    id
}

#[test]
fn begin_stream_builds_the_opening_cell() {
    let mut hop = new_hop();
    let (cell, id) = hop
        .begin_stream(AnyRelayMsg::Begin, StreamSink::new(16), CmdChecker::DataStream)
        .unwrap();
    assert_eq!(cell.hop, HopNum(1));
    assert!(!cell.early);
    assert_eq!(cell.cell.stream_id, Some(id));
    assert_eq!(cell.cell.msg, AnyRelayMsg::Begin);
    assert_eq!(hop.n_open_streams(), 1);
}

#[test]
fn stream_ids_are_never_reused() {
    // Open and close streams in every order: every ID handed out is new.
    let mut hop = new_hop();
    let mut seen: Vec<StreamId> = Vec::new();
    let a = open_stream(&mut hop);
    let b = open_stream(&mut hop);
    seen.push(a);
    seen.push(b);
    hop.close_stream(a, CloseStreamBehavior::SendNothing, TerminateReason::ExplicitEnd)
        .unwrap();
    for _ in 0..5 {
        let id = open_stream(&mut hop);
        assert!(!seen.contains(&id), "stream ID {id:?} was reused");
        seen.push(id);
    }
    assert_eq!(hop.n_open_streams(), 6);
}

#[test]
fn sendme_is_absorbed_and_updates_the_window() {
    // A stream-level SENDME must never reach the sink; its whole effect is
    // on the flow-control window.
    let mut hop = new_hop();
    let id = open_stream(&mut hop);
    // Use up some window so a SENDME is legal.
    for _ in 0..STREAM_SENDME_INCREMENT {
        hop.take_capacity_to_send(id, &AnyRelayMsg::Data(vec![0]))
            .unwrap();
    }
    let before = match hop.map.open_ent(id).unwrap().flow_ctrl {
        StreamSendFlowControl::WindowBased { window } => window,
        other => panic!("expected a window-based stream, got {other:?}"),
    };
    assert_eq!(before, STREAM_SEND_WINDOW_INIT - STREAM_SENDME_INCREMENT);

    assert_eq!(hop.handle_msg(false, id, AnyRelayMsg::Sendme).unwrap(), None);

    let ent = hop.map.open_ent(id).unwrap();
    assert_eq!(ent.sink.msgs.len(), 0, "the SENDME reached the sink");
    match ent.flow_ctrl {
        StreamSendFlowControl::WindowBased { window } => {
            assert_eq!(window, before + STREAM_SENDME_INCREMENT);
        },
        other => panic!("expected a window-based stream, got {other:?}"),
    }
}

#[test]
fn sendme_then_data_only_data_reaches_the_sink() {
    // Scenario: one open stream; a SENDME then an ordinary data message.
    let mut hop = new_hop();
    let id = open_stream(&mut hop);
    hop.take_capacity_to_send(id, &AnyRelayMsg::Data(vec![9]))
        .unwrap();
    for _ in 1..STREAM_SENDME_INCREMENT {
        hop.take_capacity_to_send(id, &AnyRelayMsg::Data(vec![0]))
            .unwrap();
    }

    assert_eq!(hop.handle_msg(false, id, AnyRelayMsg::Sendme).unwrap(), None);
    assert_eq!(
        hop.handle_msg(true, id, AnyRelayMsg::Data(vec![1, 2, 3])).unwrap(),
        None
    );

    let ent = hop.map.open_ent(id).unwrap();
    // The data message was delivered, the SENDME was not.
    assert_eq!(ent.sink.msgs, vec![AnyRelayMsg::Data(vec![1, 2, 3])]);
    // And the window reflects exactly one SENDME update.
    match ent.flow_ctrl {
        StreamSendFlowControl::WindowBased { window } => {
            assert_eq!(window, STREAM_SEND_WINDOW_INIT);
        },
        other => panic!("expected a window-based stream, got {other:?}"),
    }
}

#[test]
fn excess_sendme_is_a_protocol_violation() {
    // With a full window, any further SENDME over-acknowledges.
    let mut hop = new_hop();
    let id = open_stream(&mut hop);
    let e = hop.handle_msg(false, id, AnyRelayMsg::Sendme).unwrap_err();
    assert_eq!(e, Error::ExcessSendme);
    assert_eq!(e.kind(), ErrorKind::ProtocolViolation);
}

#[test]
fn full_sink_is_a_protocol_violation() {
    let mut hop = new_hop();
    let (_cell, id) = hop
        .begin_stream(AnyRelayMsg::Begin, StreamSink::new(1), CmdChecker::DataStream)
        .unwrap();
    assert!(hop.handle_msg(true, id, AnyRelayMsg::Data(vec![1])).is_ok());
    let e = hop
        .handle_msg(true, id, AnyRelayMsg::Data(vec![2]))
        .unwrap_err();
    assert_eq!(e, Error::ExcessInboundCells);
    assert_eq!(e.kind(), ErrorKind::ProtocolViolation);
}

#[test]
fn disconnected_sink_counts_dropped_cells() {
    let mut hop = new_hop();
    let mut sink = StreamSink::new(8);
    sink.disconnect();
    let (_cell, id) = hop
        .begin_stream(AnyRelayMsg::Begin, sink, CmdChecker::DataStream)
        .unwrap();
    assert_eq!(hop.handle_msg(true, id, AnyRelayMsg::Data(vec![1])).unwrap(), None);
    assert_eq!(hop.handle_msg(true, id, AnyRelayMsg::Data(vec![2])).unwrap(), None);
    let ent = hop.map.open_ent(id).unwrap();
    assert_eq!(ent.dropped, 2);
    assert_eq!(ent.sink.msgs.len(), 0);
}

#[test]
fn end_message_closes_the_stream() {
    let mut hop = new_hop();
    let id = open_stream(&mut hop);
    assert_eq!(hop.handle_msg(true, id, AnyRelayMsg::End(1)).unwrap(), None);
    assert_eq!(hop.n_open_streams(), 0);
    // Anything after the peer's END on that stream is a violation.
    let e = hop
        .handle_msg(true, id, AnyRelayMsg::Data(vec![1]))
        .unwrap_err();
    assert_eq!(e, Error::CellOnUnknownStream);
}

#[test]
fn close_stream_after_peer_end_sends_nothing() {
    // Scenario: the peer's END already arrived, so closing our side owes
    // no END cell.
    let mut hop = new_hop();
    let id = open_stream(&mut hop);
    hop.handle_msg(true, id, AnyRelayMsg::End(1)).unwrap();
    let out = hop
        .close_stream(
            id,
            CloseStreamBehavior::SendEnd(4),
            TerminateReason::ExplicitEnd,
        )
        .unwrap();
    assert_eq!(out, None);
}

#[test]
fn close_stream_without_peer_end_sends_end_with_reason() {
    let mut hop = new_hop();
    let id = open_stream(&mut hop);
    let out = hop
        .close_stream(
            id,
            CloseStreamBehavior::SendEnd(4),
            TerminateReason::ExplicitEnd,
        )
        .unwrap()
        .unwrap();
    assert_eq!(out.hop, HopNum(1));
    assert_eq!(out.cell.stream_id, Some(id));
    assert_eq!(out.cell.msg, AnyRelayMsg::End(4));
    assert_eq!(hop.n_open_streams(), 0);
}

#[test]
fn close_stream_quietly_sends_nothing() {
    let mut hop = new_hop();
    let id = open_stream(&mut hop);
    let out = hop
        .close_stream(id, CloseStreamBehavior::SendNothing, TerminateReason::ExplicitEnd)
        .unwrap();
    assert_eq!(out, None);
}

#[test]
fn close_unknown_stream_is_an_internal_error() {
    let mut hop = new_hop();
    let e = hop
        .close_stream(
            StreamId(99),
            CloseStreamBehavior::SendNothing,
            TerminateReason::ExplicitEnd,
        )
        .unwrap_err();
    assert_eq!(e, Error::TerminateUnknownStream);
    assert_eq!(e.kind(), ErrorKind::Internal);
}

#[test]
fn half_closed_stream_absorbs_late_messages_until_end() {
    let mut hop = new_hop();
    let id = open_stream(&mut hop);
    hop.close_stream(id, CloseStreamBehavior::SendEnd(1), TerminateReason::ExplicitEnd)
        .unwrap();
    // Late data on the half-closed stream is absorbed.
    assert_eq!(hop.handle_msg(true, id, AnyRelayMsg::Data(vec![1])).unwrap(), None);
    // The peer's END finally tears the entry down.
    assert_eq!(hop.handle_msg(true, id, AnyRelayMsg::End(1)).unwrap(), None);
    let e = hop
        .handle_msg(true, id, AnyRelayMsg::Data(vec![1]))
        .unwrap_err();
    assert_eq!(e, Error::CellOnUnknownStream);
}

#[test]
fn begin_on_half_closed_stream_is_handed_back() {
    // A fresh stream request on an ID whose END we sent replaces the old
    // entry and is handed back for first-class handling.
    let mut hop = new_hop();
    let id = open_stream(&mut hop);
    hop.close_stream(id, CloseStreamBehavior::SendEnd(1), TerminateReason::ExplicitEnd)
        .unwrap();
    let back = hop.handle_msg(false, id, AnyRelayMsg::Begin).unwrap();
    assert_eq!(back, Some(AnyRelayMsg::Begin));
    // The old entry is gone: the ID can now carry the fresh request.
    assert!(hop.add_ent_with_id(StreamSink::new(8), id, CmdChecker::DataStream).is_ok());
}

#[test]
fn stream_request_for_unknown_id_is_handed_back() {
    let mut hop = new_hop();
    let back = hop.handle_msg(false, StreamId(9), AnyRelayMsg::Begin).unwrap();
    assert_eq!(back, Some(AnyRelayMsg::Begin));
    let back = hop
        .handle_msg(false, StreamId(9), AnyRelayMsg::BeginDir)
        .unwrap();
    assert_eq!(back, Some(AnyRelayMsg::BeginDir));
}

#[test]
fn non_request_for_unknown_id_is_a_protocol_violation() {
    let mut hop = new_hop();
    let e = hop
        .handle_msg(true, StreamId(9), AnyRelayMsg::Data(vec![1]))
        .unwrap_err();
    assert_eq!(e, Error::CellOnUnknownStream);
    assert_eq!(e.kind(), ErrorKind::ProtocolViolation);
}

#[test]
fn add_ent_with_id_rejects_zero_and_duplicates() {
    let mut hop = new_hop();
    assert_eq!(
        hop.add_ent_with_id(StreamSink::new(8), StreamId(0), CmdChecker::DataStream),
        Err(Error::ZeroStreamId)
    );
    assert!(hop
        .add_ent_with_id(StreamSink::new(8), StreamId(40), CmdChecker::DataStream)
        .is_ok());
    assert_eq!(
        hop.add_ent_with_id(StreamSink::new(8), StreamId(40), CmdChecker::DataStream),
        Err(Error::StreamIdInUse)
    );
    // Locally allocated IDs steer around the peer's choice.
    let fresh = open_stream(&mut hop);
    assert_ne!(fresh, StreamId(40));
}

#[test]
fn take_capacity_spends_the_stream_window() {
    let mut hop = new_hop();
    let id = open_stream(&mut hop);
    hop.take_capacity_to_send(id, &AnyRelayMsg::Data(vec![1]))
        .unwrap();
    match hop.map.open_ent(id).unwrap().flow_ctrl {
        StreamSendFlowControl::WindowBased { window } => {
            assert_eq!(window, STREAM_SEND_WINDOW_INIT - 1);
        },
        other => panic!("expected a window-based stream, got {other:?}"),
    }
    // An END does not count toward the window.
    hop.take_capacity_to_send(id, &AnyRelayMsg::End(1)).unwrap();
    match hop.map.open_ent(id).unwrap().flow_ctrl {
        StreamSendFlowControl::WindowBased { window } => {
            assert_eq!(window, STREAM_SEND_WINDOW_INIT - 1);
        },
        other => panic!("expected a window-based stream, got {other:?}"),
    }
    let e = hop
        .take_capacity_to_send(StreamId(99), &AnyRelayMsg::Data(vec![1]))
        .unwrap_err();
    assert_eq!(e, Error::StreamNotOpen);
}

#[test]
fn set_stream_map_refuses_live_streams() {
    let mut hop = new_hop();
    let _id = open_stream(&mut hop);
    let e = hop.set_stream_map(StreamMap::new()).unwrap_err();
    assert_eq!(e, Error::DiscardedOpenStreams);
    assert_eq!(e.kind(), ErrorKind::Internal);
    assert_eq!(hop.n_open_streams(), 1);

    let mut empty_hop = new_hop();
    assert!(empty_hop.set_stream_map(StreamMap::new()).is_ok());
}
