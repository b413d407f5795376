//! Tests for the client-side conflux link state machine.

use conflux_mux::{
    AnyRelayMsg, CircuitCmd, ClientConfluxMsgHandler, ConfluxStatus, DynTimeProvider, Error,
    ErrorKind, HopNum, V1Nonce, LINK_TIMEOUT_MILLIS,
};

fn handler_at(now_millis: u64) -> ClientConfluxMsgHandler {
    ClientConfluxMsgHandler::new(HopNum(2), V1Nonce(0x1234), DynTimeProvider::fixed(now_millis))
}

#[test]
fn conflux_starts_unlinked() {
    let h = handler_at(1_000);
    assert_eq!(h.status(), ConfluxStatus::Unlinked);
    assert_eq!(h.init_rtt(), None);
    assert_eq!(h.handshake_timeout(), None);
    assert_eq!(h.last_seq_recv(), 0);
    assert_eq!(h.last_seq_sent(), 0);
}

#[test]
fn conflux_link_sent_moves_to_pending() {
    let mut h = handler_at(1_000);
    assert!(h.note_link_sent(500).is_ok());
    assert_eq!(h.status(), ConfluxStatus::Pending);
    assert_eq!(h.handshake_timeout(), Some(500 + LINK_TIMEOUT_MILLIS));
}

#[test]
fn conflux_duplicate_link_is_internal_error() {
    let mut h = handler_at(1_000);
    assert!(h.note_link_sent(500).is_ok());
    let e = h.note_link_sent(600).unwrap_err();
    assert_eq!(e, Error::DuplicateLinkSent);
    assert_eq!(e.kind(), ErrorKind::Internal);
    // The failed call left the handler as it was.
    assert_eq!(h.status(), ConfluxStatus::Pending);
    assert_eq!(h.handshake_timeout(), Some(500 + LINK_TIMEOUT_MILLIS));
}

#[test]
fn conflux_linked_success_links_and_measures_rtt() {
    let mut h = handler_at(1_000);
    h.note_link_sent(400).unwrap();
    let cmd = h
        .handle_conflux_linked(AnyRelayMsg::ConfluxLinked(V1Nonce(0x1234)), HopNum(2))
        .unwrap();
    assert_eq!(h.status(), ConfluxStatus::Linked);
    assert_eq!(h.init_rtt(), Some(600));
    match cmd {
        Some(CircuitCmd::ConfluxHandshakeComplete(cell)) => {
            assert_eq!(cell.hop, HopNum(2));
            assert!(!cell.early);
            assert_eq!(cell.cell.stream_id, None);
            assert_eq!(cell.cell.msg, AnyRelayMsg::ConfluxLinkedAck);
        },
        other => panic!("expected a handshake-complete command, got {other:?}"),
    }
}

#[test]
fn conflux_linked_with_clock_gone_backward_still_links() {
    // The wall clock read 100 although LINK was sent at 400: the RTT falls
    // back to the largest measurable value instead of failing the circuit.
    let mut h = handler_at(100);
    h.note_link_sent(400).unwrap();
    h.handle_conflux_linked(AnyRelayMsg::ConfluxLinked(V1Nonce(0x1234)), HopNum(2))
        .unwrap();
    assert_eq!(h.status(), ConfluxStatus::Linked);
    assert_eq!(h.init_rtt(), Some(u64::MAX));
}

#[test]
fn conflux_linked_nonce_mismatch_is_rejected_and_state_kept() {
    let mut h = handler_at(1_000);
    h.note_link_sent(400).unwrap();
    let e = h
        .handle_conflux_linked(AnyRelayMsg::ConfluxLinked(V1Nonce(0x9999)), HopNum(2))
        .unwrap_err();
    assert_eq!(e, Error::LinkedNonceMismatch);
    assert_eq!(e.kind(), ErrorKind::ProtocolViolation);
    // State stays AwaitingLink: the handshake is not silently completed.
    assert_eq!(h.status(), ConfluxStatus::Pending);
    assert_eq!(h.init_rtt(), None);
}

#[test]
fn conflux_linked_before_link_is_rejected() {
    let mut h = handler_at(1_000);
    let e = h
        .handle_conflux_linked(AnyRelayMsg::ConfluxLinked(V1Nonce(0x1234)), HopNum(2))
        .unwrap_err();
    assert_eq!(e, Error::LinkedBeforeLink);
    assert_eq!(h.status(), ConfluxStatus::Unlinked);
}

#[test]
fn conflux_linked_twice_is_rejected() {
    let mut h = handler_at(1_000);
    h.note_link_sent(400).unwrap();
    h.handle_conflux_linked(AnyRelayMsg::ConfluxLinked(V1Nonce(0x1234)), HopNum(2))
        .unwrap();
    let e = h
        .handle_conflux_linked(AnyRelayMsg::ConfluxLinked(V1Nonce(0x1234)), HopNum(2))
        .unwrap_err();
    assert_eq!(e, Error::LinkedWhenLinked);
    assert_eq!(h.status(), ConfluxStatus::Linked);
}

#[test]
fn conflux_link_and_linked_ack_always_rejected_on_client() {
    // Whatever the state, a client must never accept LINK or LINKED_ACK.
    for stage in 0..3 {
        let mut h = handler_at(1_000);
        if stage >= 1 {
            h.note_link_sent(400).unwrap();
        }
        if stage >= 2 {
            h.handle_conflux_linked(AnyRelayMsg::ConfluxLinked(V1Nonce(0x1234)), HopNum(2))
                .unwrap();
        }
        let status_before = h.status();
        let e1 = h
            .handle_conflux_link(AnyRelayMsg::ConfluxLink(V1Nonce(0x1234)), HopNum(2))
            .unwrap_err();
        assert_eq!(e1, Error::UnexpectedConfluxCell);
        let e2 = h
            .handle_conflux_linked_ack(AnyRelayMsg::ConfluxLinkedAck, HopNum(2))
            .unwrap_err();
        assert_eq!(e2, Error::UnexpectedConfluxCell);
        assert_eq!(e1.kind(), ErrorKind::ProtocolViolation);
        assert_eq!(h.status(), status_before);
    }
}

#[test]
fn conflux_switch_zero_seqno_always_errors() {
    // Unlinked leg: errors (as switch on an unlinked circuit).
    let mut h = handler_at(1_000);
    assert!(h
        .handle_conflux_switch(AnyRelayMsg::ConfluxSwitch(0), HopNum(2))
        .is_err());
    assert_eq!(h.last_seq_recv(), 0);

    // Linked leg: a zero delta is itself suspicious and rejected.
    let mut h = handler_at(1_000);
    h.note_link_sent(400).unwrap();
    h.handle_conflux_linked(AnyRelayMsg::ConfluxLinked(V1Nonce(0x1234)), HopNum(2))
        .unwrap();
    let e = h
        .handle_conflux_switch(AnyRelayMsg::ConfluxSwitch(0), HopNum(2))
        .unwrap_err();
    assert_eq!(e, Error::ZeroSeqnoSwitch);
    assert_eq!(h.last_seq_recv(), 0);
}

#[test]
fn conflux_switch_advances_recv_seqno_by_delta() {
    let mut h = handler_at(1_000);
    h.note_link_sent(400).unwrap();
    h.handle_conflux_linked(AnyRelayMsg::ConfluxLinked(V1Nonce(0x1234)), HopNum(2))
        .unwrap();
    assert_eq!(
        h.handle_conflux_switch(AnyRelayMsg::ConfluxSwitch(7), HopNum(2))
            .unwrap(),
        None
    );
    // The counter grows by exactly the delta: the SWITCH cell itself is
    // out-of-band and adds nothing.
    assert_eq!(h.last_seq_recv(), 7);
    h.handle_conflux_switch(AnyRelayMsg::ConfluxSwitch(3), HopNum(2))
        .unwrap();
    assert_eq!(h.last_seq_recv(), 10);
}

#[test]
fn conflux_switch_on_unlinked_leg_is_rejected() {
    let mut h = handler_at(1_000);
    let e = h
        .handle_conflux_switch(AnyRelayMsg::ConfluxSwitch(5), HopNum(2))
        .unwrap_err();
    assert_eq!(e, Error::SwitchOnUnlinkedCircuit);
    assert_eq!(h.last_seq_recv(), 0);
}

#[test]
fn conflux_sequence_counters_increment_separately() {
    let mut h = handler_at(1_000);
    h.inc_last_seq_recv();
    h.inc_last_seq_recv();
    h.inc_last_seq_sent();
    assert_eq!(h.last_seq_recv(), 2);
    assert_eq!(h.last_seq_sent(), 1);
}

#[test]
fn conflux_cells_from_wrong_hop_are_rejected() {
    let h = handler_at(1_000);
    let msg = AnyRelayMsg::ConfluxLinked(V1Nonce(0x1234));
    assert!(h.validate_source_hop(&msg, HopNum(2)).is_ok());
    let e = h.validate_source_hop(&msg, HopNum(1)).unwrap_err();
    assert_eq!(e, Error::ConfluxCellFromWrongHop);
}

#[test]
fn conflux_dispatch_routes_by_command() {
    let mut h = handler_at(1_000);
    h.note_link_sent(400).unwrap();
    // Dispatch of LINKED behaves like the direct handler.
    let r = h.handle_msg(AnyRelayMsg::ConfluxLinked(V1Nonce(0x1234)), HopNum(2));
    assert!(r.is_ok());
    assert_eq!(h.status(), ConfluxStatus::Linked);
    // A non-conflux cell in the conflux handler is a local bug.
    let e = h.handle_msg(AnyRelayMsg::Sendme, HopNum(2)).unwrap_err();
    assert_eq!(e, Error::NonConfluxCellInHandler);
    assert_eq!(e.kind(), ErrorKind::Internal);
}
