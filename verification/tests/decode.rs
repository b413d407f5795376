//! Tests for relay-cell body decoding.

use conflux_mux::{
    AnyRelayMsg, CircHop, CmdChecker, CongestionControlSettings, Error, HopNum, RelayCellFormat,
    StreamId, StreamSink, V1Nonce, CELL_BODY_LEN, END_REASON_MISC,
};

/// Build a relay cell body: command, stream ID, and payload, zero-padded
/// to the fixed cell size.
fn body(cmd: u8, stream_id: u16, payload: &[u8]) -> Vec<u8> {
    let mut b = vec![0u8; CELL_BODY_LEN];
    b[0] = cmd;
    // bytes 1..3: recognized (zero); 3..5: stream id; 5..9: digest (zero).
    b[3] = (stream_id >> 8) as u8;
    b[4] = (stream_id & 0xff) as u8;
    let len = payload.len() as u16;
    b[9] = (len >> 8) as u8;
    b[10] = (len & 0xff) as u8;
    b[11..11 + payload.len()].copy_from_slice(payload);
    b
}

fn new_hop() -> CircHop {
    CircHop::new(
        1,
        HopNum(0),
        RelayCellFormat::V0,
        &CongestionControlSettings::sendme_window(),
    )
}

#[test]
fn decode_data_cell() {
    let mut hop = new_hop();
    let d = hop.decode(&body(2, 5, &[10, 20, 30])).unwrap();
    assert_eq!(d.msgs.len(), 1);
    assert_eq!(d.msgs[0].stream_id, Some(StreamId(5)));
    assert_eq!(d.msgs[0].msg, AnyRelayMsg::Data(vec![10, 20, 30]));
}

#[test]
fn decode_end_cell_with_reason() {
    let mut hop = new_hop();
    let d = hop.decode(&body(3, 5, &[6])).unwrap();
    assert_eq!(d.msgs[0].msg, AnyRelayMsg::End(6));
    // An END with an empty payload defaults to the miscellaneous reason.
    let d = hop.decode(&body(3, 5, &[])).unwrap();
    assert_eq!(d.msgs[0].msg, AnyRelayMsg::End(END_REASON_MISC));
}

#[test]
fn decode_sendme_cell_at_both_levels() {
    let mut hop = new_hop();
    // Stream-level SENDME.
    let d = hop.decode(&body(5, 5, &[])).unwrap();
    assert_eq!(d.msgs[0].stream_id, Some(StreamId(5)));
    assert_eq!(d.msgs[0].msg, AnyRelayMsg::Sendme);
    // Circuit-level SENDME.
    let d = hop.decode(&body(5, 0, &[])).unwrap();
    assert_eq!(d.msgs[0].stream_id, None);
}

#[test]
fn decode_begin_variants() {
    let mut hop = new_hop();
    assert_eq!(hop.decode(&body(1, 9, b"example:80\0")).unwrap().msgs[0].msg, AnyRelayMsg::Begin);
    assert_eq!(hop.decode(&body(13, 9, &[])).unwrap().msgs[0].msg, AnyRelayMsg::BeginDir);
    assert_eq!(hop.decode(&body(11, 9, b"example\0")).unwrap().msgs[0].msg, AnyRelayMsg::Resolve);
    assert_eq!(hop.decode(&body(4, 9, &[0, 0, 0, 0])).unwrap().msgs[0].msg, AnyRelayMsg::Connected);
}

#[test]
fn decode_conflux_linked_extracts_the_nonce() {
    let mut hop = new_hop();
    let mut payload = vec![1u8];  // version
    payload.extend_from_slice(&[
        0x00, 0x11, 0x22, 0x33, 0x44, 0x55, 0x66, 0x77, 0x88, 0x99, 0xaa, 0xbb, 0xcc, 0xdd, 0xee,
        0xff,
    ]);
    let d = hop.decode(&body(20, 0, &payload)).unwrap();
    assert_eq!(d.msgs[0].stream_id, None);
    assert_eq!(
        d.msgs[0].msg,
        AnyRelayMsg::ConfluxLinked(V1Nonce(0x00112233_44556677_8899aabb_ccddeeffu128))
    );
    // CONFLUX_LINK carries the same payload shape.
    let d = hop.decode(&body(19, 0, &payload)).unwrap();
    assert!(matches!(d.msgs[0].msg, AnyRelayMsg::ConfluxLink(_)));
}

#[test]
fn decode_conflux_switch_extracts_the_seqno() {
    let mut hop = new_hop();
    let d = hop.decode(&body(22, 0, &[0, 0, 1, 2])).unwrap();
    assert_eq!(d.msgs[0].msg, AnyRelayMsg::ConfluxSwitch(258));
    assert_eq!(hop.decode(&body(21, 0, &[])).unwrap().msgs[0].msg, AnyRelayMsg::ConfluxLinkedAck);
}

#[test]
fn decode_rejects_malformed_cells() {
    let mut hop = new_hop();
    // Wrong body size.
    assert_eq!(hop.decode(&vec![0u8; 100]).unwrap_err(), Error::InvalidRelayCell);
    // Payload length field larger than a cell can carry.
    let mut b = body(2, 5, &[1]);
    b[9] = 0xff;
    b[10] = 0xff;
    assert_eq!(hop.decode(&b).unwrap_err(), Error::InvalidRelayCell);
    // Unknown command.
    assert_eq!(hop.decode(&body(99, 5, &[])).unwrap_err(), Error::InvalidRelayCell);
    // A conflux cell must be circuit-level (stream ID zero).
    let mut payload = vec![1u8];
    payload.extend_from_slice(&[0u8; 16]);
    assert_eq!(hop.decode(&body(20, 7, &payload)).unwrap_err(), Error::InvalidRelayCell);
    // A data cell must carry a non-zero stream ID.
    assert_eq!(hop.decode(&body(2, 0, &[1])).unwrap_err(), Error::InvalidRelayCell);
    // A conflux link payload too short for its nonce.
    assert_eq!(hop.decode(&body(20, 0, &[1, 2, 3])).unwrap_err(), Error::InvalidRelayCell);
    // A switch payload too short for its sequence number.
    assert_eq!(hop.decode(&body(22, 0, &[1])).unwrap_err(), Error::InvalidRelayCell);
}

#[test]
fn decoded_messages_flow_into_handle_msg() {
    // End to end: raw body in, message dispatched to the stream.
    let mut hop = new_hop();
    let (_cell, id) = hop
        .begin_stream(AnyRelayMsg::Begin, StreamSink::new(8), CmdChecker::DataStream)
        .unwrap();
    let d = hop.decode(&body(2, id.0, &[42])).unwrap();
    let outer = d.msgs.into_iter().next().unwrap();
    assert_eq!(outer.stream_id, Some(id));
    assert_eq!(hop.handle_msg(true, id, outer.msg).unwrap(), None);
    assert_eq!(hop.map.open_ent(id).unwrap().sink.msgs, vec![AnyRelayMsg::Data(vec![42])]);
}
