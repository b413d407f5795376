//! Relay messages and relay-cell decoding.
//!
//! A relay cell is the fixed-size unit carried inside a circuit.  The
//! cryptographic layers below this crate decrypt and authenticate the cell;
//! this module only interprets the plaintext body: a command byte, a stream
//! ID, and a command-specific payload.
//!
//! The body layout handled here is the classic fixed-size one:
//!
//! ```text
//! command    1 byte
//! recognized 2 bytes   (checked by the crypto layer, ignored here)
//! stream id  2 bytes   (0 means "no stream": a circuit-level message)
//! digest     4 bytes   (checked by the crypto layer, ignored here)
//! length     2 bytes
//! payload    `length` bytes, then padding up to the fixed cell size
//! ```

use vstd::prelude::*;

use crate::err::{Error, Result};

verus! {

/// Length of a relay cell body, in bytes.
pub const CELL_BODY_LEN: usize = 509;

/// Maximum number of payload bytes in one relay cell body.
pub const CELL_DATA_LEN: usize = 498;

/// The END reason used when the closer gives no more specific one.
pub const END_REASON_MISC: u8 = 1;

/// The identifier of a stream within one hop.
///
/// Zero is never a valid stream ID on the wire: it marks circuit-level
/// messages.  The stream map only ever holds non-zero IDs.
#[derive(Clone, Copy, Debug, PartialEq, Eq, Structural)]
pub struct StreamId(pub u16);

/// The position of a hop within a circuit: 0 is the first relay.
#[derive(Clone, Copy, Debug, PartialEq, Eq, Structural)]
pub struct HopNum(pub u8);

/// The 128-bit nonce that proves ownership of a conflux circuit set.
#[derive(Clone, Copy, Debug, PartialEq, Eq, Structural)]
pub struct V1Nonce(pub u128);

/// The command of a relay message.
#[derive(Clone, Copy, Debug, PartialEq, Eq, Structural)]
pub enum RelayCmd {
    /// Open a new stream to a target address.
    Begin,
    /// Stream data.
    Data,
    /// Close a stream.
    End,
    /// A stream request succeeded.
    Connected,
    /// Flow-control acknowledgment.
    Sendme,
    /// Resolve a hostname.
    Resolve,
    /// Open a new stream to the relay's own directory port.
    BeginDir,
    /// Link this leg into a conflux set.
    ConfluxLink,
    /// Acknowledge a CONFLUX_LINK.
    ConfluxLinked,
    /// Acknowledge a CONFLUX_LINKED.
    ConfluxLinkedAck,
    /// Switch which conflux leg carries traffic.
    ConfluxSwitch,
}

impl RelayCmd {
    /// True for the commands that open a new incoming stream request.
    pub open spec fn spec_is_stream_request(self) -> bool {
        self == RelayCmd::Begin || self == RelayCmd::BeginDir || self == RelayCmd::Resolve
    }

    /// True for the commands that open a new incoming stream request
    /// (BEGIN, BEGIN_DIR and RESOLVE).
    pub fn is_stream_request(self) -> (r: bool)
        ensures
            r == self.spec_is_stream_request(),
    {
        match self {
            RelayCmd::Begin | RelayCmd::BeginDir | RelayCmd::Resolve => true,
            _ => false,
        }
    }

    /// True for the commands that count toward flow-control windows.
    pub open spec fn spec_counts_toward_windows(self) -> bool {
        self == RelayCmd::Data
    }

    /// True for the commands that count toward flow-control windows:
    /// only DATA does.
    pub fn counts_toward_windows(self) -> (r: bool)
        ensures
            r == self.spec_counts_toward_windows(),
    {
        match self {
            RelayCmd::Data => true,
            _ => false,
        }
    }
}

/// The specification-level value of a relay message: the command together
/// with the payload fields this crate interprets.
pub enum RelayMsgRepr {
    /// BEGIN request.
    Begin,
    /// Stream data bytes.
    Data(Seq<u8>),
    /// Stream end, with its reason byte.
    End(u8),
    /// Stream request succeeded.
    Connected,
    /// Flow-control acknowledgment.
    Sendme,
    /// Hostname resolution request.
    Resolve,
    /// BEGIN_DIR request.
    BeginDir,
    /// Conflux link request carrying the set's nonce.
    ConfluxLink(u128),
    /// Conflux link acknowledgment carrying the set's nonce.
    ConfluxLinked(u128),
    /// Conflux linked acknowledgment.
    ConfluxLinkedAck,
    /// Conflux leg switch carrying a relative sequence number.
    ConfluxSwitch(u32),
}

/// A relay message, as delivered to or produced by the multiplexer.
///
/// The cryptographic layer hands the reactor raw cell bodies; the reactor
/// decodes them into this type with [`RelayCellDecoder::decode`] before
/// handing them to a hop.
#[derive(Clone, Debug, PartialEq, Eq)]
pub enum AnyRelayMsg {
    /// BEGIN request.
    Begin,
    /// Stream data bytes.
    Data(Vec<u8>),
    /// Stream end, with its reason byte.
    End(u8),
    /// Stream request succeeded.
    Connected,
    /// Flow-control acknowledgment.
    Sendme,
    /// Hostname resolution request.
    Resolve,
    /// BEGIN_DIR request.
    BeginDir,
    /// Conflux link request carrying the set's nonce.
    ConfluxLink(V1Nonce),
    /// Conflux link acknowledgment carrying the set's nonce.
    ConfluxLinked(V1Nonce),
    /// Conflux linked acknowledgment.
    ConfluxLinkedAck,
    /// Conflux leg switch carrying a relative sequence number.
    ConfluxSwitch(u32),
}

impl View for AnyRelayMsg {
    type V = RelayMsgRepr;

    open spec fn view(&self) -> RelayMsgRepr {
        match self {
            AnyRelayMsg::Begin => RelayMsgRepr::Begin,
            AnyRelayMsg::Data(d) => RelayMsgRepr::Data(d@),
            AnyRelayMsg::End(r) => RelayMsgRepr::End(*r),
            AnyRelayMsg::Connected => RelayMsgRepr::Connected,
            AnyRelayMsg::Sendme => RelayMsgRepr::Sendme,
            AnyRelayMsg::Resolve => RelayMsgRepr::Resolve,
            AnyRelayMsg::BeginDir => RelayMsgRepr::BeginDir,
            AnyRelayMsg::ConfluxLink(n) => RelayMsgRepr::ConfluxLink(n.0),
            AnyRelayMsg::ConfluxLinked(n) => RelayMsgRepr::ConfluxLinked(n.0),
            AnyRelayMsg::ConfluxLinkedAck => RelayMsgRepr::ConfluxLinkedAck,
            AnyRelayMsg::ConfluxSwitch(s) => RelayMsgRepr::ConfluxSwitch(*s),
        }
    }
}

impl RelayMsgRepr {
    /// The command of a specification-level message.
    pub open spec fn cmd(self) -> RelayCmd {
        match self {
            RelayMsgRepr::Begin => RelayCmd::Begin,
            RelayMsgRepr::Data(_) => RelayCmd::Data,
            RelayMsgRepr::End(_) => RelayCmd::End,
            RelayMsgRepr::Connected => RelayCmd::Connected,
            RelayMsgRepr::Sendme => RelayCmd::Sendme,
            RelayMsgRepr::Resolve => RelayCmd::Resolve,
            RelayMsgRepr::BeginDir => RelayCmd::BeginDir,
            RelayMsgRepr::ConfluxLink(_) => RelayCmd::ConfluxLink,
            RelayMsgRepr::ConfluxLinked(_) => RelayCmd::ConfluxLinked,
            RelayMsgRepr::ConfluxLinkedAck => RelayCmd::ConfluxLinkedAck,
            RelayMsgRepr::ConfluxSwitch(_) => RelayCmd::ConfluxSwitch,
        }
    }
}

impl AnyRelayMsg {
    /// The command of this message.
    pub fn cmd(&self) -> (c: RelayCmd)
        ensures
            c == self@.cmd(),
    {
        match self {
            AnyRelayMsg::Begin => RelayCmd::Begin,
            AnyRelayMsg::Data(_) => RelayCmd::Data,
            AnyRelayMsg::End(_) => RelayCmd::End,
            AnyRelayMsg::Connected => RelayCmd::Connected,
            AnyRelayMsg::Sendme => RelayCmd::Sendme,
            AnyRelayMsg::Resolve => RelayCmd::Resolve,
            AnyRelayMsg::BeginDir => RelayCmd::BeginDir,
            AnyRelayMsg::ConfluxLink(_) => RelayCmd::ConfluxLink,
            AnyRelayMsg::ConfluxLinked(_) => RelayCmd::ConfluxLinked,
            AnyRelayMsg::ConfluxLinkedAck => RelayCmd::ConfluxLinkedAck,
            AnyRelayMsg::ConfluxSwitch(_) => RelayCmd::ConfluxSwitch,
        }
    }
}

/// A relay message together with the stream it is addressed to
/// (`None` for circuit-level messages).
#[derive(Clone, Debug, PartialEq, Eq)]
pub struct AnyRelayMsgOuter {
    /// The stream this message belongs to, if any.
    pub stream_id: Option<StreamId>,
    /// The message itself.
    pub msg: AnyRelayMsg,
}

impl AnyRelayMsgOuter {
    /// Wrap `msg` as a message addressed to `stream_id`.
    pub fn new(stream_id: Option<StreamId>, msg: AnyRelayMsg) -> (r: Self)
        ensures
            r.stream_id == stream_id,
            r.msg == msg,
    {
        AnyRelayMsgOuter { stream_id, msg }
    }
}

/// The wire format used for relay cells on one hop.
#[derive(Clone, Copy, Debug, PartialEq, Eq, Structural)]
pub enum RelayCellFormat {
    /// The classic fixed-size format: one message per cell.
    V0,
}

/// The big-endian value of the two bytes of `s` starting at `i`.
pub open spec fn spec_u16_be(s: Seq<u8>, i: int) -> int {
    s[i] * 256 + s[i + 1]
}

/// The big-endian value of the four bytes of `s` starting at `i`.
pub open spec fn spec_u32_be(s: Seq<u8>, i: int) -> int {
    ((s[i] * 256 + s[i + 1]) * 256 + s[i + 2]) * 256 + s[i + 3]
}

/// The big-endian value of the eight bytes of `s` starting at `i`.
pub open spec fn spec_u64_be(s: Seq<u8>, i: int) -> int {
    ((((((s[i]
        * 256 + s[i + 1])
        * 256 + s[i + 2])
        * 256 + s[i + 3])
        * 256 + s[i + 4])
        * 256 + s[i + 5])
        * 256 + s[i + 6])
        * 256 + s[i + 7]
}

/// The big-endian value of the sixteen bytes of `s` starting at `i`.
pub open spec fn spec_u128_be(s: Seq<u8>, i: int) -> int {
    spec_u64_be(s, i) * 0x1_0000_0000_0000_0000 + spec_u64_be(s, i + 8)
}

/// The message encoded by command byte `cmd` and payload `data`, or `None`
/// if the command is not one this crate interprets or the payload is too
/// short for it.
pub open spec fn spec_msg_of(cmd: u8, data: Seq<u8>) -> Option<RelayMsgRepr> {
    if cmd == 1 {
        Some(RelayMsgRepr::Begin)
    } else if cmd == 2 {
        Some(RelayMsgRepr::Data(data))
    } else if cmd == 3 {
        Some(RelayMsgRepr::End(if data.len() == 0 { END_REASON_MISC } else { data[0] }))
    } else if cmd == 4 {
        Some(RelayMsgRepr::Connected)
    } else if cmd == 5 {
        Some(RelayMsgRepr::Sendme)
    } else if cmd == 11 {
        Some(RelayMsgRepr::Resolve)
    } else if cmd == 13 {
        Some(RelayMsgRepr::BeginDir)
    } else if cmd == 19 {
        if data.len() >= 17 && data[0] == 1 {
            Some(RelayMsgRepr::ConfluxLink(spec_u128_be(data, 1) as u128))
        } else {
            None
        }
    } else if cmd == 20 {
        if data.len() >= 17 && data[0] == 1 {
            Some(RelayMsgRepr::ConfluxLinked(spec_u128_be(data, 1) as u128))
        } else {
            None
        }
    } else if cmd == 21 {
        Some(RelayMsgRepr::ConfluxLinkedAck)
    } else if cmd == 22 {
        if data.len() >= 4 {
            Some(RelayMsgRepr::ConfluxSwitch(spec_u32_be(data, 0) as u32))
        } else {
            None
        }
    } else {
        None
    }
}

/// Whether a message with command `cmd` may carry stream ID `sid`.
///
/// Stream-level commands need a non-zero ID; conflux control cells are
/// circuit-level and must carry zero; SENDME exists at both levels.
pub open spec fn spec_streamid_ok(cmd: RelayCmd, sid: int) -> bool {
    match cmd {
        RelayCmd::Sendme => true,
        RelayCmd::ConfluxLink
        | RelayCmd::ConfluxLinked
        | RelayCmd::ConfluxLinkedAck
        | RelayCmd::ConfluxSwitch => sid == 0,
        _ => sid != 0,
    }
}

/// The result of decoding a relay cell body `s`: the addressed stream (if
/// any) and the specification-level message, or the error the decoder
/// reports.
pub open spec fn spec_decode_body(s: Seq<u8>) -> Result<(Option<u16>, RelayMsgRepr)> {
    if s.len() != CELL_BODY_LEN {
        Err(Error::InvalidRelayCell)
    } else {
        let sid = spec_u16_be(s, 3);
        let len = spec_u16_be(s, 9);
        if len > CELL_DATA_LEN {
            Err(Error::InvalidRelayCell)
        } else {
            match spec_msg_of(s[0], s.subrange(11, 11 + len)) {
                Some(m) => {
                    if spec_streamid_ok(m.cmd(), sid) {
                        Ok(((if sid == 0 { None } else { Some(sid as u16) }), m))
                    } else {
                        Err(Error::InvalidRelayCell)
                    }
                },
                None => Err(Error::InvalidRelayCell),
            }
        }
    }
}

/// Read the big-endian `u16` at offset `i` of `b`.
fn read_u16_be(b: &Vec<u8>, i: usize) -> (r: u16)
    requires
        i + 2 <= b.len(),
    ensures
        r == spec_u16_be(b@, i as int),
{
    (b[i] as u16) * 256 + (b[i + 1] as u16)
}

/// Read the big-endian `u32` at offset `i` of `b`.
fn read_u32_be(b: &Vec<u8>, i: usize) -> (r: u32)
    requires
        i + 4 <= b.len(),
    ensures
        r == spec_u32_be(b@, i as int),
{
    (((b[i] as u32) * 256 + (b[i + 1] as u32)) * 256 + (b[i + 2] as u32)) * 256 + (b[i + 3] as u32)
}

/// Read the big-endian `u64` at offset `i` of `b`.
fn read_u64_be(b: &Vec<u8>, i: usize) -> (r: u64)
    requires
        i + 8 <= b.len(),
    ensures
        r == spec_u64_be(b@, i as int),
{
    let mut r: u64 = b[i] as u64;
    r = r * 256 + (b[i + 1] as u64);
    r = r * 256 + (b[i + 2] as u64);
    r = r * 256 + (b[i + 3] as u64);
    r = r * 256 + (b[i + 4] as u64);
    r = r * 256 + (b[i + 5] as u64);
    r = r * 256 + (b[i + 6] as u64);
    r = r * 256 + (b[i + 7] as u64);
    r
}

/// Read the big-endian `u128` at offset `i` of `b`.
fn read_u128_be(b: &Vec<u8>, i: usize) -> (r: u128)
    requires
        i + 16 <= b.len(),
    ensures
        r == spec_u128_be(b@, i as int),
{
    let hi = read_u64_be(b, i);
    let lo = read_u64_be(b, i + 8);
    (hi as u128) * 0x1_0000_0000_0000_0000 + (lo as u128)
}

/// Copy `len` bytes of `b` starting at offset `start` into a new vector.
fn copy_payload(b: &Vec<u8>, start: usize, len: usize) -> (r: Vec<u8>)
    requires
        start + len <= b.len(),
    ensures
        r@ == b@.subrange(start as int, start as int + len as int),
{
    let mut out: Vec<u8> = Vec::new();
    let mut j: usize = 0;
    while j < len
        invariant
            j <= len,
            start + len <= b.len(),
            out@ =~= b@.subrange(start as int, start as int + j as int),
        decreases len - j,
    {
        out.push(b[start + j]);
        proof {
            assert(out@ =~= b@.subrange(start as int, start as int + (j + 1) as int));
        }
        j += 1;
    }
    proof {
        assert(out@ =~= b@.subrange(start as int, start as int + len as int));
    }
    out
}

/// The result of feeding one cell body to a [`RelayCellDecoder`]: the
/// complete messages the body yielded.
///
/// With the [`RelayCellFormat::V0`] format a body always yields exactly one
/// message; the vector form leaves room for packed or fragmented formats.
#[derive(Clone, Debug, PartialEq, Eq)]
pub struct RelayCellDecoderResult {
    /// The decoded messages, in the order they appeared.
    pub msgs: Vec<AnyRelayMsgOuter>,
}

/// Decodes raw relay-cell bodies received from one hop.
///
/// The decoder owns whatever state a stateful format would need to carry
/// between cells; the V0 format needs none.
pub struct RelayCellDecoder {
    /// The format this decoder parses.
    pub format: RelayCellFormat,
}

impl RelayCellDecoder {
    /// Create a new decoder for the given format.
    pub fn new(format: RelayCellFormat) -> (r: Self)
        ensures
            r.format == format,
    {
        RelayCellDecoder { format }
    }

    /// The format this decoder parses.
    pub fn format(&self) -> (r: RelayCellFormat)
        ensures
            r == self.format,
    {
        self.format
    }

    /// Decode one relay cell body.
    ///
    /// The cryptographic checks (recognized and digest fields) must already
    /// have been performed by the layer below; this only interprets the
    /// plaintext structure.
    pub fn decode(&mut self, body: &Vec<u8>) -> (r: Result<RelayCellDecoderResult>)
        ensures
            *final(self) == *old(self),
            match spec_decode_body(body@) {
                Ok((sid, m)) => {
                    &&& r matches Ok(d)
                    &&& d.msgs@.len() == 1
                    &&& d.msgs@[0].stream_id == (match sid {
                        Some(v) => Some(StreamId(v)),
                        None => None::<StreamId>,
                    })
                    &&& d.msgs@[0].msg@ == m
                },
                Err(e) => r matches Err(e2) && e2 == e,
            },
    {
        if body.len() != CELL_BODY_LEN {
            return Err(Error::InvalidRelayCell);
        }
        let cmd: u8 = body[0];
        let sid_raw: u16 = read_u16_be(body, 3);
        let len: u16 = read_u16_be(body, 9);
        if len as usize > CELL_DATA_LEN {
            return Err(Error::InvalidRelayCell);
        }
        let ghost data_spec: Seq<u8> = body@.subrange(11, 11 + len as int);
        let msg: AnyRelayMsg = if cmd == 1 {
            AnyRelayMsg::Begin
        } else if cmd == 2 {
            AnyRelayMsg::Data(copy_payload(body, 11, len as usize))
        } else if cmd == 3 {
            if len == 0 {
                AnyRelayMsg::End(END_REASON_MISC)
            } else {
                AnyRelayMsg::End(body[11])
            }
        } else if cmd == 4 {
            AnyRelayMsg::Connected
        } else if cmd == 5 {
            AnyRelayMsg::Sendme
        } else if cmd == 11 {
            AnyRelayMsg::Resolve
        } else if cmd == 13 {
            AnyRelayMsg::BeginDir
        } else if cmd == 19 || cmd == 20 {
            if len >= 17 && body[11] == 1 {
                let nonce = V1Nonce(read_u128_be(body, 12));
                proof {
                    assert(spec_u64_be(body@, 12) == spec_u64_be(data_spec, 1));
                    assert(spec_u64_be(body@, 20) == spec_u64_be(data_spec, 9));
                }
                if cmd == 19 {
                    AnyRelayMsg::ConfluxLink(nonce)
                } else {
                    AnyRelayMsg::ConfluxLinked(nonce)
                }
            } else {
                return Err(Error::InvalidRelayCell);
            }
        } else if cmd == 21 {
            AnyRelayMsg::ConfluxLinkedAck
        } else if cmd == 22 {
            if len >= 4 {
                let seqno = read_u32_be(body, 11);
                proof {
                    assert(spec_u32_be(body@, 11) == spec_u32_be(data_spec, 0));
                }
                AnyRelayMsg::ConfluxSwitch(seqno)
            } else {
                return Err(Error::InvalidRelayCell);
            }
        } else {
            return Err(Error::InvalidRelayCell);
        };
        let stream_id = if sid_raw == 0 {
            None
        } else {
            Some(StreamId(sid_raw))
        };
        let ok = match msg.cmd() {
            RelayCmd::Sendme => true,
            RelayCmd::ConfluxLink
            | RelayCmd::ConfluxLinked
            | RelayCmd::ConfluxLinkedAck
            | RelayCmd::ConfluxSwitch => sid_raw == 0,
            _ => sid_raw != 0,
        };
        if !ok {
            return Err(Error::InvalidRelayCell);
        }
        let mut msgs: Vec<AnyRelayMsgOuter> = Vec::new();
        msgs.push(AnyRelayMsgOuter { stream_id, msg });
        Ok(RelayCellDecoderResult { msgs })
    }
}

} // verus!
