//! Data-plane core of an onion-routing circuit: the per-circuit stream
//! multiplexer with flow-control accounting, and the client-side "conflux"
//! link state machine that merges several circuit legs into one tunnel.
//!
//! The crate is organised leaf-first: relay messages and relay-cell
//! decoding ([`AnyRelayMsg`], [`RelayCellFormat`]); flow-control and
//! congestion accounting ([`CongestionControl`],
//! [`StreamSendFlowControl`]); the per-hop stream table with round-robin
//! scheduling over streams that have outbound data ready ([`StreamMap`]);
//! one hop and the ordered hops of a whole circuit ([`CircHop`],
//! [`CircHopList`]); the client-side conflux handshake and switch handler
//! ([`ClientConfluxMsgHandler`]); a small wall-clock facade for round-trip
//! measurement ([`DynTimeProvider`]); and the no-op key-manager facade
//! used when no real key storage is configured ([`KeyMgr`]).
//!
//! Every function in this crate is verified against its contract; the only
//! unverified code is the single trusted wrapper that reads the system
//! clock, marked `#[verifier::external_body]`.

mod circhop;
mod conflux;
mod err;
mod flow;
mod keymgr;
mod relaycell;
mod streammap;
mod time;

pub use circhop::{CircHop, CircHopList, CircuitCmd, CloseStreamBehavior, SendRelayCell};
pub use conflux::{
    ClientConfluxMsgHandler, ConfluxState, ConfluxStatus, LINK_TIMEOUT_MILLIS,
};
pub use err::{Error, ErrorKind, Result};
pub use keymgr::{
    ArtiEphemeralKeystore, ArtiNativeKeystore, BoxedKeystore, KeyMgr, KeyMgrBuilder, Keystore,
    KeystoreError,
};
pub use flow::{
    CongestionControl, CongestionControlSettings, StreamSendFlowControl,
    CIRCUIT_SENDME_INCREMENT, CIRCUIT_SEND_WINDOW_INIT, STREAM_SENDME_INCREMENT,
    STREAM_SEND_WINDOW_INIT,
};
pub use streammap::{
    CmdChecker, EndSentStreamEnt, HalfStream, OpenStreamEnt, ShouldSendEnd, StreamEnt,
    StreamEntry, StreamMap, StreamSink, StreamStatus, TerminateReason, TrySendOutcome,
    STREAM_ID_LIMIT,
};
pub use time::{DynTimeProvider, TimeProviderImpl};
pub use relaycell::{
    AnyRelayMsg, AnyRelayMsgOuter, HopNum, RelayCellFormat, RelayCmd, RelayMsgRepr, StreamId,
    V1Nonce, CELL_BODY_LEN, CELL_DATA_LEN, END_REASON_MISC,
};
