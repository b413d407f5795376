//! Flow-control and congestion-control accounting.
//!
//! Two levels of accounting exist on a hop.  The hop-wide
//! [`CongestionControl`] tracks how many cells may still be sent on the
//! whole circuit toward this hop; a scheduling pass skips a hop whose
//! window is exhausted, and a circuit-level SENDME refills the window.  In
//! addition each stream carries its own [`StreamSendFlowControl`]: either a
//! classic SENDME window, or a signal-based (XON/XOFF style) control when
//! the hop's congestion-control algorithm makes stream-level SENDME
//! messages meaningless.

use vstd::prelude::*;

use crate::err::{Error, Result};
use crate::relaycell::AnyRelayMsg;

verus! {

/// Initial value of a stream's SENDME send window.
pub const STREAM_SEND_WINDOW_INIT: u16 = 500;

/// How much a stream-level SENDME raises the stream's send window.
pub const STREAM_SENDME_INCREMENT: u16 = 50;

/// Initial value of a hop's circuit-level send window.
pub const CIRCUIT_SEND_WINDOW_INIT: u32 = 1000;

/// How much a circuit-level SENDME raises the hop's send window.
pub const CIRCUIT_SENDME_INCREMENT: u32 = 100;

/// The parameters a hop's congestion control is created from.
#[derive(Clone, Copy, Debug, PartialEq, Eq, Structural)]
pub struct CongestionControlSettings {
    /// Whether streams on this hop use stream-level SENDME windows.
    ///
    /// This is a property of the hop's congestion-control algorithm, not of
    /// any single stream, so it is fixed when the hop is created.
    pub uses_stream_sendme: bool,
    /// The initial (and maximum) circuit-level send window for this hop.
    pub send_window_init: u32,
}

impl CongestionControlSettings {
    /// The classic SENDME-window algorithm: stream-level SENDME in use.
    pub fn sendme_window() -> (r: Self)
        ensures
            r.uses_stream_sendme == true,
            r.send_window_init == CIRCUIT_SEND_WINDOW_INIT,
    {
        CongestionControlSettings {
            uses_stream_sendme: true,
            send_window_init: CIRCUIT_SEND_WINDOW_INIT,
        }
    }

    /// A congestion-window algorithm that replaces stream-level SENDME with
    /// signal-based per-stream control, starting from the given window.
    pub fn congestion_window(send_window_init: u32) -> (r: Self)
        ensures
            r.uses_stream_sendme == false,
            r.send_window_init == send_window_init,
    {
        CongestionControlSettings { uses_stream_sendme: false, send_window_init }
    }
}

/// Sender-side congestion accounting for one hop.
///
/// The window counts cells we may still send toward the hop; it never
/// exceeds the initial value it was created with.
#[derive(Clone, Copy, Debug, PartialEq, Eq, Structural)]
pub struct CongestionControl {
    /// Whether streams on this hop use stream-level SENDME windows.
    pub uses_stream_sendme: bool,
    /// How many window-counted cells may still be sent.
    pub send_window: u32,
    /// The window's initial and maximum value.
    pub send_window_max: u32,
}

impl CongestionControl {
    /// A congestion control in a consistent state: the window never grows
    /// past its maximum.
    pub open spec fn wf(self) -> bool {
        self.send_window <= self.send_window_max
    }

    /// Create the congestion control for a new hop.
    pub fn new(settings: &CongestionControlSettings) -> (r: Self)
        ensures
            r.wf(),
            r.uses_stream_sendme == settings.uses_stream_sendme,
            r.send_window == settings.send_window_init,
            r.send_window_max == settings.send_window_init,
    {
        CongestionControl {
            uses_stream_sendme: settings.uses_stream_sendme,
            send_window: settings.send_window_init,
            send_window_max: settings.send_window_init,
        }
    }

    /// True if the window currently permits sending a window-counted cell.
    pub fn can_send(&self) -> (r: bool)
        ensures
            r == (self.send_window > 0),
    {
        self.send_window > 0
    }

    /// Whether streams on this hop use stream-level SENDME windows.
    pub fn uses_stream_sendme(&self) -> (r: bool)
        ensures
            r == self.uses_stream_sendme,
    {
        self.uses_stream_sendme
    }

    /// The current circuit-level send window, for inspection.
    pub fn send_window(&self) -> (r: u32)
        ensures
            r == self.send_window,
    {
        self.send_window
    }

    /// Account for one window-counted cell sent toward this hop.
    pub fn note_data_sent(&mut self)
        requires
            old(self).send_window > 0,
        ensures
            *final(self) == (CongestionControl { send_window: (old(self).send_window - 1) as u32, ..*old(self) }),
    {
        self.send_window = self.send_window - 1;
    }

    /// Account for a circuit-level SENDME received from this hop.
    ///
    /// A SENDME that would push the window past the value it started from
    /// is a protocol violation: the peer acknowledged more than we sent.
    pub fn note_sendme_received(&mut self) -> (r: Result<()>)
        requires
            old(self).wf(),
        ensures
            final(self).wf(),
            if old(self).send_window + CIRCUIT_SENDME_INCREMENT <= old(self).send_window_max {
                &&& r is Ok
                &&& *final(self) == (CongestionControl {
                    send_window: (old(self).send_window + CIRCUIT_SENDME_INCREMENT) as u32,
                    ..*old(self)
                })
            } else {
                &&& r matches Err(e) && e == Error::ExcessSendme
                &&& *final(self) == *old(self)
            },
    {
        if CIRCUIT_SENDME_INCREMENT <= self.send_window_max
            && self.send_window <= self.send_window_max - CIRCUIT_SENDME_INCREMENT {
            self.send_window = self.send_window + CIRCUIT_SENDME_INCREMENT;
            Ok(())
        } else {
            Err(Error::ExcessSendme)
        }
    }
}

/// Sender-side flow control for one stream.
#[derive(Clone, Copy, Debug, PartialEq, Eq, Structural)]
pub enum StreamSendFlowControl {
    /// Window-based: a stream-level SENDME refills the window.
    WindowBased {
        /// How many window-counted messages may still be sent.
        window: u16,
    },
    /// Signal-based (XON/XOFF style): no stream-level SENDME exists, so
    /// receiving one is a protocol violation.
    XonXoffBased,
}

/// How taking send capacity for a message `m` relates the flow control
/// before (`f1`) and after (`f2`) to the result `r`: a window-counted
/// message uses one unit of window, anything else is free, and asking
/// for capacity the window does not have is a local bug.
pub open spec fn spec_take_capacity(
    f1: StreamSendFlowControl,
    m: crate::relaycell::RelayMsgRepr,
    f2: StreamSendFlowControl,
    r: Result<()>,
) -> bool {
    if f1.spec_can_send(m) {
        &&& r is Ok
        &&& (match f1 {
            StreamSendFlowControl::WindowBased { window } => {
                if m.cmd().spec_counts_toward_windows() {
                    f2 == (StreamSendFlowControl::WindowBased { window: (window - 1) as u16 })
                } else {
                    f2 == f1
                }
            },
            StreamSendFlowControl::XonXoffBased => f2 == f1,
        })
    } else {
        &&& r matches Err(e) && e == Error::NoSendCapacity
        &&& f2 == f1
    }
}

impl StreamSendFlowControl {
    /// Create window-based flow control with the standard initial window.
    pub fn new_window_based() -> (r: Self)
        ensures
            r == (StreamSendFlowControl::WindowBased { window: STREAM_SEND_WINDOW_INIT }),
    {
        StreamSendFlowControl::WindowBased { window: STREAM_SEND_WINDOW_INIT }
    }

    /// Create signal-based flow control.
    pub fn new_xon_xoff_based() -> (r: Self)
        ensures
            r == StreamSendFlowControl::XonXoffBased,
    {
        StreamSendFlowControl::XonXoffBased
    }

    /// True if this flow control currently lets `msg` be sent.
    pub open spec fn spec_can_send(self, msg: crate::relaycell::RelayMsgRepr) -> bool {
        match self {
            StreamSendFlowControl::WindowBased { window } => {
                !msg.cmd().spec_counts_toward_windows() || window > 0
            },
            StreamSendFlowControl::XonXoffBased => true,
        }
    }

    /// True if this flow control currently lets `msg` be sent.
    pub fn can_send(&self, msg: &AnyRelayMsg) -> (r: bool)
        ensures
            r == self.spec_can_send(msg@),
    {
        match self {
            StreamSendFlowControl::WindowBased { window } => {
                !msg.cmd().counts_toward_windows() || *window > 0
            },
            StreamSendFlowControl::XonXoffBased => true,
        }
    }

    /// Take the capacity needed to send `msg`, decrementing the window for
    /// window-counted messages.
    ///
    /// Callers must only pass messages that [`can_send`](Self::can_send)
    /// allowed; trying to send past the window is a local bug.
    pub fn take_capacity_to_send(&mut self, msg: &AnyRelayMsg) -> (r: Result<()>)
        ensures
            spec_take_capacity(*old(self), msg@, *final(self), r),
    {
        match self {
            StreamSendFlowControl::WindowBased { window } => {
                if msg.cmd().counts_toward_windows() {
                    if *window == 0 {
                        return Err(Error::NoSendCapacity);
                    }
                    *window = *window - 1;
                }
                Ok(())
            },
            StreamSendFlowControl::XonXoffBased => Ok(()),
        }
    }

    /// Account for a stream-level SENDME received on this stream.
    ///
    /// With window-based control the window grows by the standard
    /// increment, and a SENDME that would push it past the initial window
    /// is a protocol violation.  With signal-based control a stream-level
    /// SENDME has no meaning at all, so receiving one is always a protocol
    /// violation.
    pub fn put_for_incoming_sendme(&mut self) -> (r: Result<()>)
        ensures
            match *old(self) {
                StreamSendFlowControl::WindowBased { window } => {
                    if window + STREAM_SENDME_INCREMENT <= STREAM_SEND_WINDOW_INIT {
                        &&& r is Ok
                        &&& *final(self) == (StreamSendFlowControl::WindowBased {
                            window: (window + STREAM_SENDME_INCREMENT) as u16,
                        })
                    } else {
                        &&& r matches Err(e) && e == Error::ExcessSendme
                        &&& *final(self) == *old(self)
                    }
                },
                StreamSendFlowControl::XonXoffBased => {
                    &&& r matches Err(e) && e == Error::UnexpectedStreamSendme
                    &&& *final(self) == *old(self)
                },
            },
    {
        match self {
            StreamSendFlowControl::WindowBased { window } => {
                if *window <= STREAM_SEND_WINDOW_INIT - STREAM_SENDME_INCREMENT {
                    *window = *window + STREAM_SENDME_INCREMENT;
                    Ok(())
                } else {
                    Err(Error::ExcessSendme)
                }
            },
            StreamSendFlowControl::XonXoffBased => Err(Error::UnexpectedStreamSendme),
        }
    }
}

} // verus!
