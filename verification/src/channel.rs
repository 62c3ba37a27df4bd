//! Data-channel lifecycle. A channel exists only while its owning connection
//! does: the initiator creates it explicitly at connection creation, the
//! responder receives whichever instance the transport hands over. The
//! manager tracks the channel's readiness and gates sending on it; delivered
//! peer messages pass through verbatim.

use vstd::prelude::*;

verus! {

/// The data channel's readiness.
#[derive(Clone, Copy, Debug, PartialEq, Eq, Structural)]
pub enum ChannelReadyState {
    Connecting,
    Open,
    Closing,
    Closed,
}

/// The error a send attempt gets while the channel is not open.
#[derive(Clone, Copy, Debug, PartialEq, Eq, Structural)]
pub struct ChannelNotOpenError;

/// Manages one data channel instance's open/message/close lifecycle.
#[derive(Clone, Copy, Debug, PartialEq, Eq, Structural)]
pub struct ChannelManager {
    pub ready_state: ChannelReadyState,
}

impl ChannelManager {
    /// A manager attached to a freshly created or received channel
    /// instance, which starts out connecting.
    pub fn attach() -> (m: ChannelManager)
        ensures
            m.ready_state is Connecting,
    {
        ChannelManager { ready_state: ChannelReadyState::Connecting }
    }

    /// The channel reported open: sending is permitted from now on.
    pub fn on_open(&mut self)
        ensures
            *final(self) == (ChannelManager { ready_state: ChannelReadyState::Open }),
    {
        self.ready_state = ChannelReadyState::Open;
    }

    /// The transport tore the channel down: sending stops at once; nothing
    /// in flight is buffered across the close.
    pub fn on_close(&mut self)
        ensures
            *final(self) == (ChannelManager { ready_state: ChannelReadyState::Closed }),
    {
        self.ready_state = ChannelReadyState::Closed;
    }

    /// A message arrived from the peer: it goes to the message sink
    /// verbatim, with no transformation.
    pub fn on_message(&self, payload: String) -> (delivery: String)
        ensures
            delivery == payload,
    {
        payload
    }

    /// Sends application text. Succeeds exactly while the channel is open:
    /// the caller transmits the returned text and echoes it to the message
    /// sink as a local-originated message. In every other ready state the
    /// send fails with `ChannelNotOpenError` and nothing is transmitted.
    pub fn send(&self, text: String) -> (r: Result<String, ChannelNotOpenError>)
        ensures
            r is Ok <==> self.ready_state is Open,
            r matches Ok(echo) ==> echo == text,
    {
        match self.ready_state {
            ChannelReadyState::Open => Ok(text),
            _ => Err(ChannelNotOpenError),
        }
    }
}

} // verus!
