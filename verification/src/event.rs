//! What the browser reports of a websocket.

use vstd::prelude::*;

use crate::message::Message;

verus! {

/// The connection was closed.
#[derive(Debug, PartialEq, Eq)]
pub struct CloseEvent {
    /// Whether the websocket was shut down cleanly.
    pub was_clean: bool,
    /// The code representing the reason for the closure (RFC 6455 lists them).
    pub code: u16,
    /// A text description of the reason for the closure.
    pub reason: String,
}

/// An event of a websocket, with the data that its listener is given.
#[derive(Debug, PartialEq, Eq)]
pub enum Event {
    /// The connection is ready to receive send requests.
    Open,
    /// There was an error with the websocket. Nothing is reported about it.
    Error,
    /// The connection was closed.
    Close(CloseEvent),
    /// A message was received from the socket.
    Message(Message),
}

impl Event {
    /// Whether the event ends the connection in failure: an error, or a close that was not clean.
    pub open spec fn is_failure(self) -> bool {
        match self {
            Event::Error => true,
            Event::Close(close) => !close.was_clean,
            _ => false,
        }
    }
}

} // verus!
