//! The life of a connection.

use vstd::prelude::*;

verus! {

/// The state of the websocket.
///
/// The websocket will usually transition between the states in order, but this is not always the
/// case.
#[derive(Debug, Clone, Copy, PartialEq, Eq, Structural)]
pub enum State {
    /// The connection has not yet been established.
    Connecting,
    /// The WebSocket connection is established and communication is possible.
    Open,
    /// The connection is going through the closing handshake, or the close() method has been
    /// invoked.
    Closing,
    /// The connection has been closed or could not be opened.
    Closed,
}

impl State {
    /// The number by which browsers report this state.
    pub open spec fn ready_state(self) -> int {
        match self {
            State::Connecting => 0,
            State::Open => 1,
            State::Closing => 2,
            State::Closed => 3,
        }
    }

    /// Is this `State` `Connecting`.
    pub fn is_connecting(&self) -> (yes: bool)
        ensures
            yes == (*self is Connecting),
    {
        match self {
            State::Connecting => true,
            _ => false,
        }
    }

    /// Is this `State` `Open`.
    pub fn is_open(&self) -> (yes: bool)
        ensures
            yes == (*self is Open),
    {
        match self {
            State::Open => true,
            _ => false,
        }
    }

    /// Is this `State` `Closing`.
    pub fn is_closing(&self) -> (yes: bool)
        ensures
            yes == (*self is Closing),
    {
        match self {
            State::Closing => true,
            _ => false,
        }
    }

    /// Is this `State` `Closed`.
    pub fn is_closed(&self) -> (yes: bool)
        ensures
            yes == (*self is Closed),
    {
        match self {
            State::Closed => true,
            _ => false,
        }
    }
}

} // verus!
