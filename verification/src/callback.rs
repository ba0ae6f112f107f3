//! The rules of a websocket that is driven by callbacks.
//!
//! The socket itself lives in the browser. Here it is known by the state in which it was last
//! observed; each operation says what the browser is to be asked for.

use vstd::prelude::*;
use vstd::utf8::encode_utf8;

use crate::error::{CloseError, SendError};
use crate::message::{Frame, OutgoingMessage};
use crate::state::State;

verus! {

/// `web_sys::WebSocket::CONNECTING`, the ready state of a socket that is still connecting: 0.
#[verifier::external_body]
fn connecting_code() -> (code: u16)
    ensures
        code == 0,
{
    web_sys::WebSocket::CONNECTING
}

/// `web_sys::WebSocket::OPEN`, the ready state of a socket that is open: 1.
#[verifier::external_body]
fn open_code() -> (code: u16)
    ensures
        code == 1,
{
    web_sys::WebSocket::OPEN
}

/// `web_sys::WebSocket::CLOSING`, the ready state of a socket that is closing: 2.
#[verifier::external_body]
fn closing_code() -> (code: u16)
    ensures
        code == 2,
{
    web_sys::WebSocket::CLOSING
}

/// `web_sys::WebSocket::CLOSED`, the ready state of a socket that is closed: 3.
#[verifier::external_body]
fn closed_code() -> (code: u16)
    ensures
        code == 3,
{
    web_sys::WebSocket::CLOSED
}

/// Whether a connection may be closed with `code`.
pub open spec fn valid_close_code(code: u16) -> bool {
    code == 1000 || 3000 <= code <= 4999
}

/// Whether a connection may be closed with `reason`: it takes at most 123 bytes in UTF-8.
pub open spec fn valid_close_reason(reason: Seq<char>) -> bool {
    encode_utf8(reason).len() <= 123
}

/// How the browser is asked to start the closing handshake.
#[derive(Debug, Clone, Copy, PartialEq, Eq)]
pub enum CloseRequest<'a> {
    /// With neither code nor reason.
    Plain,
    /// With a code.
    Code(u16),
    /// With a code and a reason.
    CodeAndReason(u16, &'a str),
}

/// A websocket, as it was last observed.
#[derive(Debug, Clone, Copy, PartialEq, Eq)]
pub struct WebSocket {
    state: State,
}

impl View for WebSocket {
    type V = State;

    closed spec fn view(&self) -> State {
        self.state
    }
}

impl WebSocket {
    /// Whether the socket refuses messages: it does so as long as it is connecting, and leaves it
    /// to the browser what becomes of a message after that.
    pub open spec fn refuses_messages(self) -> bool {
        self@ is Connecting
    }

    /// The websocket whose ready state was read as `ready_state`; `None` if that is not the
    /// number of a state.
    pub fn observe(ready_state: u16) -> (socket: Option<WebSocket>)
        ensures
            socket is Some <==> ready_state <= 3,
            socket matches Some(socket) ==> socket@.ready_state() == ready_state,
    {
        let state = if ready_state == connecting_code() {
            State::Connecting
        } else if ready_state == open_code() {
            State::Open
        } else if ready_state == closing_code() {
            State::Closing
        } else if ready_state == closed_code() {
            State::Closed
        } else {
            return None;
        };
        Some(WebSocket { state })
    }

    /// Send a message over the socket: what to hand to the browser.
    ///
    /// The message can be either a `&[u8]` for binary messages, or a `&str` for text messages.
    pub fn send<'a, M: OutgoingMessage + ?Sized>(&self, data: &'a M) -> (sent: Result<
        Frame<'a>,
        SendError,
    >)
        ensures
            match sent {
                Ok(frame) => !self.refuses_messages() && data.carried_by(frame),
                Err(_) => self.refuses_messages(),
            },
    {
        if self.state().is_connecting() {
            return Err(SendError);
        }
        Ok(data.frame())
    }

    /// Whether it is possible to send messages.
    pub fn can_send(&self) -> (yes: bool)
        ensures
            yes == (self@ is Open),
    {
        self.state().is_open()
    }

    /// Get the current state of the websocket.
    pub fn state(&self) -> (state: State)
        ensures
            state == self@,
    {
        self.state
    }

    /// Start the closing handshake.
    pub fn close(&self) -> (request: CloseRequest<'static>)
        ensures
            request == CloseRequest::Plain,
    {
        CloseRequest::Plain
    }

    /// Start the closing handshake, with a reason code and optional reason string.
    ///
    /// The code must be *1000* or between *3000* and *4999* inclusive, and the reason string, if
    /// present, must be less than or equal to 123 bytes in length (when utf8 encoded). If either
    /// of these conditions are violated, the function will error without closing the connection.
    pub fn close_with_reason<'a>(&self, code: u16, reason: Option<&'a str>) -> (request: Result<
        CloseRequest<'a>,
        CloseError,
    >)
        ensures
            match request {
                Ok(CloseRequest::Plain) => false,
                Ok(CloseRequest::Code(c)) => c == code && valid_close_code(code) && reason is None,
                Ok(CloseRequest::CodeAndReason(c, r)) => c == code && valid_close_code(code)
                    && reason == Some(r) && valid_close_reason(r@),
                Err(CloseError::InvalidCode(c)) => c == code && !valid_close_code(code),
                Err(CloseError::InvalidReason(s)) => valid_close_code(code) && (reason matches Some(
                    r,
                ) && s@ == r@ && !valid_close_reason(r@)),
            },
    {
        if code != 1000 && !(3000 <= code && code <= 4999) {
            return Err(CloseError::InvalidCode(code));
        }
        match reason {
            Some(r) => if r.as_bytes().len() <= 123 {
                Ok(CloseRequest::CodeAndReason(code, r))
            } else {
                Err(CloseError::InvalidReason(r.to_owned()))
            },
            None => Ok(CloseRequest::Code(code)),
        }
    }
}

} // verus!
