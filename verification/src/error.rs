//! What can go wrong, and how it is told.

use vstd::prelude::*;
use vstd::utf8::encode_utf8;

use crate::text::{append_decimal, decimal};

verus! {

/// This error occurs only if the URL passed to `connect` is malformed.
#[derive(Debug)]
pub struct ConnectError {
    msg: String,
}

impl View for ConnectError {
    type V = Seq<char>;

    closed spec fn view(&self) -> Seq<char> {
        self.msg@
    }
}

impl ConnectError {
    /// The error for a connection that the browser refused with an exception whose message is
    /// `msg`.
    pub fn from_message(msg: String) -> (error: ConnectError)
        ensures
            error@ == msg@,
    {
        ConnectError { msg }
    }

    /// The error in words: the message of the exception.
    pub fn message(&self) -> (text: String)
        ensures
            text@ == self@,
    {
        self.msg.clone()
    }
}

/// There was an error closing the connection.
#[derive(Debug, Clone)]
pub enum CloseError {
    /// An invalid reason code was passed.
    InvalidCode(u16),
    /// An invalid reason string was passed.
    InvalidReason(String),
}

impl CloseError {
    /// The words in which the error is told.
    pub open spec fn words(self) -> Seq<char> {
        match self {
            CloseError::InvalidCode(code) =>
                "expected a number in the set `1000 | 3000..=4999`, found "@ + decimal(code as nat),
            CloseError::InvalidReason(reason) =>
                "expected a string with length <= 123, found one with length "@
                    + decimal(encode_utf8(reason@).len()) + " (\""@ + reason@ + "\")"@,
        }
    }

    /// The error in words. The length of a reason is that of its UTF-8 encoding, in bytes.
    pub fn message(&self) -> (text: String)
        ensures
            text@ == self.words(),
    {
        match self {
            CloseError::InvalidCode(code) => {
                let mut text = "expected a number in the set `1000 | 3000..=4999`, found ".to_owned();
                append_decimal(&mut text, *code as usize);
                text
            },
            CloseError::InvalidReason(reason) => {
                let mut text =
                    "expected a string with length <= 123, found one with length ".to_owned();
                append_decimal(&mut text, reason.as_str().as_bytes().len());
                text.append(" (\"");
                text.append(reason.as_str());
                text.append("\")");
                text
            },
        }
    }
}

/// Attempted to send a message before the connection was established.
#[derive(Debug, Clone, PartialEq, Eq)]
pub struct SendError;

impl SendError {
    /// The error in words.
    pub fn message(&self) -> (text: String)
        ensures
            text@ == "tried to send a message before the websocket connection was established"@,
    {
        "tried to send a message before the websocket connection was established".to_owned()
    }
}

} // verus!
