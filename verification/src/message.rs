//! Messages that arrive over a websocket, and messages that leave through it.

use vstd::prelude::*;

use crate::sealed::Sealed;

verus! {

/// An incoming websocket message.
#[derive(Debug, PartialEq, Eq)]
pub enum Message {
    /// Message was in the binary variation.
    Binary(Vec<u8>),
    /// Message was in the text variation.
    Text(String),
}

impl Message {
    /// The message carried by data that reads as `text` and as the bytes `buffer`, as far as it is
    /// text or a buffer at all. Text wins.
    pub open spec fn decoded(text: Option<String>, buffer: Option<Vec<u8>>) -> Option<Message> {
        match (text, buffer) {
            (Some(msg), _) => Some(Message::Text(msg)),
            (None, Some(msg)) => Some(Message::Binary(msg)),
            (None, None) => None,
        }
    }

    /// The bytes of a binary message.
    pub open spec fn binary(self) -> Option<Seq<u8>> {
        match self {
            Message::Binary(msg) => Some(msg@),
            Message::Text(_) => None,
        }
    }

    /// The characters of a text message.
    pub open spec fn text(self) -> Option<Seq<char>> {
        match self {
            Message::Text(msg) => Some(msg@),
            Message::Binary(_) => None,
        }
    }

    /// The message carried by the data of a `message` event.
    ///
    /// `text` is the data read as a string and `buffer` the bytes of the data read as an array
    /// buffer, each `None` if the data is of another type. Text wins; data that is neither text
    /// nor a buffer carries no message.
    pub fn decode(text: Option<String>, buffer: Option<Vec<u8>>) -> (message: Option<Message>)
        ensures
            message == Message::decoded(text, buffer),
    {
        match text {
            Some(msg) => Some(Message::Text(msg)),
            None => match buffer {
                Some(msg) => Some(Message::Binary(msg)),
                None => None,
            },
        }
    }

    /// The bytes of a binary message.
    pub fn as_binary(&self) -> (bytes: Option<&[u8]>)
        ensures
            self.binary() == (match bytes {
                Some(b) => Some(b@),
                None => None,
            }),
    {
        match self {
            Message::Binary(msg) => Some(msg.as_slice()),
            Message::Text(_) => None,
        }
    }

    /// The characters of a text message.
    pub fn as_text(&self) -> (text: Option<&str>)
        ensures
            self.text() == (match text {
                Some(t) => Some(t@),
                None => None,
            }),
    {
        match self {
            Message::Text(msg) => Some(msg.as_str()),
            Message::Binary(_) => None,
        }
    }
}

/// What is handed to the browser to be sent.
#[derive(Debug, Clone, Copy, PartialEq, Eq)]
pub enum Frame<'a> {
    /// Send the bytes as a binary message.
    Binary(&'a [u8]),
    /// Send the string as a text message.
    Text(&'a str),
}

/// Data that can be sent over a websocket: a `[u8]` as a binary message, a `str` as a text
/// message.
pub trait OutgoingMessage: Sealed {
    /// Whether `frame` carries exactly this data, in the variation that belongs to its type.
    spec fn carried_by(&self, frame: Frame<'_>) -> bool;

    /// The frame that sends this data.
    fn frame(&self) -> (frame: Frame<'_>)
        ensures
            self.carried_by(frame),
    ;
}

impl OutgoingMessage for [u8] {
    open spec fn carried_by(&self, frame: Frame<'_>) -> bool {
        frame matches Frame::Binary(data) && data@ == self@
    }

    fn frame(&self) -> (frame: Frame<'_>) {
        Frame::Binary(self)
    }
}

impl OutgoingMessage for str {
    open spec fn carried_by(&self, frame: Frame<'_>) -> bool {
        frame matches Frame::Text(data) && data@ == self@
    }

    fn frame(&self) -> (frame: Frame<'_>) {
        Frame::Text(self)
    }
}

} // verus!
