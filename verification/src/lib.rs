//! The rules of a websocket in the browser, apart from the browser.
//!
//! [`callback`] decides what a socket driven by callbacks asks of the browser. [`futures`] keeps
//! the books of a socket that is polled as a stream and a sink. [`promises`] states what each call
//! means, [`laws`] what holds across calls, and [`histories`] what a polled socket answers after any
//! course of events.

pub mod callback;
pub mod error;
pub mod event;
pub mod futures;
pub mod histories;
pub mod laws;
pub mod message;
pub mod promises;
mod sealed;
pub mod state;
pub mod text;

pub use error::{CloseError, ConnectError, SendError};
pub use event::{CloseEvent, Event};
pub use message::{Frame, Message, OutgoingMessage};
pub use state::State;
