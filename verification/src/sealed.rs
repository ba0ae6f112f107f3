use vstd::prelude::*;

verus! {

/// Keeps [`OutgoingMessage`](crate::OutgoingMessage) closed: only the types of this crate's
/// choosing can be sent over a websocket.
pub trait Sealed {

}

impl Sealed for [u8] {

}

impl Sealed for str {

}

} // verus!
