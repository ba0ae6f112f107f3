//! What the operations promise, call by call: how the results of a call, and of calls that follow
//! one another, relate to what went in.

use std::task::{Poll, Waker};

use vstd::prelude::*;
use vstd::utf8::encode_utf8;

use crate::callback;
use crate::callback::CloseRequest;
use crate::error::{CloseError, ConnectError, SendError};
use crate::event::Event;
use crate::futures::{Closing, ConnectionError, Flush, NextPoll, SinkPoll, WebSocket};
use crate::laws::Step;
use crate::message::{Frame, Message};
use crate::state::State;
use crate::text::decimal;

verus! {

////////////////////////////////////////////////////////////////////////////////////////////////////
// The polled websocket
////////////////////////////////////////////////////////////////////////////////////////////////////

/// A new websocket is connecting, has received nothing, has not failed, and nobody waits on it.
pub proof fn connect_starts_afresh(ws: WebSocket)
    requires
        call_ensures(WebSocket::connect, (), ws),
    ensures
        ws@.ws_state is Connecting,
        !ws@.has_errd,
        ws@.messages.len() == 0,
        ws@.waker is None,
{
}

/// An event may come exactly as long as the connection has not failed, however many messages wait.
pub proof fn an_event_may_come_until_a_failure(ws: &mut WebSocket, event: Event, yes: bool)
    requires
        call_ensures(WebSocket::may_receive, (&*old(ws),), yes),
    ensures
        yes <==> !old(ws)@.has_errd,
        yes ==> call_requires(WebSocket::receive, (ws, event)),
{
}

/// An event gives back the waker that waits, so that nobody waits after it. An opening and a clean
/// close change the state of the connection and nothing else does; an error and an unclean close
/// fail it and nothing else does; a message joins the end of the queue and nothing else touches it.
pub proof fn receive_takes_in_every_event(ws: &mut WebSocket, event: Event, woken: Option<Waker>)
    requires
        !old(ws)@.has_errd,
        call_ensures(WebSocket::receive, (ws, event), woken),
    ensures
        woken == old(ws)@.waker,
        final(ws)@.waker is None,
        final(ws)@.has_errd <==> (event is Error || (event matches Event::Close(close)
            && !close.was_clean)),
        event is Open ==> final(ws)@.ws_state is Open,
        (event matches Event::Close(close) && close.was_clean) ==> final(ws)@.ws_state is Closed,
        event is Message || final(ws)@.has_errd ==> final(ws)@.ws_state == old(ws)@.ws_state,
        event matches Event::Message(message) ==> final(ws)@.messages == old(ws)@.messages.push(
            message,
        ),
        !(event is Message) ==> final(ws)@.messages == old(ws)@.messages,
{
}

/// The stream may be polled exactly if nobody waits, or if there is something to say at once.
pub proof fn the_stream_may_be_polled(ws: &mut WebSocket, waker: &Waker, yes: bool)
    requires
        call_ensures(WebSocket::may_poll_next, (&*old(ws),), yes),
    ensures
        yes <==> (old(ws)@.waker is None || old(ws)@.has_errd || old(ws)@.messages.len() > 0
            || old(ws)@.ws_state is Closing || old(ws)@.ws_state is Closed),
        yes ==> call_requires(WebSocket::poll_next, (ws, waker)),
{
}

/// What a poll of the stream means. An error: the connection has failed. A message: it was the
/// first in the queue of a connection that has not failed, and it alone has left the queue. The
/// end: the connection closes or is closed, has not failed, and no message is left. Nothing yet:
/// the connection is neither closing nor closed, has not failed, no message is left, and a clone of
/// the waker is kept for the next event.
pub proof fn poll_next_means_what_it_says(ws: &mut WebSocket, waker: &Waker, poll: NextPoll)
    requires
        call_ensures(WebSocket::poll_next, (ws, waker), poll),
    ensures
        match poll {
            Poll::Ready(Some(Err(_))) => old(ws)@.has_errd && final(ws)@ == old(ws)@,
            Poll::Ready(Some(Ok(message))) => {
                &&& !old(ws)@.has_errd
                &&& old(ws)@.messages == seq![message] + final(ws)@.messages
                &&& final(ws)@.ws_state == old(ws)@.ws_state
                &&& !final(ws)@.has_errd
                &&& final(ws)@.waker == old(ws)@.waker
            },
            Poll::Ready(None) => {
                &&& !old(ws)@.has_errd
                &&& old(ws)@.messages.len() == 0
                &&& old(ws)@.ws_state is Closing || old(ws)@.ws_state is Closed
                &&& final(ws)@ == old(ws)@
            },
            Poll::Pending => {
                &&& !old(ws)@.has_errd
                &&& old(ws)@.messages.len() == 0
                &&& old(ws)@.ws_state is Connecting || old(ws)@.ws_state is Open
                &&& final(ws)@.ws_state == old(ws)@.ws_state
                &&& !final(ws)@.has_errd
                &&& final(ws)@.messages.len() == 0
                &&& final(ws)@.waker matches Some(kept) && cloned(*waker, kept)
            },
        },
{
    if let Poll::Ready(Some(Ok(message))) = poll {
        assert(old(ws)@.messages == seq![message] + old(ws)@.messages.drop_first());
    }
}

/// The sink may be asked if it is ready exactly if nobody waits, or if the connection is no longer
/// being established.
pub proof fn the_sink_may_be_asked(ws: &mut WebSocket, waker: &Waker, yes: bool)
    requires
        call_ensures(WebSocket::may_poll_ready, (&*old(ws),), yes),
    ensures
        yes <==> (old(ws)@.waker is None || old(ws)@.has_errd || !(
        old(ws)@.ws_state is Connecting)),
        yes ==> call_requires(WebSocket::poll_ready, (ws, waker)),
{
}

/// What the sink's answer means. Ready: the connection is open. An error: it has failed, closes or
/// is closed. Nothing yet: it is being established, and a clone of the waker is kept for the next
/// event. The messages that wait have no part in it and stay.
pub proof fn poll_ready_means_what_it_says(ws: &mut WebSocket, waker: &Waker, poll: SinkPoll)
    requires
        call_ensures(WebSocket::poll_ready, (ws, waker), poll),
    ensures
        match poll {
            Poll::Ready(Ok(_)) => !old(ws)@.has_errd && old(ws)@.ws_state is Open,
            Poll::Ready(Err(_)) => old(ws)@.has_errd || old(ws)@.ws_state is Closing
                || old(ws)@.ws_state is Closed,
            Poll::Pending => !old(ws)@.has_errd && old(ws)@.ws_state is Connecting,
        },
        poll is Ready ==> final(ws)@ == old(ws)@,
        poll is Pending ==> (final(ws)@.waker matches Some(kept) && cloned(*waker, kept)),
        final(ws)@.ws_state == old(ws)@.ws_state,
        final(ws)@.has_errd == old(ws)@.has_errd,
        final(ws)@.messages == old(ws)@.messages,
{
}

/// A message may be handed to the sink once the connection is no longer being established, or has
/// failed; while it is open, the socket must have noticed.
pub proof fn a_message_may_be_handed_over(
    ws: &WebSocket,
    socket: &callback::WebSocket,
    text: &str,
    bytes: &[u8],
    yes: bool,
)
    requires
        call_ensures(WebSocket::may_start_send, (ws, socket), yes),
    ensures
        yes <==> (ws@.has_errd || ws@.ws_state is Closing || ws@.ws_state is Closed || (
        ws@.ws_state is Open && !(socket@ is Connecting))),
        yes ==> call_requires(WebSocket::start_send::<str>, (ws, socket, text)),
        yes ==> call_requires(WebSocket::start_send::<[u8]>, (ws, socket, bytes)),
{
}

/// Text handed to the sink of an open connection goes out as that text; any other connection
/// refuses it.
pub proof fn text_is_sent_while_open(
    ws: &WebSocket,
    socket: &callback::WebSocket,
    item: &str,
    sent: Result<Frame<'_>, ConnectionError>,
)
    requires
        call_ensures(WebSocket::start_send::<str>, (ws, socket, item), sent),
    ensures
        sent is Ok <==> (ws@.ws_state is Open && !ws@.has_errd),
        sent matches Ok(frame) ==> (frame matches Frame::Text(text) && text@ == item@),
{
}

/// Bytes handed to the sink of an open connection go out as those bytes; any other connection
/// refuses them.
pub proof fn bytes_are_sent_while_open(
    ws: &WebSocket,
    socket: &callback::WebSocket,
    item: &[u8],
    sent: Result<Frame<'_>, ConnectionError>,
)
    requires
        call_ensures(WebSocket::start_send::<[u8]>, (ws, socket, item), sent),
    ensures
        sent is Ok <==> (ws@.ws_state is Open && !ws@.has_errd),
        sent matches Ok(frame) ==> (frame matches Frame::Binary(bytes) && bytes@ == item@),
{
}

/// Flushing never waits and never fails, and tells whether any byte is still buffered.
pub proof fn flushing_tells_what_is_buffered(ws: &WebSocket, buffered_amount: u32, flush: Flush)
    requires
        call_ensures(WebSocket::poll_flush, (ws, buffered_amount), flush),
    ensures
        call_requires(WebSocket::poll_flush, (ws, buffered_amount)),
        flush.poll matches Poll::Ready(Ok(_)),
        flush.still_buffered <==> buffered_amount != 0,
{
}

/// The sink may be polled to close exactly if nobody waits, or if the connection has ended.
pub proof fn the_sink_may_be_closed(ws: &mut WebSocket, waker: &Waker, yes: bool)
    requires
        call_ensures(WebSocket::may_poll_close, (&*old(ws),), yes),
    ensures
        yes <==> (old(ws)@.waker is None || old(ws)@.has_errd || old(ws)@.ws_state is Closed),
        yes ==> call_requires(WebSocket::poll_close, (ws, waker)),
{
}

/// What a poll of the sink to close means. Success: the connection is closed. An error: it has
/// failed. Nothing yet: it is neither, and a clone of the waker is kept for the next event. The
/// closing handshake is started exactly if the connection has not failed and is neither closing nor
/// closed. The messages that wait have no part in it and stay.
pub proof fn poll_close_means_what_it_says(ws: &mut WebSocket, waker: &Waker, closing: Closing)
    requires
        call_ensures(WebSocket::poll_close, (ws, waker), closing),
    ensures
        match closing.poll {
            Poll::Ready(Ok(_)) => !old(ws)@.has_errd && old(ws)@.ws_state is Closed,
            Poll::Ready(Err(_)) => old(ws)@.has_errd,
            Poll::Pending => !old(ws)@.has_errd && !(old(ws)@.ws_state is Closed),
        },
        closing.start <==> (closing.poll is Pending && !(old(ws)@.ws_state is Closing)),
        closing.poll is Ready ==> final(ws)@ == old(ws)@,
        closing.poll is Pending ==> (final(ws)@.waker matches Some(kept) && cloned(*waker, kept)),
        final(ws)@.ws_state == old(ws)@.ws_state,
        final(ws)@.has_errd == old(ws)@.has_errd,
        final(ws)@.messages == old(ws)@.messages,
{
}

/// Two sockets whose connections are in the same state, and both failed or both not, give the same
/// answers as sinks: neither the messages that wait nor the tasks that wait make a difference.
pub proof fn sinks_answer_by_the_connection_alone(
    a: &mut WebSocket,
    b: &mut WebSocket,
    waker_a: &Waker,
    waker_b: &Waker,
    ready_a: SinkPoll,
    ready_b: SinkPoll,
    closing_a: Closing,
    closing_b: Closing,
)
    requires
        old(a)@.ws_state == old(b)@.ws_state,
        old(a)@.has_errd == old(b)@.has_errd,
    ensures
        call_ensures(WebSocket::poll_ready, (a, waker_a), ready_a) && call_ensures(
            WebSocket::poll_ready,
            (b, waker_b),
            ready_b,
        ) ==> ready_a == ready_b,
        call_ensures(WebSocket::poll_close, (a, waker_a), closing_a) && call_ensures(
            WebSocket::poll_close,
            (b, waker_b),
            closing_b,
        ) ==> closing_a == closing_b,
{
}

/// Every call on a polled websocket that is allowed is a step of the kind that runs are made of.
pub proof fn calls_are_steps(
    ws: &mut WebSocket,
    event: Event,
    woken: Option<Waker>,
    waker: &Waker,
    poll: NextPoll,
    ready: SinkPoll,
    closing: Closing,
)
    ensures
        !old(ws)@.has_errd && call_ensures(WebSocket::receive, (ws, event), woken)
            ==> (Step::Receive { event, woken }).leads(old(ws)@, final(ws)@),
        old(ws)@.may_poll_next() && call_ensures(WebSocket::poll_next, (ws, waker), poll)
            ==> (Step::Next { waker: *waker, poll }).leads(old(ws)@, final(ws)@),
        old(ws)@.may_poll_ready() && call_ensures(WebSocket::poll_ready, (ws, waker), ready)
            ==> (Step::Ready { waker: *waker, ready }).leads(old(ws)@, final(ws)@),
        old(ws)@.may_poll_close() && call_ensures(WebSocket::poll_close, (ws, waker), closing)
            ==> (Step::Close { waker: *waker, closing }).leads(old(ws)@, final(ws)@),
{
}

////////////////////////////////////////////////////////////////////////////////////////////////////
// The websocket driven by callbacks
////////////////////////////////////////////////////////////////////////////////////////////////////

/// The numbers 0, 1, 2 and 3 are those of a socket that is connecting, open, closing and closed, in
/// this order, and no other number is that of a socket.
pub proof fn observed_number_is_the_state(
    number: u16,
    observed: Option<callback::WebSocket>,
    state: State,
)
    requires
        call_ensures(callback::WebSocket::observe, (number,), observed),
    ensures
        call_requires(callback::WebSocket::observe, (number,)),
        observed is Some <==> number < 4,
        observed matches Some(socket) && call_ensures(
            callback::WebSocket::state,
            (&socket,),
            state,
        ) ==> {
            &&& state is Connecting <==> number == 0
            &&& state is Open <==> number == 1
            &&& state is Closing <==> number == 2
            &&& state is Closed <==> number == 3
        },
{
}

/// A socket says that it can send exactly if it is open.
pub proof fn only_an_open_socket_can_send(
    number: u16,
    socket: callback::WebSocket,
    yes: bool,
)
    requires
        call_ensures(callback::WebSocket::observe, (number,), Some(socket)),
        call_ensures(callback::WebSocket::can_send, (&socket,), yes),
    ensures
        yes <==> number == 1,
{
}

/// Text is refused exactly while the socket is connecting, and else goes out as that text.
pub proof fn text_is_sent_once_connected(
    number: u16,
    socket: callback::WebSocket,
    item: &str,
    sent: Result<Frame<'_>, SendError>,
)
    requires
        call_ensures(callback::WebSocket::observe, (number,), Some(socket)),
        call_ensures(callback::WebSocket::send::<str>, (&socket, item), sent),
    ensures
        call_requires(callback::WebSocket::send::<str>, (&socket, item)),
        sent is Err <==> number == 0,
        sent matches Ok(frame) ==> (frame matches Frame::Text(text) && text@ == item@),
{
}

/// Bytes are refused exactly while the socket is connecting, and else go out as those bytes.
pub proof fn bytes_are_sent_once_connected(
    number: u16,
    socket: callback::WebSocket,
    item: &[u8],
    sent: Result<Frame<'_>, SendError>,
)
    requires
        call_ensures(callback::WebSocket::observe, (number,), Some(socket)),
        call_ensures(callback::WebSocket::send::<[u8]>, (&socket, item), sent),
    ensures
        call_requires(callback::WebSocket::send::<[u8]>, (&socket, item)),
        sent is Err <==> number == 0,
        sent matches Ok(frame) ==> (frame matches Frame::Binary(bytes) && bytes@ == item@),
{
}

/// A plain close asks for a close without code and reason.
pub proof fn plain_close_is_plain(socket: &callback::WebSocket, request: CloseRequest<'static>)
    requires
        call_ensures(callback::WebSocket::close, (socket,), request),
    ensures
        request is Plain,
{
}

/// Closing is refused for its code exactly if the code is neither 1000 nor from 3000 to 4999. With
/// a code that is, it is refused for its reason exactly if there is one that takes more than 123
/// bytes in UTF-8. The error names what was refused. Closing that is not refused asks for just the
/// code and the reason that were given, whatever the state of the socket.
pub proof fn close_is_refused_for_its_code_or_its_reason(
    socket: &callback::WebSocket,
    code: u16,
    reason: Option<&str>,
    request: Result<CloseRequest<'_>, CloseError>,
)
    requires
        call_ensures(callback::WebSocket::close_with_reason, (socket, code, reason), request),
    ensures
        call_requires(callback::WebSocket::close_with_reason, (socket, code, reason)),
        (request matches Err(CloseError::InvalidCode(_))) <==> (code < 1000 || 1000 < code < 3000
            || 4999 < code),
        (request matches Err(CloseError::InvalidReason(_))) <==> ((code == 1000 || 3000 <= code
            < 5000) && (reason matches Some(r) && encode_utf8(r@).len() > 123)),
        request matches Err(CloseError::InvalidCode(found)) ==> found == code,
        request matches Err(CloseError::InvalidReason(found)) ==> (reason matches Some(r)
            && found@ == r@),
        request matches Ok(request) ==> request == (match reason {
            Some(r) => CloseRequest::CodeAndReason(code, r),
            None => CloseRequest::Code(code),
        }),
{
}

/// No reason of more than 123 characters is accepted, and none of up to 30 is refused.
pub proof fn short_reasons_are_accepted_and_long_ones_refused(
    socket: &callback::WebSocket,
    code: u16,
    reason: &str,
    request: Result<CloseRequest<'_>, CloseError>,
)
    requires
        code == 1000,
        call_ensures(callback::WebSocket::close_with_reason, (socket, code, Some(reason)), request),
    ensures
        reason@.len() > 123 ==> request is Err,
        reason@.len() <= 30 ==> request is Ok,
{
    encoded_length(reason@);
}

/// A character takes one to four bytes in UTF-8.
proof fn encoded_length(chars: Seq<char>)
    ensures
        chars.len() <= encode_utf8(chars).len() <= 4 * chars.len(),
    decreases chars.len(),
{
    if chars.len() > 0 {
        encoded_length(chars.drop_first());
    }
}

////////////////////////////////////////////////////////////////////////////////////////////////////
// Messages, states and errors
////////////////////////////////////////////////////////////////////////////////////////////////////

/// What only asks, reads or builds may be called at any time and on anything.
pub proof fn plain_calls_are_always_allowed(
    ws: &WebSocket,
    socket: &callback::WebSocket,
    text: Option<String>,
    buffer: Option<Vec<u8>>,
    message: &Message,
    state: &State,
    msg: String,
    connect_error: &ConnectError,
    close_error: &CloseError,
    send_error: &SendError,
)
    ensures
        call_requires(WebSocket::connect, ()),
        call_requires(WebSocket::may_receive, (ws,)),
        call_requires(WebSocket::may_poll_next, (ws,)),
        call_requires(WebSocket::may_poll_ready, (ws,)),
        call_requires(WebSocket::may_poll_close, (ws,)),
        call_requires(WebSocket::may_start_send, (ws, socket)),
        call_requires(callback::WebSocket::state, (socket,)),
        call_requires(callback::WebSocket::can_send, (socket,)),
        call_requires(callback::WebSocket::close, (socket,)),
        call_requires(Message::decode, (text, buffer)),
        call_requires(Message::as_text, (message,)),
        call_requires(Message::as_binary, (message,)),
        call_requires(State::is_connecting, (state,)),
        call_requires(State::is_open, (state,)),
        call_requires(State::is_closing, (state,)),
        call_requires(State::is_closed, (state,)),
        call_requires(ConnectError::from_message, (msg,)),
        call_requires(ConnectError::message, (connect_error,)),
        call_requires(CloseError::message, (close_error,)),
        call_requires(SendError::message, (send_error,)),
{
}

/// Data that is text becomes a message that reads as that text and not as bytes, whatever else it
/// is.
pub proof fn text_data_reads_back(
    text: String,
    buffer: Option<Vec<u8>>,
    message: Option<Message>,
    as_text: Option<&str>,
    as_binary: Option<&[u8]>,
)
    requires
        call_ensures(Message::decode, (Some(text), buffer), message),
    ensures
        message == Some(Message::Text(text)),
        call_ensures(Message::as_text, (&message->0,), as_text) ==> (as_text matches Some(t) && t@
            == text@),
        call_ensures(Message::as_binary, (&message->0,), as_binary) ==> as_binary is None,
{
}

/// Data that is a buffer and not text becomes a message that reads as those bytes and not as text.
pub proof fn binary_data_reads_back(
    buffer: Vec<u8>,
    message: Option<Message>,
    as_text: Option<&str>,
    as_binary: Option<&[u8]>,
)
    requires
        call_ensures(Message::decode, (None, Some(buffer)), message),
    ensures
        message == Some(Message::Binary(buffer)),
        call_ensures(Message::as_binary, (&message->0,), as_binary) ==> (as_binary matches Some(b)
            && b@ == buffer@),
        call_ensures(Message::as_text, (&message->0,), as_text) ==> as_text is None,
{
}

/// Data that is neither text nor a buffer carries no message.
pub proof fn other_data_carries_no_message(message: Option<Message>)
    requires
        call_ensures(Message::decode, (None::<String>, None::<Vec<u8>>), message),
    ensures
        message is None,
{
}

/// Each question about a state is answered with yes for one state alone, and each state answers
/// one of them with yes.
pub proof fn one_question_fits_each_state(
    state: State,
    connecting: bool,
    open: bool,
    closing: bool,
    closed: bool,
)
    requires
        call_ensures(State::is_connecting, (&state,), connecting),
        call_ensures(State::is_open, (&state,), open),
        call_ensures(State::is_closing, (&state,), closing),
        call_ensures(State::is_closed, (&state,), closed),
    ensures
        connecting <==> state == State::Connecting,
        open <==> state == State::Open,
        closing <==> state == State::Closing,
        closed <==> state == State::Closed,
        connecting || open || closing || closed,
{
}

/// A connection error tells the message that it was made from.
pub proof fn connect_error_keeps_its_message(msg: String, error: ConnectError, text: String)
    requires
        call_ensures(ConnectError::from_message, (msg,), error),
        call_ensures(ConnectError::message, (&error,), text),
    ensures
        text@ == msg@,
{
}

/// A send error tells why.
pub proof fn send_error_tells_why(error: SendError, text: String)
    requires
        call_ensures(SendError::message, (&error,), text),
    ensures
        text@ == "tried to send a message before the websocket connection was established"@,
{
}

/// A close error tells the code that was refused, or the length in bytes of the reason that was
/// refused, and the reason.
pub proof fn close_error_tells_what_was_refused(error: CloseError, text: String)
    requires
        call_ensures(CloseError::message, (&error,), text),
    ensures
        error matches CloseError::InvalidCode(code) ==> text@
            == "expected a number in the set `1000 | 3000..=4999`, found "@ + decimal(code as nat),
        error matches CloseError::InvalidReason(reason) ==> text@
            == "expected a string with length <= 123, found one with length "@ + decimal(
            encode_utf8(reason@).len(),
        ) + " (\""@ + reason@ + "\")"@,
{
}

/// The number that a sequence of decimal digits stands for.
pub open spec fn read_decimal(digits: Seq<char>) -> int
    decreases digits.len(),
{
    if digits.len() == 0 {
        0
    } else {
        10 * read_decimal(digits.drop_last()) + (digits.last() as int - 48)
    }
}

/// A number written in base ten consists of digits, reads back as that number, and has no leading
/// zero unless it is zero.
pub proof fn decimal_reads_back(n: nat)
    ensures
        read_decimal(decimal(n)) == n,
        decimal(n).len() > 0,
        forall|i: int|
            0 <= i < decimal(n).len() ==> '0' <= #[trigger] decimal(n)[i] && decimal(n)[i] <= '9',
        n > 0 ==> decimal(n)[0] != '0',
        n == 0 ==> decimal(n) == seq!['0'],
    decreases n,
{
    if n < 10 {
        assert(decimal(n).drop_last() == Seq::<char>::empty());
        assert(read_decimal(Seq::<char>::empty()) == 0);
        assert(decimal(n).last() == (48 + n) as char);
    } else {
        decimal_reads_back(n / 10);
        assert(decimal(n).drop_last() == decimal(n / 10));
        assert(decimal(n).last() == (48 + n % 10) as char);
    }
}

} // verus!
