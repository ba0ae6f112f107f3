//! The rules of a websocket that is polled: a stream of the messages received, and a sink for
//! messages to be sent.
//!
//! Events are fed to the socket as they come; polls read what the events have left behind, and
//! leave a waker for the next event where there is nothing to say yet. Waking tasks, sending
//! frames and starting the closing handshake is left to the caller, who is told when to do so.

use std::collections::VecDeque;
use std::task::{Poll, Waker};

use vstd::prelude::*;

use crate::callback;
use crate::event::Event;
use crate::message::{Frame, Message, OutgoingMessage};
use crate::state::State as WsState;

verus! {

/// A handle by which a task is woken. It is carried through as it is.
#[verifier::external_type_specification]
#[verifier::external_body]
pub struct ExWaker(std::task::Waker);

/// The outcome of a poll, with the two variants it is declared with: a value, or nothing yet.
#[verifier::external_type_specification]
#[verifier::reject_recursive_types(T)]
pub struct ExPoll<T>(std::task::Poll<T>);

/// `Waker::clone`. Nothing is claimed of the waker that it returns; contracts say of a waker that
/// it is what `clone` returned for another one (`cloned`).
pub assume_specification[ <std::task::Waker as std::clone::Clone>::clone ](
    waker: &std::task::Waker,
) -> std::task::Waker
;

/// There was an error with the connection (the "error" event was fired).
#[derive(Debug, PartialEq, Eq)]
pub struct ConnectionError;

/// What polling the stream yields.
pub type NextPoll = Poll<Option<Result<Message, ConnectionError>>>;

/// What polling the sink yields.
pub type SinkPoll = Poll<Result<(), ConnectionError>>;

/// What the events and polls so far have left behind.
#[verifier::ext_equal]
pub struct StateView {
    /// The state of the connection, as far as events have told.
    pub ws_state: WsState,
    /// Whether the connection has failed.
    pub has_errd: bool,
    /// The messages received and not yet taken, oldest first.
    pub messages: Seq<Message>,
    /// The waker of the task that waits for the next event.
    pub waker: Option<Waker>,
}

impl StateView {
    /// Before any event: connecting, and nothing received.
    pub open spec fn initial() -> StateView {
        StateView {
            ws_state: WsState::Connecting,
            has_errd: false,
            messages: Seq::empty(),
            waker: None,
        }
    }

    /// No task waits on a connection that has failed.
    pub open spec fn inv(self) -> bool {
        self.has_errd ==> self.waker is None
    }

    /// Whether an event may come: none does after a failure.
    pub open spec fn may_receive(self) -> bool {
        !self.has_errd
    }

    /// What `event` makes of this. Whoever waited does not wait any more.
    pub open spec fn receive(self, event: Event) -> StateView {
        let woken = StateView { waker: None, ..self };
        match event {
            Event::Open => StateView { ws_state: WsState::Open, ..woken },
            Event::Error => StateView { has_errd: true, ..woken },
            Event::Close(close) => if close.was_clean {
                StateView { ws_state: WsState::Closed, ..woken }
            } else {
                StateView { has_errd: true, ..woken }
            },
            Event::Message(message) => StateView {
                messages: self.messages.push(message),
                ..woken
            },
        }
    }

    /// Whether `post` differs from this in nothing but that the task of `waker` now waits for the
    /// next event: it holds a clone of `waker`.
    pub open spec fn parked(self, waker: Waker, post: StateView) -> bool {
        &&& post == StateView { waker: post.waker, ..self }
        &&& post.waker matches Some(w) && cloned(waker, w)
    }

    /// What polling the stream yields: an error once the connection has failed, else the oldest
    /// message, else the end once the connection closes.
    pub open spec fn next(self) -> NextPoll {
        if self.has_errd {
            Poll::Ready(Some(Err(ConnectionError)))
        } else if self.messages.len() > 0 {
            Poll::Ready(Some(Ok(self.messages[0])))
        } else if self.ws_state is Closing || self.ws_state is Closed {
            Poll::Ready(None)
        } else {
            Poll::Pending
        }
    }

    /// Whether the stream may be polled: two tasks cannot wait at once.
    pub open spec fn may_poll_next(self) -> bool {
        self.next() is Pending ==> self.waker is None
    }

    /// Whether polling the stream with `waker` may turn this into `post`.
    pub open spec fn after_next(self, waker: Waker, post: StateView) -> bool {
        match self.next() {
            Poll::Ready(Some(Ok(_))) => post == (StateView {
                messages: self.messages.drop_first(),
                ..self
            }),
            Poll::Ready(_) => post == self,
            Poll::Pending => self.parked(waker, post),
        }
    }

    /// What asking the sink whether it is ready yields: not before the connection is open, and an
    /// error once it has failed or closes.
    pub open spec fn ready(self) -> SinkPoll {
        if self.has_errd {
            Poll::Ready(Err(ConnectionError))
        } else {
            match self.ws_state {
                WsState::Connecting => Poll::Pending,
                WsState::Open => Poll::Ready(Ok(())),
                WsState::Closing | WsState::Closed => Poll::Ready(Err(ConnectionError)),
            }
        }
    }

    /// Whether the sink may be asked if it is ready.
    pub open spec fn may_poll_ready(self) -> bool {
        self.ready() is Pending ==> self.waker is None
    }

    /// Whether asking the sink if it is ready, with `waker`, may turn this into `post`.
    pub open spec fn after_ready(self, waker: Waker, post: StateView) -> bool {
        if self.ready() is Pending {
            self.parked(waker, post)
        } else {
            post == self
        }
    }

    /// Whether a message is on its way as soon as it is handed to the sink.
    pub open spec fn accepts_send(self) -> bool {
        !self.has_errd && self.ws_state is Open
    }

    /// Whether a message may be handed to the sink, over a socket that is in state `socket`: not
    /// while the connection is being established.
    pub open spec fn may_start_send(self, socket: WsState) -> bool {
        &&& !self.has_errd ==> !(self.ws_state is Connecting)
        &&& self.accepts_send() ==> !(socket is Connecting)
    }

    /// What polling the sink to close yields: nothing before the connection is closed, and an
    /// error if it failed.
    pub open spec fn close(self) -> SinkPoll {
        if self.has_errd {
            Poll::Ready(Err(ConnectionError))
        } else if self.ws_state is Closed {
            Poll::Ready(Ok(()))
        } else {
            Poll::Pending
        }
    }

    /// Whether polling the sink to close starts the closing handshake.
    pub open spec fn starts_closing(self) -> bool {
        !self.has_errd && (self.ws_state is Connecting || self.ws_state is Open)
    }

    /// Whether the sink may be polled to close.
    pub open spec fn may_poll_close(self) -> bool {
        self.close() is Pending ==> self.waker is None
    }

    /// Whether polling the sink to close, with `waker`, may turn this into `post`.
    pub open spec fn after_close(self, waker: Waker, post: StateView) -> bool {
        if self.close() is Pending {
            self.parked(waker, post)
        } else {
            post == self
        }
    }
}

/// What a polled websocket remembers from one event or poll to the next.
struct State {
    ws_state: WsState,
    has_errd: bool,
    messages: VecDeque<Message>,
    waker: Option<Waker>,
}

impl View for State {
    type V = StateView;

    closed spec fn view(&self) -> StateView {
        StateView {
            ws_state: self.ws_state,
            has_errd: self.has_errd,
            messages: self.messages@,
            waker: self.waker,
        }
    }
}

impl State {
    /// Connecting, with nothing received.
    fn new() -> (state: State)
        ensures
            state@ == StateView::initial(),
            state@.inv(),
    {
        State {
            ws_state: WsState::Connecting,
            has_errd: false,
            messages: VecDeque::new(),
            waker: None,
        }
    }

    /// Store a waker. There must not be one already.
    fn set_waker<T>(&mut self, waker: &Waker) -> (poll: Poll<T>)
        requires
            old(self)@.waker is None,
        ensures
            poll == Poll::<T>::Pending,
            old(self)@.parked(*waker, final(self)@),
    {
        self.waker = Some(waker.clone());
        Poll::Pending
    }

    /// Update the state with an event, and give back the waker of the task that waited for it (if
    /// any), for the caller to wake.
    fn modify(&mut self, event: Event) -> (woken: Option<Waker>)
        requires
            old(self)@.may_receive(),
        ensures
            final(self)@ == old(self)@.receive(event),
            woken == old(self)@.waker,
            final(self)@.inv(),
    {
        match event {
            Event::Open => {
                self.ws_state = WsState::Open;
            },
            Event::Error => {
                self.has_errd = true;
            },
            Event::Close(close) => {
                if close.was_clean {
                    self.ws_state = WsState::Closed;
                } else {
                    self.has_errd = true;
                }
            },
            Event::Message(message) => {
                self.messages.push_back(message);
            },
        }
        self.waker.take()
    }
}

/// The outcome of polling the sink to flush.
#[derive(Debug)]
pub struct Flush {
    /// What the poll yields.
    pub poll: SinkPoll,
    /// Whether some data is still buffered, although the poll says that all has been flushed.
    pub still_buffered: bool,
}

/// The outcome of polling the sink to close.
#[derive(Debug)]
pub struct Closing {
    /// What the poll yields.
    pub poll: SinkPoll,
    /// Whether the closing handshake is to be started now, by a plain close of the socket.
    pub start: bool,
}

/// A websocket that is polled.
pub struct WebSocket {
    state: State,
}

impl View for WebSocket {
    type V = StateView;

    closed spec fn view(&self) -> StateView {
        self.state@
    }
}

impl WebSocket {
    /// The websocket whose connection has just been requested.
    pub fn connect() -> (socket: WebSocket)
        ensures
            socket@ == StateView::initial(),
            socket@.inv(),
    {
        WebSocket { state: State::new() }
    }

    /// Whether an event may be fed to the socket.
    pub fn may_receive(&self) -> (yes: bool)
        ensures
            yes == self@.may_receive(),
    {
        !self.state.has_errd
    }

    /// Feed an event to the socket. The waker of the task that waited for it (if any) is given
    /// back, for the caller to wake.
    pub fn receive(&mut self, event: Event) -> (woken: Option<Waker>)
        requires
            old(self)@.may_receive(),
        ensures
            final(self)@ == old(self)@.receive(event),
            woken == old(self)@.waker,
            final(self)@.inv(),
    {
        self.state.modify(event)
    }

    /// Whether the stream may be polled.
    pub fn may_poll_next(&self) -> (yes: bool)
        ensures
            yes == self@.may_poll_next(),
    {
        self.state.waker.is_none() || self.state.has_errd || self.state.messages.len() > 0
            || self.state.ws_state.is_closing() || self.state.ws_state.is_closed()
    }

    /// Poll the stream of the messages received.
    pub fn poll_next(&mut self, waker: &Waker) -> (poll: NextPoll)
        requires
            old(self)@.may_poll_next(),
        ensures
            poll == old(self)@.next(),
            old(self)@.after_next(*waker, final(self)@),
            old(self)@.inv() ==> final(self)@.inv(),
    {
        if self.state.has_errd {
            return Poll::Ready(Some(Err(ConnectionError)));
        }
        match self.state.messages.pop_front() {
            Some(msg) => Poll::Ready(Some(Ok(msg))),
            None => if self.state.ws_state.is_closing() || self.state.ws_state.is_closed() {
                Poll::Ready(None)
            } else {
                self.state.set_waker(waker)
            },
        }
    }

    /// Whether the sink may be asked if it is ready.
    pub fn may_poll_ready(&self) -> (yes: bool)
        ensures
            yes == self@.may_poll_ready(),
    {
        self.state.waker.is_none() || self.state.has_errd || !self.state.ws_state.is_connecting()
    }

    /// Ask whether the sink is ready to take a message.
    pub fn poll_ready(&mut self, waker: &Waker) -> (poll: SinkPoll)
        requires
            old(self)@.may_poll_ready(),
        ensures
            poll == old(self)@.ready(),
            old(self)@.after_ready(*waker, final(self)@),
            old(self)@.inv() ==> final(self)@.inv(),
    {
        if self.state.has_errd {
            Poll::Ready(Err(ConnectionError))
        } else {
            match self.state.ws_state {
                WsState::Connecting => self.state.set_waker(waker),
                WsState::Open => Poll::Ready(Ok(())),
                _ => Poll::Ready(Err(ConnectionError)),
            }
        }
    }

    /// Whether a message may be handed to the sink, over `socket`.
    pub fn may_start_send(&self, socket: &callback::WebSocket) -> (yes: bool)
        ensures
            yes == self@.may_start_send(socket@),
    {
        if self.state.has_errd {
            true
        } else {
            match self.state.ws_state {
                WsState::Connecting => false,
                WsState::Open => !socket.state().is_connecting(),
                WsState::Closing | WsState::Closed => true,
            }
        }
    }

    /// Hand a message to the sink: what to send over `socket`.
    pub fn start_send<'a, M: OutgoingMessage + ?Sized>(
        &self,
        socket: &callback::WebSocket,
        item: &'a M,
    ) -> (sent: Result<Frame<'a>, ConnectionError>)
        requires
            self@.may_start_send(socket@),
        ensures
            match sent {
                Ok(frame) => self@.accepts_send() && item.carried_by(frame),
                Err(_) => !self@.accepts_send(),
            },
    {
        if self.state.has_errd {
            Err(ConnectionError)
        } else {
            match self.state.ws_state {
                WsState::Open => Ok(socket.send(item).unwrap()),
                _ => Err(ConnectionError),
            }
        }
    }

    /// Poll the sink to flush, while the socket buffers `buffered_amount` bytes.
    ///
    /// There is no event for when no data is waiting to be sent, and so no way to wake a task
    /// then: the poll always says that all has been flushed.
    pub fn poll_flush(&self, buffered_amount: u32) -> (flush: Flush)
        ensures
            flush.poll == Poll::Ready(Ok::<(), ConnectionError>(())),
            flush.still_buffered == (buffered_amount > 0),
    {
        Flush { poll: Poll::Ready(Ok(())), still_buffered: buffered_amount > 0 }
    }

    /// Whether the sink may be polled to close.
    pub fn may_poll_close(&self) -> (yes: bool)
        ensures
            yes == self@.may_poll_close(),
    {
        self.state.waker.is_none() || self.state.has_errd || self.state.ws_state.is_closed()
    }

    /// Poll the sink to close.
    pub fn poll_close(&mut self, waker: &Waker) -> (closing: Closing)
        requires
            old(self)@.may_poll_close(),
        ensures
            closing.poll == old(self)@.close(),
            closing.start == old(self)@.starts_closing(),
            old(self)@.after_close(*waker, final(self)@),
            old(self)@.inv() ==> final(self)@.inv(),
    {
        if self.state.has_errd {
            Closing { poll: Poll::Ready(Err(ConnectionError)), start: false }
        } else {
            match self.state.ws_state {
                WsState::Closed => Closing { poll: Poll::Ready(Ok(())), start: false },
                WsState::Closing => Closing { poll: self.state.set_waker(waker), start: false },
                _ => Closing { poll: self.state.set_waker(waker), start: true },
            }
        }
    }
}

} // verus!
