//! What holds of a websocket as a whole, across its operations.

use std::task::{Poll, Waker};

use vstd::prelude::*;

use crate::callback;
use crate::event::{CloseEvent, Event};
use crate::futures::{Closing, ConnectionError, NextPoll, SinkPoll, StateView};
use crate::message::{Frame, Message, OutgoingMessage};
use crate::state::State;

verus! {

/// Something that happens to a polled websocket and may change it, with what comes out of it.
pub enum Step {
    /// An event is fed to the socket and gives back a waker.
    Receive { event: Event, woken: Option<Waker> },
    /// The stream is polled.
    Next { waker: Waker, poll: NextPoll },
    /// The sink is asked whether it is ready.
    Ready { waker: Waker, ready: SinkPoll },
    /// The sink is polled to close.
    Close { waker: Waker, closing: Closing },
}

impl Step {
    /// Whether the step is allowed in `pre`, and may turn it into `post` with this outcome.
    pub open spec fn leads(self, pre: StateView, post: StateView) -> bool {
        match self {
            Step::Receive { event, woken } => {
                &&& pre.may_receive()
                &&& post == pre.receive(event)
                &&& woken == pre.waker
            },
            Step::Next { waker, poll } => {
                &&& pre.may_poll_next()
                &&& poll == pre.next()
                &&& pre.after_next(waker, post)
            },
            Step::Ready { waker, ready } => {
                &&& pre.may_poll_ready()
                &&& ready == pre.ready()
                &&& pre.after_ready(waker, post)
            },
            Step::Close { waker, closing } => {
                &&& pre.may_poll_close()
                &&& closing.poll == pre.close()
                &&& closing.start == pre.starts_closing()
                &&& pre.after_close(waker, post)
            },
        }
    }

    /// The waker of a poll that yielded nothing yet.
    pub open spec fn left_waiting(self) -> Option<Waker> {
        match self {
            Step::Receive { .. } => None,
            Step::Next { waker, poll } => if poll is Pending {
                Some(waker)
            } else {
                None
            },
            Step::Ready { waker, ready } => if ready is Pending {
                Some(waker)
            } else {
                None
            },
            Step::Close { waker, closing } => if closing.poll is Pending {
                Some(waker)
            } else {
                None
            },
        }
    }

    /// Whether the step is a poll that reports a failed connection.
    pub open spec fn reports_failure(self) -> bool {
        match self {
            Step::Receive { .. } => false,
            Step::Next { poll, .. } => poll == Poll::Ready(
                Some(Err::<Message, ConnectionError>(ConnectionError)),
            ),
            Step::Ready { ready, .. } => ready == Poll::Ready(
                Err::<(), ConnectionError>(ConnectionError),
            ),
            Step::Close { closing, .. } => closing.poll == Poll::Ready(
                Err::<(), ConnectionError>(ConnectionError),
            ),
        }
    }
}

/// The life of a polled websocket so far: the steps in their order, and the states before, between
/// and after them.
pub struct Run {
    pub states: Seq<StateView>,
    pub steps: Seq<Step>,
}

impl Run {
    /// Whether step `i` leads from the state before it to the state after it.
    pub open spec fn leads(self, i: int) -> bool {
        self.steps[i].leads(self.states[i], self.states[i + 1])
    }

    /// Whether a websocket can live this way.
    pub open spec fn valid(self) -> bool {
        &&& self.states.len() == self.steps.len() + 1
        &&& self.states[0] == StateView::initial()
        &&& forall|i: int| 0 <= i < self.steps.len() ==> #[trigger] self.leads(i)
    }

    /// The messages received in the first `n` steps.
    pub open spec fn received(self, n: int) -> Seq<Message>
        decreases n,
    {
        if n <= 0 {
            Seq::empty()
        } else {
            match self.steps[n - 1] {
                Step::Receive { event: Event::Message(message), .. } =>
                    self.received(n - 1).push(message),
                _ => self.received(n - 1),
            }
        }
    }

    /// The messages that the stream yielded in the first `n` steps.
    pub open spec fn delivered(self, n: int) -> Seq<Message>
        decreases n,
    {
        if n <= 0 {
            Seq::empty()
        } else {
            match self.steps[n - 1] {
                Step::Next { poll: Poll::Ready(Some(Ok(message))), .. } =>
                    self.delivered(n - 1).push(message),
                _ => self.delivered(n - 1),
            }
        }
    }

    /// The state of the connection that the events of the first `n` steps tell of: the last of an
    /// opening and a clean close, or connecting if there was neither.
    pub open spec fn told(self, n: int) -> State
        decreases n,
    {
        if n <= 0 {
            State::Connecting
        } else {
            match self.steps[n - 1] {
                Step::Receive { event: Event::Open, .. } => State::Open,
                Step::Receive { event: Event::Close(close), .. } => if close.was_clean {
                    State::Closed
                } else {
                    self.told(n - 1)
                },
                _ => self.told(n - 1),
            }
        }
    }

    /// Whether step `i` is an event that fails the connection.
    pub open spec fn fails(self, i: int) -> bool {
        self.steps[i] matches Step::Receive { event, .. } && event.is_failure()
    }
}

/// At every moment, the messages that the stream has yielded, followed by those that wait to be
/// taken, are the messages received: in their order, none lost and none twice.
pub proof fn messages_are_delivered_in_order(run: Run, n: int)
    requires
        run.valid(),
        0 <= n <= run.steps.len(),
    ensures
        run.delivered(n) + run.states[n].messages == run.received(n),
        run.delivered(n).is_prefix_of(run.received(n)),
    decreases n,
{
    if n > 0 {
        messages_are_delivered_in_order(run, n - 1);
        assert(run.leads(n - 1));
        let before = run.states[n - 1];
        if run.steps[n - 1] is Next && before.next() matches Poll::Ready(Some(Ok(_))) {
            assert(before.messages == seq![before.messages[0]] + before.messages.drop_first());
        }
    }
    assert(run.delivered(n) + run.states[n].messages == run.received(n));
}

/// While the connection has not failed, polls of the stream in a row yield the messages that wait,
/// oldest first. If the connection is closed, all further polls yield the end of the stream.
pub proof fn stream_drains_then_ends(run: Run, start: int, n: int)
    requires
        run.valid(),
        0 <= start <= n < run.steps.len(),
        forall|i: int| start <= i <= n ==> (#[trigger] run.steps[i]) is Next,
        !run.states[start].has_errd,
    ensures
        ({
            let waiting = run.states[start].messages;
            let poll = run.steps[n]->Next_poll;
            &&& n - start < waiting.len() ==> poll == Poll::Ready(
                Some(Ok::<Message, ConnectionError>(waiting[n - start])),
            )
            &&& n - start >= waiting.len() && run.states[start].ws_state is Closed ==> poll
                == Poll::Ready(None::<Result<Message, ConnectionError>>)
        }),
{
    draining(run, start, n);
    assert(run.leads(n));
}

/// After polls of the stream in a row, the waiting messages are fewer by one for each of them.
proof fn draining(run: Run, start: int, n: int)
    requires
        run.valid(),
        0 <= start <= n <= run.steps.len(),
        forall|i: int| start <= i < n ==> (#[trigger] run.steps[i]) is Next,
        !run.states[start].has_errd,
    ensures
        !run.states[n].has_errd,
        run.states[n].ws_state == run.states[start].ws_state,
        n - start <= run.states[start].messages.len() ==> run.states[n].messages
            == run.states[start].messages.skip(n - start),
        n - start > run.states[start].messages.len() ==> run.states[n].messages.len() == 0,
    decreases n,
{
    if n > start {
        draining(run, start, n - 1);
        assert(run.leads(n - 1));
    }
}

/// The state of the connection is the one that the events tell of. No poll changes it, and it is
/// never merely closing.
pub proof fn events_tell_the_state(run: Run, n: int)
    requires
        run.valid(),
        0 <= n <= run.steps.len(),
    ensures
        run.states[n].ws_state == run.told(n),
        !(run.states[n].ws_state is Closing),
    decreases n,
{
    if n > 0 {
        events_tell_the_state(run, n - 1);
        assert(run.leads(n - 1));
    }
}

/// No task is ever left waiting on a connection that has failed.
pub proof fn no_task_waits_on_a_failed_connection(run: Run, n: int)
    requires
        run.valid(),
        0 <= n <= run.steps.len(),
    ensures
        run.states[n].inv(),
    decreases n,
{
    if n > 0 {
        no_task_waits_on_a_failed_connection(run, n - 1);
        assert(run.leads(n - 1));
    }
}

/// The connection has failed exactly if there was an error, or a close that was not clean.
pub proof fn connection_fails_by_events_alone(run: Run, n: int)
    requires
        run.valid(),
        0 <= n <= run.steps.len(),
    ensures
        run.states[n].has_errd <==> exists|i: int| 0 <= i < n && #[trigger] run.fails(i),
    decreases n,
{
    if n > 0 {
        connection_fails_by_events_alone(run, n - 1);
        assert(run.leads(n - 1));
        if run.states[n].has_errd && !run.states[n - 1].has_errd {
            assert(run.fails(n - 1));
        }
    }
}

/// A failure is final: nothing changes after it, no event comes, and every poll reports it.
pub proof fn failure_is_final(run: Run, failed: int, n: int)
    requires
        run.valid(),
        0 <= failed <= n <= run.steps.len(),
        run.states[failed].has_errd,
    ensures
        run.states[n] == run.states[failed],
        forall|i: int| failed <= i < n ==> (#[trigger] run.steps[i]).reports_failure(),
    decreases n,
{
    if n > failed {
        failure_is_final(run, failed, n - 1);
        assert(run.leads(n - 1));
    }
}

/// A task that was told to wait is woken by the next event: that event gives back a clone of the
/// waker which the task left with its poll.
pub proof fn waiting_task_is_woken(run: Run, waits: int, wakes: int)
    requires
        run.valid(),
        0 <= waits < wakes < run.steps.len(),
        run.steps[waits].left_waiting() is Some,
        forall|i: int| waits < i < wakes ==> !((#[trigger] run.steps[i]) is Receive),
        run.steps[wakes] is Receive,
    ensures
        run.steps[wakes]->woken matches Some(woken) && cloned(
            run.steps[waits].left_waiting()->0,
            woken,
        ),
{
    waiting_task_stays(run, waits, wakes);
    assert(run.leads(wakes));
}

/// A waker that was left with a poll stays where it is until the next event.
proof fn waiting_task_stays(run: Run, waits: int, n: int)
    requires
        run.valid(),
        0 <= waits < n <= run.steps.len(),
        run.steps[waits].left_waiting() is Some,
        forall|i: int| waits < i < n ==> !((#[trigger] run.steps[i]) is Receive),
    ensures
        run.states[n].waker matches Some(kept) && cloned(
            run.steps[waits].left_waiting()->0,
            kept,
        ),
    decreases n,
{
    assert(run.leads(n - 1));
    if n > waits + 1 {
        waiting_task_stays(run, waits, n - 1);
    }
}

/// A sink that says it is ready takes the next message, over a socket that is connected; and a
/// sink takes a message only if it would say that it is ready.
pub proof fn ready_sink_takes_a_message(state: StateView, socket: State)
    ensures
        state.ready() == Poll::Ready(Ok::<(), ConnectionError>(())) <==> state.accepts_send(),
        state.accepts_send() && !(socket is Connecting) ==> state.may_start_send(socket),
{
}

/// A sink that said it is ready stays so until the next event: the message handed to it by then is
/// taken.
pub proof fn ready_sink_takes_the_next_message(run: Run, asked: int, n: int)
    requires
        run.valid(),
        0 <= asked < n <= run.steps.len(),
        run.steps[asked] matches Step::Ready { ready, .. } && ready == Poll::Ready(
            Ok::<(), ConnectionError>(()),
        ),
        forall|i: int| asked < i < n ==> !((#[trigger] run.steps[i]) is Receive),
    ensures
        run.states[n].accepts_send(),
    decreases n,
{
    assert(run.leads(n - 1));
    if n > asked + 1 {
        ready_sink_takes_the_next_message(run, asked, n - 1);
    }
}

/// Polling the sink to close, until the connection is closed, ends with success after a clean
/// close and with an error after one that was not.
pub proof fn closing_ends_with_the_close_event(state: StateView, close: CloseEvent)
    requires
        !state.has_errd,
    ensures
        state.receive(Event::Close(close)).close() == (if close.was_clean {
            Poll::Ready(Ok::<(), ConnectionError>(()))
        } else {
            Poll::Ready(Err(ConnectionError))
        }),
        state.starts_closing() ==> state.close() is Pending,
{
}

/// A close that was not clean is the same to a polled websocket as an error.
pub proof fn unclean_close_is_an_error(state: StateView, close: CloseEvent)
    requires
        !close.was_clean,
    ensures
        state.receive(Event::Close(close)) == state.receive(Event::Error),
{
}

/// Once the connection is closed, the sink refuses messages, and closing it succeeds at once.
pub proof fn closed_sink_refuses_messages(state: StateView, socket: State)
    requires
        !state.has_errd,
        state.ws_state is Closed,
    ensures
        state.ready() == Poll::Ready(Err::<(), ConnectionError>(ConnectionError)),
        state.may_start_send(socket) && !state.accepts_send(),
        state.close() == Poll::Ready(Ok::<(), ConnectionError>(())),
{
}

/// Once the connection has failed, the sink refuses messages, whatever else is asked.
pub proof fn failed_sink_refuses_messages(state: StateView, socket: State)
    requires
        state.has_errd,
    ensures
        state.may_start_send(socket) && !state.accepts_send(),
{
}

/// A message that arrives before the connection fails is not yielded after it, though it was never
/// taken: the failure comes first.
pub proof fn failure_comes_before_waiting_messages(state: StateView, event: Event)
    requires
        state.may_receive(),
        event.is_failure(),
    ensures
        state.receive(event).next() == Poll::Ready(
            Some(Err::<Message, ConnectionError>(ConnectionError)),
        ),
        state.receive(event).messages == state.messages,
{
}

/// A socket over which it is possible to send does not refuse a message.
pub proof fn socket_that_can_send_takes_a_message(socket: callback::WebSocket)
    requires
        socket@ is Open,
    ensures
        !socket.refuses_messages(),
{
}

/// No two states are reported by the same number.
pub proof fn ready_states_are_distinct(a: State, b: State)
    requires
        a.ready_state() == b.ready_state(),
    ensures
        a == b,
{
}

/// A message is either binary or text, and not both.
pub proof fn message_is_binary_or_text(message: Message)
    ensures
        message.binary() is Some <==> message.text() is None,
{
}

/// What arrives as text reads back as that text, and what arrives as a buffer and not as text
/// reads back as its bytes.
pub proof fn decoded_message_reads_back(text: Option<String>, buffer: Option<Vec<u8>>)
    requires
        text is Some || buffer is Some,
    ensures
        Message::decoded(text, buffer) matches Some(message) && (match text {
            Some(t) => message.text() == Some(t@),
            None => message.binary() == Some(buffer->0@),
        }),
{
}

/// A frame carries one string at most, and no bytes besides.
pub proof fn text_frame_carries_one_string(a: &str, b: &str, c: &[u8], frame: Frame<'_>)
    requires
        a.carried_by(frame),
    ensures
        b.carried_by(frame) <==> a@ == b@,
        !c.carried_by(frame),
{
}

/// A frame carries one sequence of bytes at most, and no string besides.
pub proof fn binary_frame_carries_one_sequence(a: &[u8], b: &[u8], c: &str, frame: Frame<'_>)
    requires
        a.carried_by(frame),
    ensures
        b.carried_by(frame) <==> a@ == b@,
        !c.carried_by(frame),
{
}

} // verus!
