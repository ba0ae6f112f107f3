//! What a polled websocket answers, told by the events that it has received.
//!
//! The laws of this module look at nothing but the steps of a run: which events came, in which
//! order, and what was yielded before.

use std::task::{Poll, Waker};

use vstd::prelude::*;

use crate::event::Event;
use crate::futures::{Closing, ConnectionError, NextPoll, SinkPoll};
use crate::laws::{messages_are_delivered_in_order, Run, Step};
use crate::message::Message;
use crate::state::State;

verus! {

impl Run {
    /// Whether step `i` is the event that the connection is open.
    pub open spec fn opens(self, i: int) -> bool {
        self.steps[i] matches Step::Receive { event: Event::Open, .. }
    }

    /// Whether step `i` is the event that the connection was closed, cleanly.
    pub open spec fn closes(self, i: int) -> bool {
        self.steps[i] matches Step::Receive { event: Event::Close(close), .. } && close.was_clean
    }

    /// Whether step `i` is an error, or the event that the connection was closed, but not cleanly.
    pub open spec fn breaks(self, i: int) -> bool {
        match self.steps[i] {
            Step::Receive { event: Event::Error, .. } => true,
            Step::Receive { event: Event::Close(close), .. } => !close.was_clean,
            _ => false,
        }
    }

    /// Whether an event of the first `n` steps has broken the connection.
    pub open spec fn broken(self, n: int) -> bool {
        exists|i: int| 0 <= i < n && #[trigger] self.breaks(i)
    }

    /// Whether the connection was opened in the first `n` steps, and not closed since.
    pub open spec fn opened(self, n: int) -> bool {
        exists|i: int|
            0 <= i < n && #[trigger] self.opens(i) && forall|j: int|
                i < j < n ==> !#[trigger] self.closes(j)
    }

    /// Whether the connection was closed in the first `n` steps, and not opened since.
    pub open spec fn closed(self, n: int) -> bool {
        exists|i: int|
            0 <= i < n && #[trigger] self.closes(i) && forall|j: int|
                i < j < n ==> !#[trigger] self.opens(j)
    }

    /// Whether the first `n` steps neither opened nor closed the connection.
    pub open spec fn fresh(self, n: int) -> bool {
        &&& forall|i: int| 0 <= i < n ==> !#[trigger] self.opens(i)
        &&& forall|i: int| 0 <= i < n ==> !#[trigger] self.closes(i)
    }

    /// Whether step `i` is a poll that was left without an answer.
    pub open spec fn unanswered(self, i: int) -> bool {
        match self.steps[i] {
            Step::Receive { .. } => false,
            Step::Next { poll, .. } => poll is Pending,
            Step::Ready { ready, .. } => ready is Pending,
            Step::Close { closing, .. } => closing.poll is Pending,
        }
    }

    /// Whether a task waits after the first `n` steps: it polled without getting an answer, and no
    /// event has come since.
    pub open spec fn waited_on(self, n: int) -> bool {
        exists|i: int|
            0 <= i < n && #[trigger] self.unanswered(i) && forall|j: int|
                i < j < n ==> !((#[trigger] self.steps[j]) is Receive)
    }

    /// The run that goes on with `event`.
    pub open spec fn then_receive(self, event: Event) -> Run {
        let last = self.states.last();
        Run {
            states: self.states.push(last.receive(event)),
            steps: self.steps.push(Step::Receive { event, woken: last.waker }),
        }
    }
}

/// The state of the connection is told by the events alone: open since it was opened, closed since
/// it was closed cleanly, connecting before either, never closing; and failed since an event broke
/// it.
pub proof fn events_decide_the_connection(run: Run, n: int)
    requires
        run.valid(),
        0 <= n <= run.steps.len(),
    ensures
        run.states[n].has_errd <==> run.broken(n),
        run.states[n].ws_state is Open <==> run.opened(n),
        run.states[n].ws_state is Closed <==> run.closed(n),
        run.states[n].ws_state is Connecting <==> run.fresh(n),
        !(run.states[n].ws_state is Closing),
{
    broken_iff(run, n);
    opened_iff(run, n);
    closed_iff(run, n);
    fresh_iff(run, n);
    never_closing(run, n);
}

/// The connection has failed exactly if an event broke it.
proof fn broken_iff(run: Run, n: int)
    requires
        run.valid(),
        0 <= n <= run.steps.len(),
    ensures
        run.states[n].has_errd <==> run.broken(n),
    decreases n,
{
    if n > 0 {
        let m = n - 1;
        broken_iff(run, m);
        assert(run.leads(m));
        if run.breaks(m) {
            assert(run.broken(n));
        } else {
            assert(run.broken(n) <==> run.broken(m));
        }
    }
}

/// The connection is open exactly if it was opened and not closed since.
proof fn opened_iff(run: Run, n: int)
    requires
        run.valid(),
        0 <= n <= run.steps.len(),
    ensures
        run.states[n].ws_state is Open <==> run.opened(n),
    decreases n,
{
    if n > 0 {
        let m = n - 1;
        opened_iff(run, m);
        assert(run.leads(m));
        if run.opened(m) && !run.closes(m) {
            let i = choose|i: int|
                0 <= i < m && #[trigger] run.opens(i) && forall|j: int|
                    i < j < m ==> !#[trigger] run.closes(j);
            assert(run.opens(i));
            assert(run.opened(n));
        }
        if run.opened(n) && !run.opens(m) {
            let i = choose|i: int|
                0 <= i < n && #[trigger] run.opens(i) && forall|j: int|
                    i < j < n ==> !#[trigger] run.closes(j);
            assert(0 <= i < m && run.opens(i));
            assert(!run.closes(m));
            assert(run.opened(m));
        }
        if run.opens(m) {
            assert(run.opened(n));
        }
    }
}

/// The connection is closed exactly if it was closed and not opened since.
proof fn closed_iff(run: Run, n: int)
    requires
        run.valid(),
        0 <= n <= run.steps.len(),
    ensures
        run.states[n].ws_state is Closed <==> run.closed(n),
    decreases n,
{
    if n > 0 {
        let m = n - 1;
        closed_iff(run, m);
        assert(run.leads(m));
        if run.closed(m) && !run.opens(m) {
            let i = choose|i: int|
                0 <= i < m && #[trigger] run.closes(i) && forall|j: int|
                    i < j < m ==> !#[trigger] run.opens(j);
            assert(run.closes(i));
            assert(run.closed(n));
        }
        if run.closed(n) && !run.closes(m) {
            let i = choose|i: int|
                0 <= i < n && #[trigger] run.closes(i) && forall|j: int|
                    i < j < n ==> !#[trigger] run.opens(j);
            assert(0 <= i < m && run.closes(i));
            assert(!run.opens(m));
            assert(run.closed(m));
        }
        if run.closes(m) {
            assert(run.closed(n));
        }
    }
}

/// The connection is connecting exactly if it was neither opened nor closed.
proof fn fresh_iff(run: Run, n: int)
    requires
        run.valid(),
        0 <= n <= run.steps.len(),
    ensures
        run.states[n].ws_state is Connecting <==> run.fresh(n),
    decreases n,
{
    if n > 0 {
        let m = n - 1;
        fresh_iff(run, m);
        assert(run.leads(m));
        assert(run.fresh(n) <==> run.fresh(m) && !run.opens(m) && !run.closes(m));
    }
}

/// A task waits exactly if a poll was left without an answer and no event has come since.
pub proof fn polls_decide_who_waits(run: Run, n: int)
    requires
        run.valid(),
        0 <= n <= run.steps.len(),
    ensures
        run.states[n].waker is Some <==> run.waited_on(n),
    decreases n,
{
    if n > 0 {
        let m = n - 1;
        polls_decide_who_waits(run, m);
        assert(run.leads(m));
        if run.unanswered(m) {
            assert(run.waited_on(n));
        } else if !(run.steps[m] is Receive) {
            if run.waited_on(m) {
                let i = choose|i: int|
                    0 <= i < m && #[trigger] run.unanswered(i) && forall|j: int|
                        i < j < m ==> !((#[trigger] run.steps[j]) is Receive);
                assert(run.unanswered(i));
                assert(run.waited_on(n));
            }
            if run.waited_on(n) {
                let i = choose|i: int|
                    0 <= i < n && #[trigger] run.unanswered(i) && forall|j: int|
                        i < j < n ==> !((#[trigger] run.steps[j]) is Receive);
                assert(0 <= i < m && run.unanswered(i));
                assert(run.waited_on(m));
            }
        }
    }
}

/// An event wakes a task exactly if one waits.
pub proof fn events_wake_whoever_waits(run: Run, n: int, woken: Option<Waker>)
    requires
        run.valid(),
        0 <= n < run.steps.len(),
        run.steps[n] matches Step::Receive { woken: w, .. } && w == woken,
    ensures
        woken is Some <==> run.waited_on(n),
{
    polls_decide_who_waits(run, n);
    assert(run.leads(n));
}

/// A poll of the stream yields an error exactly if an event has broken the connection. Else it
/// yields the oldest message received and not yet yielded, if there is one. Else it yields the end
/// exactly if the connection is closed, and otherwise waits: in particular it waits on a connection
/// that is not open yet.
pub proof fn stream_answers_by_the_events(run: Run, n: int, poll: NextPoll)
    requires
        run.valid(),
        0 <= n < run.steps.len(),
        run.steps[n] matches Step::Next { poll: p, .. } && p == poll,
    ensures
        poll matches Poll::Ready(Some(Err(_))) <==> run.broken(n),
        !run.broken(n) && run.delivered(n).len() < run.received(n).len() ==> poll == Poll::Ready(
            Some(Ok::<Message, ConnectionError>(run.received(n)[run.delivered(n).len() as int])),
        ),
        !run.broken(n) && run.delivered(n) == run.received(n) && run.closed(n) ==> poll
            == Poll::Ready(None::<Result<Message, ConnectionError>>),
        !run.broken(n) && run.delivered(n) == run.received(n) && !run.closed(n) ==> poll
            is Pending,
{
    events_decide_the_connection(run, n);
    messages_are_delivered_in_order(run, n);
    assert(run.leads(n));
    let waiting = run.states[n].messages;
    assert((run.delivered(n) + waiting).len() == run.received(n).len());
    if waiting.len() > 0 {
        assert((run.delivered(n) + waiting)[run.delivered(n).len() as int] == waiting[0]);
    }
    if run.delivered(n) == run.received(n) {
        assert(waiting.len() == 0);
    }
}

/// The stream ends only after a clean close: the connection was closed, cleanly, and not opened
/// since; nothing broke it; and all messages that came have been yielded.
pub proof fn stream_ends_only_after_a_clean_close(run: Run, n: int)
    requires
        run.valid(),
        0 <= n < run.steps.len(),
        run.steps[n] matches Step::Next { poll, .. } && (poll matches Poll::Ready(None)),
    ensures
        exists|i: int|
            0 <= i < n && ((#[trigger] run.steps[i]) matches Step::Receive {
                event: Event::Close(close),
                ..
            } && close.was_clean) && forall|j: int|
                i < j < n ==> !((#[trigger] run.steps[j]) matches Step::Receive {
                    event: Event::Open,
                    ..
                }),
        forall|i: int|
            0 <= i < n ==> !((#[trigger] run.steps[i]) matches Step::Receive {
                event: Event::Error,
                ..
            }),
        run.delivered(n) == run.received(n),
{
    let poll = run.steps[n]->Next_poll;
    stream_answers_by_the_events(run, n, poll);
    messages_are_delivered_in_order(run, n);
    events_decide_the_connection(run, n);
    assert(run.leads(n));
    assert(run.states[n].messages.len() == 0);
    assert(run.delivered(n) + run.states[n].messages == run.delivered(n));
    let i = choose|i: int|
        0 <= i < n && #[trigger] run.closes(i) && forall|j: int|
            i < j < n ==> !#[trigger] run.opens(j);
    assert(0 <= i < n && run.closes(i));
    assert forall|j: int| i < j < n implies !((#[trigger] run.steps[j]) matches Step::Receive {
        event: Event::Open,
        ..
    }) by {
        assert(!run.opens(j));
    }
    assert(run.steps[i] matches Step::Receive { event: Event::Close(close), .. }
        && close.was_clean);
    assert forall|k: int| 0 <= k < n implies !((#[trigger] run.steps[k]) matches Step::Receive {
        event: Event::Error,
        ..
    }) by {
        assert(!run.breaks(k));
    }
}

/// Asked whether it is ready, the sink fails exactly if an event has broken the connection or the
/// connection is closed; says yes exactly if the connection is open; and waits exactly if it has
/// been neither opened nor closed. It makes no difference which messages have come or were taken.
pub proof fn sink_answers_by_the_events(run: Run, n: int, ready: SinkPoll)
    requires
        run.valid(),
        0 <= n < run.steps.len(),
        run.steps[n] matches Step::Ready { ready: r, .. } && r == ready,
    ensures
        ready matches Poll::Ready(Err(_)) <==> run.broken(n) || run.closed(n),
        ready matches Poll::Ready(Ok(_)) <==> !run.broken(n) && run.opened(n),
        ready is Pending <==> !run.broken(n) && run.fresh(n),
{
    events_decide_the_connection(run, n);
    assert(run.leads(n));
}

/// Polled to close, the sink fails exactly if an event has broken the connection, succeeds exactly
/// if the connection is closed, and else waits. It starts the closing handshake whenever it waits:
/// on a connection that is open, or is not open yet, whichever messages have come or were taken.
pub proof fn closing_answers_by_the_events(run: Run, n: int, closing: Closing)
    requires
        run.valid(),
        0 <= n < run.steps.len(),
        run.steps[n] matches Step::Close { closing: c, .. } && c == closing,
    ensures
        closing.poll matches Poll::Ready(Err(_)) <==> run.broken(n),
        closing.poll matches Poll::Ready(Ok(_)) <==> !run.broken(n) && run.closed(n),
        closing.poll is Pending <==> !run.broken(n) && (run.opened(n) || run.fresh(n)),
        closing.start <==> closing.poll is Pending,
{
    events_decide_the_connection(run, n);
    assert(run.leads(n));
}

/// A message handed to the sink is taken exactly if the connection is open and nothing has broken
/// it, whichever messages have come or were taken. It may be handed over unless the connection has
/// been neither opened, nor closed, nor broken, or is open and the socket has not noticed.
pub proof fn sink_takes_messages_by_the_events(run: Run, n: int, socket: State)
    requires
        run.valid(),
        0 <= n <= run.steps.len(),
    ensures
        run.states[n].accepts_send() <==> run.opened(n) && !run.broken(n),
        run.states[n].may_start_send(socket) <==> (run.broken(n) || run.closed(n) || (run.opened(n)
            && !(socket is Connecting))),
{
    events_decide_the_connection(run, n);
}

/// The state of the connection is never merely closing.
proof fn never_closing(run: Run, n: int)
    requires
        run.valid(),
        0 <= n <= run.steps.len(),
    ensures
        !(run.states[n].ws_state is Closing),
    decreases n,
{
    if n > 0 {
        never_closing(run, n - 1);
        assert(run.leads(n - 1));
    }
}

/// Whenever no task waits, every poll is allowed; and a task that waits forbids only the polls that
/// would have to wait too.
pub proof fn polls_are_allowed(run: Run, n: int)
    requires
        run.valid(),
        0 <= n <= run.steps.len(),
    ensures
        run.states[n].may_poll_next() <==> (!run.waited_on(n) || run.broken(n)
            || run.delivered(n).len() < run.received(n).len() || run.closed(n)),
        run.states[n].may_poll_ready() <==> (!run.waited_on(n) || run.broken(n) || !run.fresh(n)),
        run.states[n].may_poll_close() <==> (!run.waited_on(n) || run.broken(n) || run.closed(n)),
{
    events_decide_the_connection(run, n);
    polls_decide_who_waits(run, n);
    messages_are_delivered_in_order(run, n);
    assert((run.delivered(n) + run.states[n].messages).len() == run.received(n).len());
}

/// As long as no event has broken the connection, and no longer, any event may come next. A message
/// that comes is then the last of those received, however many wait to be taken.
pub proof fn any_event_may_come_next(run: Run, event: Event)
    requires
        run.valid(),
    ensures
        run.states.last().may_receive() <==> !run.broken(run.steps.len() as int),
        !run.broken(run.steps.len() as int) ==> run.then_receive(event).valid(),
        event matches Event::Message(message) ==> run.then_receive(event).received(
            run.steps.len() as int + 1,
        ) == run.received(run.steps.len() as int).push(message),
{
    let n = run.steps.len() as int;
    events_decide_the_connection(run, n);
    let next = run.then_receive(event);
    if !run.broken(n) {
        assert forall|i: int| 0 <= i < next.steps.len() implies #[trigger] next.leads(i) by {
            if i < n {
                assert(run.leads(i));
                assert(next.steps[i] == run.steps[i]);
            }
        }
    }
    same_received(run, next, n);
    assert(next.steps[n] == next.steps.last());
}

/// What was received in the first `n` steps depends on those steps alone.
proof fn same_received(a: Run, b: Run, n: int)
    requires
        0 <= n <= a.steps.len(),
        0 <= n <= b.steps.len(),
        forall|i: int| 0 <= i < n ==> #[trigger] a.steps[i] == b.steps[i],
    ensures
        a.received(n) == b.received(n),
    decreases n,
{
    if n > 0 {
        same_received(a, b, n - 1);
        assert(a.steps[n - 1] == b.steps[n - 1]);
    }
}

/// Every message that came is among those received, behind those that came before it.
pub proof fn every_message_that_comes_is_received(run: Run, i: int, n: int)
    requires
        0 <= i < n <= run.steps.len(),
        run.steps[i] matches Step::Receive { event: Event::Message(_), .. },
    ensures
        run.received(i).len() < run.received(n).len(),
        run.steps[i] matches Step::Receive { event: Event::Message(message), .. } && run.received(
            n,
        )[run.received(i).len() as int] == message,
    decreases n,
{
    if n > i + 1 {
        every_message_that_comes_is_received(run, i, n - 1);
    }
}

} // verus!
