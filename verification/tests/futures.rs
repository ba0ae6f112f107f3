use std::sync::atomic::{AtomicUsize, Ordering};
use std::sync::Arc;
use std::task::{Poll, Wake, Waker};

use gloo_websocket::callback;
use gloo_websocket::futures::{ConnectionError, WebSocket};
use gloo_websocket::{CloseEvent, Event, Frame, Message};

struct Alarm(AtomicUsize);

impl Wake for Alarm {
    fn wake(self: Arc<Self>) {
        self.0.fetch_add(1, Ordering::SeqCst);
    }
}

impl Alarm {
    fn new() -> Arc<Alarm> {
        Arc::new(Alarm(AtomicUsize::new(0)))
    }

    fn rung(&self) -> usize {
        self.0.load(Ordering::SeqCst)
    }
}

fn sleeper() -> Waker {
    Waker::from(Alarm::new())
}

fn text(message: &str) -> Event {
    Event::Message(Message::Text(message.to_owned()))
}

fn close(was_clean: bool) -> Event {
    Event::Close(CloseEvent {
        was_clean,
        code: 1000,
        reason: "done".to_owned(),
    })
}

fn received(message: &str) -> Poll<Option<Result<Message, ConnectionError>>> {
    Poll::Ready(Some(Ok(Message::Text(message.to_owned()))))
}

fn opened() -> WebSocket {
    let mut ws = WebSocket::connect();
    assert!(ws.receive(Event::Open).is_none());
    ws
}

fn open_socket() -> callback::WebSocket {
    callback::WebSocket::observe(1).unwrap()
}

#[test]
fn echo_async() {
    let waker = sleeper();
    let mut ws = WebSocket::connect();

    // Sending waits for the socket to be set up.
    assert_eq!(ws.poll_ready(&waker), Poll::Pending);
    assert!(ws.receive(Event::Open).is_some());
    assert_eq!(ws.poll_ready(&waker), Poll::Ready(Ok(())));
    match ws.start_send(&open_socket(), "Hello") {
        Ok(frame) => assert_eq!(frame, Frame::Text("Hello")),
        Err(_) => panic!("the text was refused"),
    }
    assert_eq!(ws.poll_flush(0).poll, Poll::Ready(Ok(())));
    assert_eq!(ws.poll_next(&waker), Poll::Pending);
    let echo = Message::decode(Some("Hello".to_owned()), None).unwrap();
    assert!(ws.receive(Event::Message(echo)).is_some());
    match ws.poll_next(&waker) {
        Poll::Ready(Some(Ok(message))) => assert_eq!(message.as_text(), Some("Hello")),
        _ => panic!("the text did not come back"),
    }

    assert_eq!(ws.poll_ready(&waker), Poll::Ready(Ok(())));
    match ws.start_send(&open_socket(), &b"Hello"[..]) {
        Ok(frame) => assert_eq!(frame, Frame::Binary(&b"Hello"[..])),
        Err(_) => panic!("the bytes were refused"),
    }
    let echo = Message::decode(None, Some(b"Hello".to_vec())).unwrap();
    assert!(ws.receive(Event::Message(echo)).is_none());
    match ws.poll_next(&waker) {
        Poll::Ready(Some(Ok(message))) => {
            assert_eq!(message.as_binary(), Some(&b"Hello"[..]))
        }
        _ => panic!("the bytes did not come back"),
    }

    let closing = ws.poll_close(&waker);
    assert!(closing.start);
    assert_eq!(closing.poll, Poll::Pending);
    assert!(ws.receive(close(true)).is_some());
    let closing = ws.poll_close(&waker);
    assert!(!closing.start);
    assert_eq!(closing.poll, Poll::Ready(Ok(())));
}

#[test]
fn messages_come_in_order_and_once() {
    let waker = sleeper();
    let mut ws = opened();
    ws.receive(text("a"));
    ws.receive(text("b"));
    assert_eq!(ws.poll_next(&waker), received("a"));
    ws.receive(text("c"));
    assert_eq!(ws.poll_next(&waker), received("b"));
    assert_eq!(ws.poll_next(&waker), received("c"));
    assert_eq!(ws.poll_next(&waker), Poll::Pending);
}

#[test]
fn a_closed_stream_drains_and_ends() {
    let waker = sleeper();
    let mut ws = opened();
    ws.receive(text("a"));
    ws.receive(text("b"));
    ws.receive(close(true));
    assert_eq!(ws.poll_next(&waker), received("a"));
    assert_eq!(ws.poll_next(&waker), received("b"));
    assert_eq!(ws.poll_next(&waker), Poll::Ready(None));
    assert_eq!(ws.poll_next(&waker), Poll::Ready(None));
}

#[test]
fn the_waiting_task_is_woken_by_the_next_event() {
    let alarm = Alarm::new();
    let other = Alarm::new();
    let mut ws = opened();
    assert_eq!(ws.poll_next(&Waker::from(alarm.clone())), Poll::Pending);
    ws.receive(text("a")).unwrap().wake();
    assert_eq!(alarm.rung(), 1);
    // Nobody waits any more.
    assert!(ws.receive(text("b")).is_none());
    // A poll that has something to say leaves no waker.
    assert_eq!(ws.poll_next(&Waker::from(other.clone())), received("a"));
    assert!(ws.receive(text("c")).is_none());
    assert_eq!(other.rung(), 0);
}

#[test]
fn the_waker_survives_polls_that_need_none() {
    let alarm = Alarm::new();
    let waker = sleeper();
    let mut ws = opened();
    assert_eq!(ws.poll_next(&Waker::from(alarm.clone())), Poll::Pending);
    assert_eq!(ws.poll_ready(&waker), Poll::Ready(Ok(())));
    ws.receive(text("a")).unwrap().wake();
    assert_eq!(alarm.rung(), 1);
}

#[test]
fn two_tasks_cannot_wait_at_once() {
    let waker = sleeper();
    let mut ws = WebSocket::connect();
    assert!(ws.may_poll_next() && ws.may_poll_ready() && ws.may_poll_close());
    assert_eq!(ws.poll_ready(&waker), Poll::Pending);
    assert!(!ws.may_poll_next() && !ws.may_poll_ready() && !ws.may_poll_close());
    ws.receive(Event::Open).unwrap();
    assert_eq!(ws.poll_next(&waker), Poll::Pending);
    // An open sink answers at once, so it may be asked.
    assert!(!ws.may_poll_next() && ws.may_poll_ready() && !ws.may_poll_close());
}

#[test]
fn an_error_is_final() {
    let waker = sleeper();
    let mut ws = opened();
    ws.receive(text("a"));
    ws.receive(Event::Error);
    assert!(!ws.may_receive());
    for _ in 0..3 {
        assert_eq!(
            ws.poll_next(&waker),
            Poll::Ready(Some(Err(ConnectionError)))
        );
        assert_eq!(ws.poll_ready(&waker), Poll::Ready(Err(ConnectionError)));
        let closing = ws.poll_close(&waker);
        assert!(!closing.start);
        assert_eq!(closing.poll, Poll::Ready(Err(ConnectionError)));
        assert_eq!(ws.start_send(&open_socket(), "x"), Err(ConnectionError));
    }
}

#[test]
fn an_error_wakes_the_waiting_task() {
    let alarm = Alarm::new();
    let mut ws = opened();
    assert_eq!(ws.poll_next(&Waker::from(alarm.clone())), Poll::Pending);
    ws.receive(Event::Error).unwrap().wake();
    assert_eq!(alarm.rung(), 1);
}

#[test]
fn an_unclean_close_is_an_error() {
    let waker = sleeper();
    let mut ws = opened();
    ws.receive(close(false));
    assert!(!ws.may_receive());
    assert_eq!(
        ws.poll_next(&waker),
        Poll::Ready(Some(Err(ConnectionError)))
    );
    assert_eq!(
        ws.poll_close(&waker).poll,
        Poll::Ready(Err(ConnectionError))
    );
}

#[test]
fn a_message_is_not_handed_over_before_the_connection() {
    let connecting = callback::WebSocket::observe(0).unwrap();
    let ws = WebSocket::connect();
    assert!(!ws.may_start_send(&connecting));
    assert!(!ws.may_start_send(&open_socket()));
    let ws = opened();
    assert!(!ws.may_start_send(&connecting));
    assert!(ws.may_start_send(&open_socket()));
}

#[test]
fn a_closed_sink_refuses_messages() {
    let waker = sleeper();
    let mut ws = opened();
    ws.receive(close(true));
    let closed = callback::WebSocket::observe(3).unwrap();
    assert!(ws.may_start_send(&closed));
    assert_eq!(ws.start_send(&closed, "x"), Err(ConnectionError));
    assert_eq!(ws.poll_ready(&waker), Poll::Ready(Err(ConnectionError)));
    assert_eq!(ws.poll_close(&waker).poll, Poll::Ready(Ok(())));
}

#[test]
fn closing_starts_the_handshake_from_any_live_state() {
    let waker = sleeper();
    let mut ws = WebSocket::connect();
    let closing = ws.poll_close(&waker);
    assert!(closing.start);
    assert_eq!(closing.poll, Poll::Pending);
    ws.receive(Event::Open).unwrap();
    let closing = ws.poll_close(&waker);
    assert!(closing.start);
    assert_eq!(closing.poll, Poll::Pending);
}

#[test]
fn flushing_never_waits() {
    let ws = opened();
    let flush = ws.poll_flush(0);
    assert_eq!(flush.poll, Poll::Ready(Ok(())));
    assert!(!flush.still_buffered);
    let flush = ws.poll_flush(7);
    assert_eq!(flush.poll, Poll::Ready(Ok(())));
    assert!(flush.still_buffered);
}
