use gloo_websocket::callback::{CloseRequest, WebSocket};
use gloo_websocket::{CloseError, ConnectError, Frame, Message, SendError, State};

fn observed(ready_state: u16) -> WebSocket {
    WebSocket::observe(ready_state).unwrap()
}

#[test]
fn ready_states_name_the_four_states() {
    assert_eq!(observed(0).state(), State::Connecting);
    assert_eq!(observed(1).state(), State::Open);
    assert_eq!(observed(2).state(), State::Closing);
    assert_eq!(observed(3).state(), State::Closed);
    assert!(WebSocket::observe(4).is_none());
    assert!(WebSocket::observe(u16::MAX).is_none());
}

#[test]
fn ready_states_agree_with_the_browser_bindings() {
    assert_eq!(observed(web_sys::WebSocket::CONNECTING).state(), State::Connecting);
    assert_eq!(observed(web_sys::WebSocket::OPEN).state(), State::Open);
    assert_eq!(observed(web_sys::WebSocket::CLOSING).state(), State::Closing);
    assert_eq!(observed(web_sys::WebSocket::CLOSED).state(), State::Closed);
}

#[test]
fn state_predicates() {
    let answers = |state: State| {
        (
            state.is_connecting(),
            state.is_open(),
            state.is_closing(),
            state.is_closed(),
        )
    };
    assert_eq!(answers(State::Connecting), (true, false, false, false));
    assert_eq!(answers(State::Open), (false, true, false, false));
    assert_eq!(answers(State::Closing), (false, false, true, false));
    assert_eq!(answers(State::Closed), (false, false, false, true));
}

#[test]
fn only_an_open_socket_can_send() {
    assert!(!observed(0).can_send());
    assert!(observed(1).can_send());
    assert!(!observed(2).can_send());
    assert!(!observed(3).can_send());
}

#[test]
fn sending_is_refused_while_connecting() {
    assert_eq!(observed(0).send("Hello"), Err(SendError));
    assert_eq!(observed(0).send(&b"Hello"[..]), Err(SendError));
}

#[test]
fn text_is_sent_as_text_and_bytes_as_binary() {
    assert_eq!(observed(1).send("Hello"), Ok(Frame::Text("Hello")));
    assert_eq!(
        observed(1).send(&b"Hello"[..]),
        Ok(Frame::Binary(&b"Hello"[..]))
    );
    assert_eq!(observed(1).send(""), Ok(Frame::Text("")));
}

#[test]
fn sending_is_not_refused_after_the_connection() {
    assert_eq!(observed(2).send("Hello"), Ok(Frame::Text("Hello")));
    assert_eq!(observed(3).send("Hello"), Ok(Frame::Text("Hello")));
}

#[test]
fn echo() {
    let told = |frame: Frame| {
        let message = match frame {
            Frame::Text(text) => Message::decode(Some(text.to_owned()), None),
            Frame::Binary(bytes) => Message::decode(None, Some(bytes.to_vec())),
        };
        match message.unwrap() {
            Message::Binary(msg) => format!("MESSAGE BINARY {}", String::from_utf8_lossy(&msg)),
            Message::Text(msg) => format!("MESSAGE TEXT {}", msg),
        }
    };
    let ws = observed(1);
    assert_eq!(told(ws.send("Hello").unwrap()), "MESSAGE TEXT Hello");
    assert_eq!(
        told(ws.send(&b"Hello"[..]).unwrap()),
        "MESSAGE BINARY Hello"
    );
}

#[test]
fn plain_close() {
    assert_eq!(observed(1).close(), CloseRequest::Plain);
}

#[test]
fn close_codes() {
    let socket = observed(1);
    for code in [1000u16, 3000, 3001, 4998, 4999] {
        match socket.close_with_reason(code, None) {
            Ok(request) => assert_eq!(request, CloseRequest::Code(code)),
            Err(_) => panic!("code {} was refused", code),
        }
    }
    for code in [0u16, 999, 1001, 1005, 2999, 5000, u16::MAX] {
        match socket.close_with_reason(code, None) {
            Err(CloseError::InvalidCode(found)) => assert_eq!(found, code),
            _ => panic!("code {} was not refused", code),
        }
    }
}

#[test]
fn close_reasons_are_measured_in_bytes() {
    let socket = observed(1);
    let fits = "x".repeat(123);
    match socket.close_with_reason(3000, Some(&fits)) {
        Ok(request) => assert_eq!(request, CloseRequest::CodeAndReason(3000, &fits)),
        Err(_) => panic!("a reason of 123 bytes was refused"),
    }
    match socket.close_with_reason(1000, Some("")) {
        Ok(request) => assert_eq!(request, CloseRequest::CodeAndReason(1000, "")),
        Err(_) => panic!("an empty reason was refused"),
    }
    let long = "x".repeat(124);
    match socket.close_with_reason(1000, Some(&long)) {
        Err(CloseError::InvalidReason(found)) => assert_eq!(found, long),
        _ => panic!("a reason of 124 bytes was not refused"),
    }
    // 62 characters, 124 bytes.
    let wide = "\u{e9}".repeat(62);
    match socket.close_with_reason(1000, Some(&wide)) {
        Err(CloseError::InvalidReason(found)) => assert_eq!(found, wide),
        _ => panic!("a reason of 124 bytes was not refused"),
    }
    let wide_fits = "\u{e9}".repeat(61);
    assert!(socket.close_with_reason(1000, Some(&wide_fits)).is_ok());
}

#[test]
fn an_invalid_code_is_reported_before_an_invalid_reason() {
    let long = "x".repeat(124);
    match observed(1).close_with_reason(1001, Some(&long)) {
        Err(CloseError::InvalidCode(found)) => assert_eq!(found, 1001),
        _ => panic!("the code was not refused"),
    }
}

#[test]
fn close_error_messages() {
    assert_eq!(
        CloseError::InvalidCode(1001).message(),
        "expected a number in the set `1000 | 3000..=4999`, found 1001"
    );
    assert_eq!(
        CloseError::InvalidCode(0).message(),
        "expected a number in the set `1000 | 3000..=4999`, found 0"
    );
    assert_eq!(
        CloseError::InvalidCode(65535).message(),
        "expected a number in the set `1000 | 3000..=4999`, found 65535"
    );
    assert_eq!(
        CloseError::InvalidReason("h\u{e9}".to_owned()).message(),
        "expected a string with length <= 123, found one with length 3 (\"h\u{e9}\")"
    );
    let long = "x".repeat(1024);
    assert_eq!(
        CloseError::InvalidReason(long.clone()).message(),
        format!(
            "expected a string with length <= 123, found one with length {} (\"{}\")",
            1024, long
        )
    );
}

#[test]
fn other_error_messages() {
    assert_eq!(
        SendError.message(),
        "tried to send a message before the websocket connection was established"
    );
    let error = ConnectError::from_message("The URL 'x' is invalid.".to_owned());
    assert_eq!(error.message(), "The URL 'x' is invalid.");
}

#[test]
fn message_data_is_decoded() {
    let text = Message::decode(Some("Hello".to_owned()), None).unwrap();
    assert_eq!(text.as_text(), Some("Hello"));
    assert_eq!(text.as_binary(), None);

    let binary = Message::decode(None, Some(b"Hello".to_vec())).unwrap();
    assert_eq!(binary.as_binary(), Some(&b"Hello"[..]));
    assert_eq!(binary.as_text(), None);

    let both = Message::decode(Some("text".to_owned()), Some(b"bytes".to_vec())).unwrap();
    assert_eq!(both.as_text(), Some("text"));

    assert!(Message::decode(None, None).is_none());
}
