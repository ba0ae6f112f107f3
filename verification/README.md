# gloo-websocket

Websockets of the browser, driven by callbacks or polled as a stream and a sink.

- `src/` holds the rules, verified with Verus: when a message may be sent and as what, which close
  codes and reasons are valid, how events change a polled socket, and what each poll yields.
  `src/laws.rs` states what holds across operations: messages come in order, none lost and none
  twice; a waiting task is woken by the next event; a failure is final.
- `app/` is the socket itself: it asks the browser, listens to its events, and implements `Stream`
  and `Sink`.
- `tests/` runs the rules.
