# ratchet_core

The decisions of a WebSocket session, verified with Verus.

A `WebSocket` is asked to read, to write or to close. It says what the framing layer is to do for
it, and is told afterwards how that went. The framing layer, which turns frames into bytes on a
stream and back, is not part of the library.

- `src/ws.rs`: the WebSocket.
- `src/session.rs`: the session as a state machine, which the contracts in `ws.rs` speak of.
- `src/laws.rs`: what holds of a session as a whole.
- `src/delivery.rs`: what one side writes and what the other side is handed up.
- `src/protocol.rs`, `src/framed.rs`, `src/ext.rs`, `src/errors.rs`: the vocabulary.
- `src/buffer.rs`: what is taken on trust of the `bytes` crate.
- `app/`: an asynchronous connection that carries out what a WebSocket asks for.
