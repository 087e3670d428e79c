# oxignal

A client library for the SignalR hub protocol over websockets, in its JSON
encoding, verified with Verus.

- `src/` is the verified library: the hub messages (`invocation`, `ping`,
  `connection`, `handshake`, and the loose message shapes in `protocol`), the
  message kinds and the routing of a message by its `type` tag
  (`message_type`), the framing of messages with the record separator
  (`framing`), the decisions of reading the next frame off a websocket
  (`reader`) and of a client awaiting a completion or an invocation
  (`client`).
- `app/` holds the websocket client (`SignalrClient`) and the serde copies of
  the message types that turn them into JSON and back.
- `tests/` exercises the library.
