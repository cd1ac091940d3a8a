# websocket-util

Building blocks for working with a WebSocket channel, written in Verus:

- `wrap`: a wrapper around a channel that answers pings with pongs, checks
  with pings of its own whether the peer is still there, and filters out
  control messages.
- `stream`: a stream of bytes out of a channel, and a wrapper with fixed
  settings.
- `subscribe`: a subscription that sends and receives control messages over a
  stream of messages.

`src/` is the verified library. It performs no I/O: each step of a state
machine takes what has just happened and says what has to be done next. The
modules whose names end in `_laws` state what holds over any sequence of
events.

`app/` connects the state machines to channels, timers and locks.
