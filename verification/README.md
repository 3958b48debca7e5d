# protocol

The client side of the desk protocol.

- `src/command.rs`, `src/event.rs`: the command queue and the event buffers,
  viewed as sequences.
- `src/client_state.rs`: the client state machine (`BeforeLogin`, `Normal`)
  and its transition function `next_state`.
- `src/systems.rs`: what the client's per-frame systems decide: when the
  client gets its first state, how a batch of events drives the state
  machine, how polled events are queued.
- `src/websocket.rs`: draining a connection's event buffer.
- `app/`: the bevy application, the websocket connections and the browser
  plumbing around the library.
