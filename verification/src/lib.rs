//! Client-side protocol core: the commands a client sends, the events it
//! receives, the client state machine that reacts to those events, and the
//! bookkeeping that the client's systems do between the network and that
//! state machine.

pub mod command;
pub mod event;
pub mod client_state;
pub mod systems;
pub mod websocket;
