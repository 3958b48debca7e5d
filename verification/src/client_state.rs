use vstd::prelude::*;
use crate::command::{Command, Commands};
use crate::event::Event;

verus! {

/// What the client state machine is handed: an event from a server, or a
/// command from the client itself.
#[derive(Debug, PartialEq, Clone)]
pub enum ClientInput {
    Event(Event),
    Command(Command),
}

/// What a state handler may act on besides its own state: the commands
/// that go out once the current events are handled.
#[derive(Debug, PartialEq, Clone)]
pub struct ClientContext {
    pub commands: Commands,
}

impl Default for ClientContext {
    fn default() -> (context: Self)
        ensures
            context.commands@ == Seq::<Command>::empty(),
    {
        ClientContext { commands: Commands::default() }
    }
}

/// A state of the client: it reacts to one input and names the state that
/// follows.
pub trait ClientState {
    fn handle(&self, commands: &mut ClientContext, event: &ClientInput) -> ClientStateDispatcher;
}

/// The client before it has heard from a server.
#[derive(Debug, PartialEq, Eq, Structural, Clone, Copy)]
pub struct BeforeLogin {}

/// The client once it has heard from a server.
#[derive(Debug, PartialEq, Eq, Structural, Clone, Copy)]
pub struct Normal {}

/// The state the client is in.
#[derive(Debug, PartialEq, Eq, Structural, Clone, Copy)]
pub enum ClientStateDispatcher {
    BeforeLogin(BeforeLogin),
    Normal(Normal),
}

/// The state that follows `state` once it has handled `input`: an event
/// moves a client that is before login to the normal state; anything else
/// leaves the state as it is.
pub open spec fn next_state(state: ClientStateDispatcher, input: ClientInput) -> ClientStateDispatcher {
    match state {
        ClientStateDispatcher::BeforeLogin(_) => {
            if input is Event {
                ClientStateDispatcher::Normal(Normal {})
            } else {
                ClientStateDispatcher::BeforeLogin(BeforeLogin {})
            }
        },
        ClientStateDispatcher::Normal(_) => ClientStateDispatcher::Normal(Normal {}),
    }
}

/// Once the client is in the normal state it stays there, whatever it is
/// handed.
pub proof fn normal_state_is_kept(input: ClientInput)
    ensures
        next_state(ClientStateDispatcher::Normal(Normal {}), input) == ClientStateDispatcher::Normal(Normal {}),
{
}

/// A command never moves the client to another state.
pub proof fn command_keeps_state(state: ClientStateDispatcher, command: Command)
    ensures
        next_state(state, ClientInput::Command(command)) == state,
{
}

/// Every event, whatever it holds, moves the client to the normal state.
pub proof fn event_leads_to_normal(state: ClientStateDispatcher, event: Event)
    ensures
        next_state(state, ClientInput::Event(event)) == ClientStateDispatcher::Normal(Normal {}),
{
}

impl Default for ClientStateDispatcher {
    fn default() -> (state: Self)
        ensures
            state == ClientStateDispatcher::BeforeLogin(BeforeLogin {}),
    {
        ClientStateDispatcher::BeforeLogin(BeforeLogin {})
    }
}

impl From<BeforeLogin> for ClientStateDispatcher {
    fn from(state: BeforeLogin) -> (dispatcher: Self) {
        ClientStateDispatcher::BeforeLogin(state)
    }
}

impl vstd::std_specs::convert::FromSpecImpl<BeforeLogin> for ClientStateDispatcher {
    open spec fn obeys_from_spec() -> bool {
        true
    }

    open spec fn from_spec(state: BeforeLogin) -> Self {
        ClientStateDispatcher::BeforeLogin(state)
    }
}

impl From<Normal> for ClientStateDispatcher {
    fn from(state: Normal) -> (dispatcher: Self) {
        ClientStateDispatcher::Normal(state)
    }
}

impl vstd::std_specs::convert::FromSpecImpl<Normal> for ClientStateDispatcher {
    open spec fn obeys_from_spec() -> bool {
        true
    }

    open spec fn from_spec(state: Normal) -> Self {
        ClientStateDispatcher::Normal(state)
    }
}

impl ClientState for BeforeLogin {
    /// Any event moves the client to the normal state; any other input
    /// leaves it before login.
    fn handle(&self, commands: &mut ClientContext, event: &ClientInput) -> (next: ClientStateDispatcher)
        ensures
            next == next_state(ClientStateDispatcher::BeforeLogin(*self), *event),
            *final(commands) == *old(commands),
    {
        match event {
            ClientInput::Event(_) => {
                return ClientStateDispatcher::from(Normal {});
            },
            _ => {},
        }
        ClientStateDispatcher::from(*self)
    }
}

impl ClientState for Normal {
    /// The normal state keeps itself, whatever comes in.
    fn handle(&self, commands: &mut ClientContext, event: &ClientInput) -> (next: ClientStateDispatcher)
        ensures
            next == next_state(ClientStateDispatcher::Normal(*self), *event),
            *final(commands) == *old(commands),
    {
        ClientStateDispatcher::from(*self)
    }
}

impl ClientState for ClientStateDispatcher {
    /// Hands the input to the state that the client is in.
    fn handle(&self, commands: &mut ClientContext, event: &ClientInput) -> (next: ClientStateDispatcher)
        ensures
            next == next_state(*self, *event),
            *final(commands) == *old(commands),
    {
        match self {
            ClientStateDispatcher::BeforeLogin(state) => state.handle(commands, event),
            ClientStateDispatcher::Normal(state) => state.handle(commands, event),
        }
    }
}

} // verus!
