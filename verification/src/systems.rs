use vstd::prelude::*;
use crate::client_state::{
    next_state, BeforeLogin, ClientContext, ClientInput, ClientState, ClientStateDispatcher, Normal,
};
use crate::command::{Command, Commands};
use crate::event::{Event, Events};

verus! {

/// The state that the client reaches from `state` by handling `events` as
/// inputs, oldest first.
pub open spec fn run_events(state: ClientStateDispatcher, events: Seq<Event>) -> ClientStateDispatcher
    decreases events.len(),
{
    if events.len() == 0 {
        state
    } else {
        next_state(run_events(state, events.drop_last()), ClientInput::Event(events.last()))
    }
}

/// Handling a batch of events leaves the state alone when the batch is
/// empty, and puts the client in the normal state otherwise.
pub proof fn run_events_outcome(state: ClientStateDispatcher, events: Seq<Event>)
    ensures
        events.len() == 0 ==> run_events(state, events) == state,
        events.len() > 0 ==> run_events(state, events) == ClientStateDispatcher::Normal(Normal {}),
    decreases events.len(),
{
    if events.len() > 0 {
        run_events_outcome(state, events.drop_last());
    }
}

/// Handling two batches of events in turn reaches the same state as
/// handling them as one batch.
pub proof fn run_events_batches_compose(state: ClientStateDispatcher, first: Seq<Event>, second: Seq<Event>)
    ensures
        run_events(run_events(state, first), second) == run_events(state, first + second),
{
    run_events_outcome(state, first);
    run_events_outcome(run_events(state, first), second);
    run_events_outcome(state, first + second);
}

/// The client state after the first connection check: a client that has a
/// connection and no state yet starts before login; otherwise the state stays.
pub open spec fn state_after_connect(connected: bool, state: Option<ClientStateDispatcher>) -> Option<ClientStateDispatcher> {
    if connected && state is None {
        Some(ClientStateDispatcher::BeforeLogin(BeforeLogin {}))
    } else {
        state
    }
}

/// Checking the connection a second time changes nothing more.
pub proof fn state_after_connect_is_idempotent(connected: bool, state: Option<ClientStateDispatcher>)
    ensures
        state_after_connect(connected, state_after_connect(connected, state)) == state_after_connect(connected, state),
{
}

/// Only a connected client without a state is given one, and it starts
/// before login; a state that is there is never replaced or thrown away,
/// and a client without a connection is left as it is.
pub proof fn only_a_connected_client_without_state_gets_one(connected: bool, state: Option<ClientStateDispatcher>)
    ensures
        state is Some ==> state_after_connect(connected, state) == state,
        !connected ==> state_after_connect(connected, state) == state,
        connected && state is None ==> state_after_connect(connected, state)
            == Some(ClientStateDispatcher::BeforeLogin(BeforeLogin {})),
        state_after_connect(connected, state) is Some <==> (connected || state is Some),
{
}

/// Gives a connected client its first state, before login.
pub fn add_client_state(connected: bool, state: &mut Option<ClientStateDispatcher>)
    ensures
        *final(state) == state_after_connect(connected, *old(state)),
        *old(state) is Some ==> *final(state) == *old(state),
        !connected ==> *final(state) == *old(state),
        connected && *old(state) is None ==> *final(state) == Some(ClientStateDispatcher::BeforeLogin(BeforeLogin {})),
{
    if connected && state.is_none() {
        *state = Some(ClientStateDispatcher::default());
    }
}

/// Runs the client's state machine over the received events, oldest first,
/// and puts in `commands` what the handlers queued. Without a state nothing
/// happens.
pub fn handle_events(state: &mut Option<ClientStateDispatcher>, commands: &mut Commands, events: &Events)
    ensures
        *old(state) is None ==> *final(state) == *old(state) && *final(commands) == *old(commands),
        *old(state) is Some ==> *final(state) == Some(run_events(old(state).unwrap(), events@)),
        *old(state) is Some ==> final(commands)@ == Seq::<Command>::empty(),
{
    if state.is_some() {
        let start: ClientStateDispatcher = state.unwrap();
        let mut current: ClientStateDispatcher = start;
        let mut context = ClientContext::default();
        let received = events.as_slice();
        let mut i: usize = 0;
        while i < received.len()
            invariant
                i <= received.len(),
                received@ == events@,
                current == run_events(start, received@.subrange(0, i as int)),
                context.commands@ == Seq::<Command>::empty(),
            decreases received.len() - i,
        {
            let input = ClientInput::Event(received[i].clone());
            current = current.handle(&mut context, &input);
            proof {
                assert(received@.subrange(0, i + 1).drop_last() == received@.subrange(0, i as int));
            }
            i = i + 1;
        }
        proof {
            assert(received@.subrange(0, received@.len() as int) == received@);
        }
        *state = Some(current);
        *commands = context.commands;
    }
}

/// Queues, oldest first, the events that a poll of a connection returned.
pub fn receive_events(events: &mut Events, polled: Option<Vec<Event>>)
    ensures
        polled is None ==> final(events)@ == old(events)@,
        polled is Some ==> final(events)@ == old(events)@ + polled->0@,
{
    match polled {
        Some(batch) => {
            let ghost items = batch@;
            for event in it: batch
                invariant
                    it.seq() == items,
                    events@ == old(events)@ + items.subrange(0, it.index()),
            {
                events.push(event);
                proof {
                    assert(items.subrange(0, it.index() + 1) == items.subrange(0, it.index()).push(event));
                }
            }
            proof {
                assert(items.subrange(0, items.len() as int) == items);
            }
        },
        None => {},
    }
}

} // verus!
