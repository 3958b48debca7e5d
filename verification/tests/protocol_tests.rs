use protocol::client_state::{
    BeforeLogin, ClientContext, ClientInput, ClientState, ClientStateDispatcher, Normal,
};
use protocol::command::{Command, Commands};
use protocol::event::{Event, Events, WSEvents};
use protocol::systems::{add_client_state, handle_events, receive_events};
use protocol::websocket::drain_events;

fn nats_event(server: &str, raw: &[u8]) -> Event {
    Event::Nats(server.to_string(), raw.to_vec())
}

// A client counts as logged in once it hears from a server: events carry no
// login of their own, so an event from the server stands for it here.
#[test]
fn handles_logged_in_event() {
    let state = BeforeLogin {};
    let mut context = ClientContext::default();
    let event = ClientInput::Event(nats_event("ws://127.0.0.1:5000/ws", b"PING\r\n"));
    assert_eq!(state.handle(&mut context, &event), Normal {}.into());
    assert_eq!(context, ClientContext::default());
}

#[test]
fn handles_ws_close_before_login() {
    let state = BeforeLogin {};
    let mut context = ClientContext::default();
    let next = state.handle(&mut context, &ClientInput::Event(Event::WSClose));
    assert_eq!(next, ClientStateDispatcher::Normal(Normal {}));
}

#[test]
fn command_keeps_client_before_login() {
    let state = BeforeLogin {};
    let mut context = ClientContext::default();
    context.commands.push(Command::Unknown);
    let next = state.handle(&mut context, &ClientInput::Command(Command::Nats(vec![1, 2])));
    assert_eq!(next, ClientStateDispatcher::BeforeLogin(BeforeLogin {}));
    let mut expected = Commands::default();
    expected.push(Command::Unknown);
    assert_eq!(context.commands, expected);
}

#[test]
fn normal_state_is_kept() {
    let state = Normal {};
    let mut context = ClientContext::default();
    assert_eq!(
        state.handle(&mut context, &ClientInput::Event(Event::Unknown)),
        ClientStateDispatcher::Normal(Normal {})
    );
    assert_eq!(
        state.handle(&mut context, &ClientInput::Command(Command::Unknown)),
        ClientStateDispatcher::Normal(Normal {})
    );
    assert_eq!(context, ClientContext::default());
}

#[test]
fn dispatcher_hands_input_to_its_state() {
    let mut context = ClientContext::default();
    let start = ClientStateDispatcher::default();
    assert_eq!(start, ClientStateDispatcher::BeforeLogin(BeforeLogin {}));
    let after_command = start.handle(&mut context, &ClientInput::Command(Command::Unknown));
    assert_eq!(after_command, start);
    let after_event = start.handle(&mut context, &ClientInput::Event(Event::WSClose));
    assert_eq!(after_event, ClientStateDispatcher::Normal(Normal {}));
    let after_more = after_event.handle(&mut context, &ClientInput::Command(Command::Unknown));
    assert_eq!(after_more, ClientStateDispatcher::Normal(Normal {}));
}

#[test]
fn states_convert_into_dispatcher() {
    let before: ClientStateDispatcher = BeforeLogin {}.into();
    let normal: ClientStateDispatcher = Normal {}.into();
    assert_eq!(before, ClientStateDispatcher::BeforeLogin(BeforeLogin {}));
    assert_eq!(normal, ClientStateDispatcher::Normal(Normal {}));
}

#[test]
fn commands_push_iter_clear() {
    let mut commands = Commands::default();
    assert_eq!(commands.iter().count(), 0);
    commands.push(Command::Nats(vec![3]));
    commands.push(Command::Unknown);
    let seen: Vec<Command> = commands.iter().cloned().collect();
    assert_eq!(seen, vec![Command::Nats(vec![3]), Command::Unknown]);
    commands.clear();
    assert_eq!(commands.iter().count(), 0);
    assert_eq!(commands, Commands::default());
}

#[test]
fn commands_clear_empties_a_long_queue() {
    let mut commands = Commands::default();
    for i in 0..40u8 {
        commands.push(Command::Nats(vec![i]));
    }
    assert_eq!(commands.iter().count(), 40);
    commands.clear();
    assert_eq!(commands.iter().count(), 0);
}

#[test]
fn take_outgoing_keeps_nats_payloads_in_order() {
    let mut commands = Commands::default();
    commands.push(Command::Nats(b"SUB a 1\r\n".to_vec()));
    commands.push(Command::Unknown);
    commands.push(Command::Nats(b"PUB a 2\r\nhi\r\n".to_vec()));
    let outgoing = commands.take_outgoing();
    assert_eq!(outgoing, vec![b"SUB a 1\r\n".to_vec(), b"PUB a 2\r\nhi\r\n".to_vec()]);
    assert_eq!(commands, Commands::default());
    assert_eq!(commands.take_outgoing(), Vec::<Vec<u8>>::new());
}

#[test]
fn take_outgoing_without_nats_commands() {
    let mut commands = Commands::default();
    commands.push(Command::Unknown);
    assert!(commands.take_outgoing().is_empty());
    assert_eq!(commands.iter().count(), 0);
}

#[test]
fn events_push_iter_truncate() {
    let mut events = Events::default();
    events.push(nats_event("a", b"+OK\r\n"));
    events.push(Event::WSClose);
    let seen: Vec<Event> = events.iter().cloned().collect();
    assert_eq!(seen, vec![nats_event("a", b"+OK\r\n"), Event::WSClose]);
    events.truncate();
    assert_eq!(events.iter().count(), 0);
    assert_eq!(events, Events::default());
}

#[test]
fn ws_events_push_iter_truncate() {
    let mut events = WSEvents::default();
    events.push(Event::WSClose);
    events.push(Event::Unknown);
    let seen: Vec<Event> = events.iter().cloned().collect();
    assert_eq!(seen, vec![Event::WSClose, Event::Unknown]);
    events.truncate();
    assert_eq!(events, WSEvents::default());
}

#[test]
fn add_client_state_only_for_connected_client_without_state() {
    let mut state: Option<ClientStateDispatcher> = None;
    add_client_state(false, &mut state);
    assert_eq!(state, None);
    add_client_state(true, &mut state);
    assert_eq!(state, Some(ClientStateDispatcher::BeforeLogin(BeforeLogin {})));
    let mut normal = Some(ClientStateDispatcher::Normal(Normal {}));
    add_client_state(true, &mut normal);
    assert_eq!(normal, Some(ClientStateDispatcher::Normal(Normal {})));
}

#[test]
fn add_client_state_twice_is_once() {
    let mut once: Option<ClientStateDispatcher> = None;
    add_client_state(true, &mut once);
    let mut twice = once;
    add_client_state(true, &mut twice);
    assert_eq!(once, twice);
}

#[test]
fn handle_events_moves_client_to_normal_and_empties_commands() {
    let mut state = Some(ClientStateDispatcher::default());
    let mut commands = Commands::default();
    commands.push(Command::Nats(vec![9]));
    let mut events = Events::default();
    events.push(nats_event("a", b"INFO {}\r\n"));
    handle_events(&mut state, &mut commands, &events);
    assert_eq!(state, Some(ClientStateDispatcher::Normal(Normal {})));
    assert_eq!(commands, Commands::default());
}

#[test]
fn handle_events_without_events_keeps_state() {
    let mut state = Some(ClientStateDispatcher::default());
    let mut commands = Commands::default();
    commands.push(Command::Unknown);
    handle_events(&mut state, &mut commands, &Events::default());
    assert_eq!(state, Some(ClientStateDispatcher::BeforeLogin(BeforeLogin {})));
    assert_eq!(commands, Commands::default());
}

#[test]
fn handle_events_without_state_does_nothing() {
    let mut state: Option<ClientStateDispatcher> = None;
    let mut commands = Commands::default();
    commands.push(Command::Unknown);
    let mut events = Events::default();
    events.push(Event::WSClose);
    handle_events(&mut state, &mut commands, &events);
    assert_eq!(state, None);
    let mut expected = Commands::default();
    expected.push(Command::Unknown);
    assert_eq!(commands, expected);
}

#[test]
fn handling_batches_in_turn_is_handling_them_at_once() {
    let mut first = Events::default();
    first.push(Event::WSClose);
    let second = Events::default();
    let mut both = Events::default();
    both.push(Event::WSClose);

    let mut in_turn = Some(ClientStateDispatcher::default());
    let mut commands = Commands::default();
    handle_events(&mut in_turn, &mut commands, &first);
    handle_events(&mut in_turn, &mut commands, &second);

    let mut at_once = Some(ClientStateDispatcher::default());
    handle_events(&mut at_once, &mut commands, &both);
    assert_eq!(in_turn, at_once);
}

#[test]
fn receive_events_appends_polled_batch() {
    let mut events = Events::default();
    events.push(Event::Unknown);
    receive_events(&mut events, Some(vec![Event::WSClose, nats_event("b", b"PONG\r\n")]));
    let seen: Vec<Event> = events.iter().cloned().collect();
    assert_eq!(seen, vec![Event::Unknown, Event::WSClose, nats_event("b", b"PONG\r\n")]);
    receive_events(&mut events, None);
    assert_eq!(events.iter().count(), 3);
    receive_events(&mut events, Some(Vec::new()));
    assert_eq!(events.iter().count(), 3);
}

#[test]
fn drain_events_takes_everything_buffered() {
    let mut buffer = vec![Event::WSClose, nats_event("c", b"+OK\r\n")];
    let polled = drain_events(&mut buffer);
    assert_eq!(polled, vec![Event::WSClose, nats_event("c", b"+OK\r\n")]);
    assert!(buffer.is_empty());
    assert!(drain_events(&mut buffer).is_empty());
}

#[test]
fn polls_hand_out_every_event_once() {
    let mut buffer: Vec<Event> = Vec::new();
    let mut handed_out: Vec<Event> = Vec::new();
    buffer.push(Event::WSClose);
    buffer.push(nats_event("a", b"MSG x 1 2\r\nhi\r\n"));
    handed_out.extend(drain_events(&mut buffer));
    assert!(drain_events(&mut buffer).is_empty());
    buffer.push(Event::Unknown);
    handed_out.extend(drain_events(&mut buffer));
    buffer.push(nats_event("b", b"PING\r\n"));
    handed_out.extend(buffer.iter().cloned());
    assert_eq!(
        handed_out,
        vec![
            Event::WSClose,
            nats_event("a", b"MSG x 1 2\r\nhi\r\n"),
            Event::Unknown,
            nats_event("b", b"PING\r\n"),
        ]
    );
}
