use vstd::prelude::*;
use vstd::std_specs::iter::IteratorSpec;
use vstd::std_specs::slice::into_iter_elts;

verus! {

/// A command as it goes over the wire.
pub type RawCommand = Vec<u8>;

/// A command that the client sends to a server.
#[non_exhaustive]
#[derive(Debug, PartialEq, Clone)]
pub enum Command {
    /// A message for the NATS server, in its wire form.
    Nats(RawCommand),
    /// A command whose code this client does not know.
    Unknown,
}

/// The commands queued for sending, oldest first.
#[derive(Debug, PartialEq, Clone)]
pub struct Commands(pub(crate) Vec<Command>);

/// The wire forms of the NATS commands among `commands`, in their order;
/// other commands have none.
pub open spec fn nats_payloads(commands: Seq<Command>) -> Seq<Seq<u8>>
    decreases commands.len(),
{
    if commands.len() == 0 {
        Seq::empty()
    } else {
        let earlier = nats_payloads(commands.drop_last());
        match commands.last() {
            Command::Nats(raw) => earlier.push(raw@),
            _ => earlier,
        }
    }
}

/// Whether a command goes to the NATS server.
pub open spec fn goes_to_nats() -> spec_fn(Command) -> bool {
    |command: Command| command is Nats
}

/// The wire form that a command carries (none for a command that does not
/// go to the NATS server).
pub open spec fn wire_form() -> spec_fn(Command) -> Seq<u8> {
    |command: Command|
        match command {
            Command::Nats(raw) => raw@,
            _ => Seq::empty(),
        }
}

/// What goes out for a queue is, one for one and in queue order, the wire
/// form of each of its NATS commands: nothing is skipped, merged or added.
pub proof fn outgoing_is_each_nats_command(commands: Seq<Command>)
    ensures
        nats_payloads(commands) == commands.filter(goes_to_nats()).map_values(wire_form()),
        nats_payloads(commands).len() == commands.filter(goes_to_nats()).len(),
    decreases commands.len(),
{
    reveal(Seq::filter);
    if commands.len() == 0 {
        assert(commands.filter(goes_to_nats()).map_values(wire_form()) =~= Seq::<Seq<u8>>::empty());
    } else {
        let earlier = commands.drop_last();
        outgoing_is_each_nats_command(earlier);
        let kept = earlier.filter(goes_to_nats());
        let last = commands.last();
        if last is Nats {
            assert(commands.filter(goes_to_nats()) == kept.push(last));
            assert(kept.push(last).map_values(wire_form())
                =~= kept.map_values(wire_form()).push(wire_form()(last)));
        } else {
            assert(commands.filter(goes_to_nats()) == kept);
        }
    }
}

/// Queuing one more NATS command adds exactly its wire form at the end of
/// what goes out, whatever was queued before (the same message twice goes
/// out twice).
pub proof fn queued_nats_command_goes_out_last(commands: Seq<Command>, raw: RawCommand)
    ensures
        nats_payloads(commands.push(Command::Nats(raw))) == nats_payloads(commands).push(raw@),
        nats_payloads(commands.push(Command::Nats(raw))).len() == nats_payloads(commands).len() + 1,
{
    assert(commands.push(Command::Nats(raw)).drop_last() =~= commands);
}

/// Queuing a command that does not go to the NATS server changes nothing of
/// what goes out.
pub proof fn other_command_sends_nothing(commands: Seq<Command>, command: Command)
    requires
        !(command is Nats),
    ensures
        nats_payloads(commands.push(command)) == nats_payloads(commands),
{
    assert(commands.push(command).drop_last() =~= commands);
}

impl View for Commands {
    type V = Seq<Command>;

    closed spec fn view(&self) -> Seq<Command> {
        self.0@
    }
}

impl Default for Commands {
    fn default() -> (commands: Self)
        ensures
            commands@ == Seq::<Command>::empty(),
    {
        Commands(Vec::new())
    }
}

impl Commands {
    /// Walks the queued commands, oldest first.
    pub fn iter(&self) -> (it: std::slice::Iter<'_, Command>)
        ensures
            into_iter_elts(it) == self@,
            IteratorSpec::initial_value_relation(&it, &it),
            IteratorSpec::decrease(&it) is Some,
    {
        self.0.as_slice().iter()
    }

    /// Queues a command behind those already queued.
    pub fn push(&mut self, event: Command)
        ensures
            final(self)@ == old(self)@.push(event),
    {
        self.0.push(event);
    }

    /// Drops every queued command.
    pub fn clear(&mut self)
        ensures
            final(self)@ == Seq::<Command>::empty(),
    {
        self.0.clear();
        self.0.truncate(32);
    }

    /// Empties the queue and hands back, in order, the wire forms of the
    /// NATS commands that were in it: what goes out to the server.
    pub fn take_outgoing(&mut self) -> (outgoing: Vec<RawCommand>)
        ensures
            outgoing@.map_values(|raw: RawCommand| raw@) == nats_payloads(old(self)@),
            outgoing@.map_values(|raw: RawCommand| raw@) == old(self)@.filter(goes_to_nats()).map_values(wire_form()),
            outgoing@.len() == old(self)@.filter(goes_to_nats()).len(),
            final(self)@ == Seq::<Command>::empty(),
    {
        let mut outgoing: Vec<RawCommand> = Vec::new();
        let mut i: usize = 0;
        while i < self.0.len()
            invariant
                i <= self.0.len(),
                self.0@ == old(self)@,
                outgoing@.map_values(|raw: RawCommand| raw@) == nats_payloads(self.0@.subrange(0, i as int)),
            decreases self.0.len() - i,
        {
            proof {
                assert(self.0@.subrange(0, i + 1).drop_last() == self.0@.subrange(0, i as int));
            }
            match &self.0[i] {
                Command::Nats(raw) => {
                    let copy = raw.clone();
                    proof {
                        assert(copy@ =~= raw@);
                    }
                    outgoing.push(copy);
                },
                _ => {},
            }
            i = i + 1;
        }
        proof {
            assert(self.0@.subrange(0, self.0@.len() as int) == self.0@);
            outgoing_is_each_nats_command(self.0@);
        }
        self.clear();
        outgoing
    }
}

} // verus!
