use vstd::prelude::*;
use vstd::std_specs::iter::IteratorSpec;
use vstd::std_specs::slice::into_iter_elts;

verus! {

/// A server operation as it came over the wire.
pub type RawEvent = Vec<u8>;

/// An event that the client receives.
#[non_exhaustive]
#[derive(Debug, PartialEq, Clone)]
pub enum Event {
    /// An operation from the NATS server with the given name.
    Nats(String, RawEvent),
    /// The websocket connection was closed.
    WSClose,
    /// An event whose code this client does not know.
    Unknown,
}

/// The events received from the NATS servers and not yet handled, oldest first.
#[derive(Debug, PartialEq, Clone)]
pub struct Events(Vec<Event>);

impl View for Events {
    type V = Seq<Event>;

    closed spec fn view(&self) -> Seq<Event> {
        self.0@
    }
}

impl Default for Events {
    fn default() -> (events: Self)
        ensures
            events@ == Seq::<Event>::empty(),
    {
        Events(Vec::new())
    }
}

impl Events {
    /// Walks the events, oldest first.
    pub fn iter(&self) -> (it: std::slice::Iter<'_, Event>)
        ensures
            into_iter_elts(it) == self@,
            IteratorSpec::initial_value_relation(&it, &it),
            IteratorSpec::decrease(&it) is Some,
    {
        self.0.as_slice().iter()
    }

    /// The events, oldest first, as a slice.
    pub(crate) fn as_slice(&self) -> (s: &[Event])
        ensures
            s@ == self@,
    {
        self.0.as_slice()
    }

    /// Appends an event behind those already held.
    pub fn push(&mut self, event: Event)
        ensures
            final(self)@ == old(self)@.push(event),
    {
        self.0.push(event);
    }

    /// Drops every event.
    pub fn truncate(&mut self)
        ensures
            final(self)@ == Seq::<Event>::empty(),
    {
        self.0.clear();
        self.0.truncate(32);
    }
}

/// The events about the websocket connections themselves, oldest first.
#[derive(Debug, PartialEq, Clone)]
pub struct WSEvents(Vec<Event>);

impl View for WSEvents {
    type V = Seq<Event>;

    closed spec fn view(&self) -> Seq<Event> {
        self.0@
    }
}

impl Default for WSEvents {
    fn default() -> (events: Self)
        ensures
            events@ == Seq::<Event>::empty(),
    {
        WSEvents(Vec::new())
    }
}

impl WSEvents {
    /// Walks the events, oldest first.
    pub fn iter(&self) -> (it: std::slice::Iter<'_, Event>)
        ensures
            into_iter_elts(it) == self@,
            IteratorSpec::initial_value_relation(&it, &it),
            IteratorSpec::decrease(&it) is Some,
    {
        self.0.as_slice().iter()
    }

    /// Appends an event behind those already held.
    pub fn push(&mut self, event: Event)
        ensures
            final(self)@ == old(self)@.push(event),
    {
        self.0.push(event);
    }

    /// Drops every event.
    pub fn truncate(&mut self)
        ensures
            final(self)@ == Seq::<Event>::empty(),
    {
        self.0.clear();
        self.0.truncate(32);
    }
}

} // verus!
