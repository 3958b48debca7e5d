use vstd::prelude::*;
use crate::event::Event;

verus! {

/// Takes everything that a connection has buffered since the last poll,
/// oldest first, and leaves the buffer empty.
pub fn drain_events(buffer: &mut Vec<Event>) -> (polled: Vec<Event>)
    ensures
        polled@ == old(buffer)@,
        final(buffer)@ == Seq::<Event>::empty(),
        replay(old(buffer)@, seq![BufferStep::Drain]) == (seq![polled@], final(buffer)@),
{
    let mut polled: Vec<Event> = Vec::new();
    std::mem::swap(&mut polled, buffer);
    proof {
        let step = seq![BufferStep::Drain];
        assert(step.drop_last() =~= Seq::<BufferStep>::empty());
        assert(step.last() == BufferStep::Drain);
        assert(replay(old(buffer)@, step.drop_last()) == (Seq::<Seq<Event>>::empty(), old(buffer)@));
        assert(seq![polled@] =~= Seq::<Seq<Event>>::empty().push(polled@));
        assert(replay(old(buffer)@, step) == (Seq::<Seq<Event>>::empty().push(old(buffer)@), Seq::<Event>::empty()));
    }
    polled
}

/// One thing that happens to a connection's event buffer: an event that
/// arrives and is appended (`Vec::push`), or a poll that drains the buffer
/// (`drain_events`).
pub enum BufferStep {
    Append(Event),
    Drain,
}

/// What a run of `steps` does to a buffer that starts as `buffer`: the
/// batches that the polls handed out, in order, and what is left buffered.
/// Each step is what `Vec::push` and `drain_events` state of the buffer.
pub open spec fn replay(buffer: Seq<Event>, steps: Seq<BufferStep>) -> (Seq<Seq<Event>>, Seq<Event>)
    decreases steps.len(),
{
    if steps.len() == 0 {
        (Seq::empty(), buffer)
    } else {
        let (batches, left) = replay(buffer, steps.drop_last());
        match steps.last() {
            BufferStep::Append(event) => (batches, left.push(event)),
            BufferStep::Drain => (batches.push(left), Seq::empty()),
        }
    }
}

/// Running two runs of steps one after the other is running them as one:
/// the batches of the second follow those of the first, and the second
/// starts from what the first left buffered. With `drain_events`, whose
/// contract is one drain step, and `Vec::push`, one append step, this ties
/// any sequence of real calls to `replay`.
pub proof fn replay_composes(buffer: Seq<Event>, first: Seq<BufferStep>, second: Seq<BufferStep>)
    ensures
        replay(buffer, first + second).0 == replay(buffer, first).0 + replay(replay(buffer, first).1, second).0,
        replay(buffer, first + second).1 == replay(replay(buffer, first).1, second).1,
    decreases second.len(),
{
    let middle = replay(buffer, first).1;
    if second.len() == 0 {
        assert(first + second =~= first);
        assert(replay(buffer, first).0 + Seq::<Seq<Event>>::empty() =~= replay(buffer, first).0);
    } else {
        let rest = second.drop_last();
        replay_composes(buffer, first, rest);
        assert((first + second).drop_last() =~= first + rest);
        assert((first + second).last() == second.last());
        let (batches, _left) = replay(middle, rest);
        match second.last() {
            BufferStep::Append(_) => {},
            BufferStep::Drain => {
                assert(replay(buffer, first).0 + batches.push(replay(middle, rest).1)
                    =~= (replay(buffer, first).0 + batches).push(replay(middle, rest).1));
            },
        }
    }
}

/// The events that `steps` append, in order.
pub open spec fn appended(steps: Seq<BufferStep>) -> Seq<Event>
    decreases steps.len(),
{
    if steps.len() == 0 {
        Seq::empty()
    } else {
        match steps.last() {
            BufferStep::Append(event) => appended(steps.drop_last()).push(event),
            BufferStep::Drain => appended(steps.drop_last()),
        }
    }
}

/// Whether a step is an arrival.
pub open spec fn is_arrival() -> spec_fn(BufferStep) -> bool {
    |step: BufferStep| step is Append
}

/// The event that a step brings (none for a poll).
pub open spec fn arrival() -> spec_fn(BufferStep) -> Event {
    |step: BufferStep|
        match step {
            BufferStep::Append(event) => event,
            BufferStep::Drain => Event::Unknown,
        }
}

/// The appended events are those of the arrivals, one for one and in order.
pub proof fn appended_is_each_arrival(steps: Seq<BufferStep>)
    ensures
        appended(steps) == steps.filter(is_arrival()).map_values(arrival()),
    decreases steps.len(),
{
    reveal(Seq::filter);
    if steps.len() == 0 {
        assert(steps.filter(is_arrival()).map_values(arrival()) =~= Seq::<Event>::empty());
    } else {
        let earlier = steps.drop_last();
        appended_is_each_arrival(earlier);
        let kept = earlier.filter(is_arrival());
        let last = steps.last();
        if last is Append {
            assert(steps.filter(is_arrival()) == kept.push(last));
            assert(kept.push(last).map_values(arrival()) =~= kept.map_values(arrival()).push(arrival()(last)));
        } else {
            assert(steps.filter(is_arrival()) == kept);
        }
    }
}

/// An arrival is a `Vec::push` onto the buffer and hands nothing out; a
/// poll hands out the whole buffer as one batch and leaves it empty.
pub proof fn single_steps(buffer: Seq<Event>, event: Event)
    ensures
        replay(buffer, seq![BufferStep::Append(event)]) == (Seq::<Seq<Event>>::empty(), buffer.push(event)),
        replay(buffer, seq![BufferStep::Drain]) == (seq![buffer], Seq::<Event>::empty()),
{
    let arrive = seq![BufferStep::Append(event)];
    let poll = seq![BufferStep::Drain];
    assert(arrive.drop_last() =~= Seq::<BufferStep>::empty());
    assert(poll.drop_last() =~= Seq::<BufferStep>::empty());
    assert(arrive.last() == BufferStep::Append(event));
    assert(poll.last() == BufferStep::Drain);
    assert(replay(buffer, arrive.drop_last()) == (Seq::<Seq<Event>>::empty(), buffer));
    assert(replay(buffer, poll.drop_last()) == (Seq::<Seq<Event>>::empty(), buffer));
    assert(seq![buffer] =~= Seq::<Seq<Event>>::empty().push(buffer));
}

/// The batches, one after another.
pub open spec fn concat_batches(batches: Seq<Seq<Event>>) -> Seq<Event>
    decreases batches.len(),
{
    if batches.len() == 0 {
        Seq::empty()
    } else {
        concat_batches(batches.drop_last()) + batches.last()
    }
}

/// Joining batches keeps every event of every batch, in order: one batch
/// joins to itself, and joining two runs of batches joins their joins.
pub proof fn concat_batches_joins(first: Seq<Seq<Event>>, second: Seq<Seq<Event>>, batch: Seq<Event>)
    ensures
        concat_batches(seq![batch]) == batch,
        concat_batches(first + second) == concat_batches(first) + concat_batches(second),
    decreases second.len(),
{
    assert(seq![batch].drop_last() =~= Seq::<Seq<Event>>::empty());
    assert(seq![batch].last() == batch);
    assert(concat_batches(seq![batch].drop_last()) == Seq::<Event>::empty());
    assert(Seq::<Event>::empty() + batch =~= batch);
    if second.len() == 0 {
        assert(first + second =~= first);
        assert(concat_batches(first) + Seq::<Event>::empty() =~= concat_batches(first));
    } else {
        concat_batches_joins(first, second.drop_last(), batch);
        assert((first + second).drop_last() =~= first + second.drop_last());
        assert((first + second).last() == second.last());
        assert(concat_batches(first) + (concat_batches(second.drop_last()) + second.last())
            =~= (concat_batches(first) + concat_batches(second.drop_last())) + second.last());
    }
}

/// No event is lost or handed out twice: after any run of appends and
/// polls, the batches that the polls handed out, followed by what is still
/// buffered, are what was buffered at the start followed by every event
/// appended, in order.
pub proof fn polls_hand_out_every_event_once(buffer: Seq<Event>, steps: Seq<BufferStep>)
    ensures
        concat_batches(replay(buffer, steps).0) + replay(buffer, steps).1 == buffer + appended(steps),
    decreases steps.len(),
{
    if steps.len() > 0 {
        let prev = steps.drop_last();
        polls_hand_out_every_event_once(buffer, prev);
        let (batches, left) = replay(buffer, prev);
        match steps.last() {
            BufferStep::Append(event) => {
                assert(concat_batches(batches) + left.push(event) =~= (concat_batches(batches) + left).push(event));
                assert(buffer + appended(prev).push(event) =~= (buffer + appended(prev)).push(event));
            },
            BufferStep::Drain => {
                assert(batches.push(left).drop_last() =~= batches);
                assert(concat_batches(batches.push(left)) + Seq::<Event>::empty() =~= concat_batches(batches) + left);
            },
        }
    }
}

/// A poll with no new event since the previous poll hands out nothing.
pub proof fn poll_after_poll_is_empty(buffer: Seq<Event>, steps: Seq<BufferStep>)
    ensures
        replay(buffer, steps.push(BufferStep::Drain).push(BufferStep::Drain)).0.last() == Seq::<Event>::empty(),
{
    let once = steps.push(BufferStep::Drain);
    let twice = once.push(BufferStep::Drain);
    assert(twice.drop_last() =~= once);
    assert(once.drop_last() =~= steps);
    assert(replay(buffer, once).1 == Seq::<Event>::empty());
    assert(replay(buffer, twice).0 == replay(buffer, once).0.push(replay(buffer, once).1));
}

} // verus!
