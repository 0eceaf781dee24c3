//! The event relay: from the lattice's event subject into the consumer's
//! bounded queue, one event at a time, until the consumer leaves.

use vstd::prelude::*;

verus! {

/// The number of events that the consumer's queue holds before the relay
/// has to wait.
pub const EVENT_QUEUE_CAPACITY: usize = 5000;

#[verifier::external_type_specification]
#[verifier::external_body]
pub struct ExEvent(cloudevents::Event);

/// Where a relay stands.
#[derive(Clone, Copy, PartialEq, Eq, Structural, Debug)]
pub enum RelayState {
    /// Waiting for the next message from the bus.
    Receiving,
    /// An event was handed to the queue and has not been taken in yet. A
    /// full queue keeps the relay here, and with it the bus subscription.
    Forwarding,
    /// The relay has ended.
    Stopped,
}

/// What can happen to a relay.
pub enum RelayInput<E> {
    /// A message arrived; it decoded to an event, or did not.
    Message(Option<E>),
    /// The queue took the event in.
    Forwarded,
    /// The queue refused the event because the consumer closed it.
    ConsumerClosed,
    /// The bus ended the subscription.
    BusClosed,
}

/// What the relay's owner has to do next.
#[derive(Debug, PartialEq)]
pub enum RelayAction<E> {
    /// Put this event into the queue, waiting while it is full, and report
    /// how that ended.
    Forward(E),
    /// The message was no event: note it and take the next message.
    Skip,
    /// Take the next message.
    Receive,
    /// Unsubscribe from the bus and end.
    Unsubscribe,
    /// End.
    Halt,
    /// Nothing was taken in because a forward is pending: offer it again
    /// once that forward has ended.
    Blocked,
    /// The relay has ended; this was not looked at.
    Ignore,
}

/// One step of a relay.
pub open spec fn relay_step<E>(state: RelayState, input: RelayInput<E>) -> (
    RelayState,
    RelayAction<E>,
) {
    match state {
        RelayState::Receiving => match input {
            RelayInput::Message(Some(event)) => (RelayState::Forwarding, RelayAction::Forward(event)),
            RelayInput::Message(None) => (RelayState::Receiving, RelayAction::Skip),
            RelayInput::BusClosed => (RelayState::Stopped, RelayAction::Halt),
            _ => (RelayState::Receiving, RelayAction::Receive),
        },
        RelayState::Forwarding => match input {
            RelayInput::Forwarded => (RelayState::Receiving, RelayAction::Receive),
            RelayInput::ConsumerClosed => (RelayState::Stopped, RelayAction::Unsubscribe),
            _ => (RelayState::Forwarding, RelayAction::Blocked),
        },
        RelayState::Stopped => (RelayState::Stopped, RelayAction::Ignore),
    }
}

/// Where a relay that starts in `start` stands after `inputs`.
pub open spec fn state_after<E>(start: RelayState, inputs: Seq<RelayInput<E>>) -> RelayState
    decreases inputs.len(),
{
    if inputs.len() == 0 {
        start
    } else {
        relay_step(state_after(start, inputs.drop_last()), inputs.last()).0
    }
}

/// The events that a relay which starts in `start` hands to the queue over
/// `inputs`, in the order in which it does.
pub open spec fn forwards<E>(start: RelayState, inputs: Seq<RelayInput<E>>) -> Seq<E>
    decreases inputs.len(),
{
    if inputs.len() == 0 {
        Seq::empty()
    } else {
        let before = forwards(start, inputs.drop_last());
        match relay_step(state_after(start, inputs.drop_last()), inputs.last()).1 {
            RelayAction::Forward(event) => before.push(event),
            _ => before,
        }
    }
}

/// What the relay answers to the input at `at`.
pub open spec fn action_at<E>(start: RelayState, inputs: Seq<RelayInput<E>>, at: int) -> RelayAction<
    E,
> {
    relay_step(state_after(start, inputs.take(at)), inputs[at]).1
}

/// The events among `messages`, in their order.
pub open spec fn events_in<E>(messages: Seq<Option<E>>) -> Seq<E>
    decreases messages.len(),
{
    if messages.len() == 0 {
        Seq::empty()
    } else {
        match messages.last() {
            Some(event) => events_in(messages.drop_last()).push(event),
            None => events_in(messages.drop_last()),
        }
    }
}

/// What a relay sees when each of `messages` is offered once it waits for
/// one, and every event is taken in by the queue, however long that takes.
pub open spec fn delivered_in_turn<E>(messages: Seq<Option<E>>) -> Seq<RelayInput<E>>
    decreases messages.len(),
{
    if messages.len() == 0 {
        Seq::empty()
    } else {
        let before = delivered_in_turn(messages.drop_last()).push(
            RelayInput::Message(messages.last()),
        );
        if messages.last() is Some {
            before.push(RelayInput::Forwarded)
        } else {
            before
        }
    }
}

proof fn lemma_run_in_two<E>(start: RelayState, first: Seq<RelayInput<E>>, then: Seq<RelayInput<E>>)
    ensures
        state_after(start, first + then) == state_after(state_after(start, first), then),
        forwards(start, first + then) == forwards(start, first) + forwards(
            state_after(start, first),
            then,
        ),
    decreases then.len(),
{
    if then.len() == 0 {
        assert(first + then =~= first);
        assert(forwards(start, first) + Seq::<E>::empty() =~= forwards(start, first));
    } else {
        lemma_run_in_two(start, first, then.drop_last());
        assert((first + then).drop_last() =~= first + then.drop_last());
        assert((first + then).last() == then.last());
        let middle = state_after(start, first);
        match relay_step(state_after(middle, then.drop_last()), then.last()).1 {
            RelayAction::Forward(event) => {
                assert((forwards(start, first) + forwards(middle, then.drop_last())).push(event)
                    =~= forwards(start, first) + forwards(middle, then.drop_last()).push(event));
            },
            _ => {},
        }
    }
}

proof fn lemma_stopped_is_final<E>(inputs: Seq<RelayInput<E>>)
    ensures
        state_after(RelayState::Stopped, inputs) == RelayState::Stopped,
        forwards(RelayState::Stopped, inputs) == Seq::<E>::empty(),
    decreases inputs.len(),
{
    if inputs.len() > 0 {
        lemma_stopped_is_final(inputs.drop_last());
    }
}

/// Once the consumer has closed its queue, the relay has ended for good:
/// whatever the bus delivers afterwards is not looked at, and no further
/// event is forwarded.
pub proof fn nothing_after_the_consumer_left<E>(
    start: RelayState,
    before: Seq<RelayInput<E>>,
    after: Seq<RelayInput<E>>,
    at: int,
)
    requires
        state_after(start, before) == RelayState::Forwarding,
        0 <= at < after.len(),
    ensures
        state_after(start, before.push(RelayInput::ConsumerClosed) + after) == RelayState::Stopped,
        forwards(start, before.push(RelayInput::ConsumerClosed) + after) == forwards(start, before),
        action_at(start, before.push(RelayInput::ConsumerClosed) + after, before.len() + 1 + at)
            == RelayAction::<E>::Ignore,
{
    let closed = before.push(RelayInput::ConsumerClosed);
    assert(closed.drop_last() =~= before);
    assert(state_after(start, closed) == RelayState::Stopped);
    assert(forwards(start, closed) == forwards(start, before));
    lemma_run_in_two(start, closed, after);
    lemma_stopped_is_final(after);
    assert(forwards(start, before) + Seq::<E>::empty() =~= forwards(start, before));
    let whole = closed + after;
    let upto = before.len() + 1 + at;
    assert(whole.take(upto) =~= closed + after.take(at));
    lemma_run_in_two(start, closed, after.take(at));
    lemma_stopped_is_final(after.take(at));
}

/// While a forward is pending the relay takes nothing else in: whatever is
/// offered to it in place of the forward's end is answered with `Blocked`
/// and leaves the relay as it is, so that nothing is dropped by the relay
/// while the queue is full.
pub proof fn a_pending_forward_blocks<E>(input: RelayInput<E>)
    requires
        !(input is Forwarded),
        !(input is ConsumerClosed),
    ensures
        relay_step(RelayState::Forwarding, input) == (
            RelayState::Forwarding,
            RelayAction::<E>::Blocked,
        ),
{
}

/// A relay whose messages are offered in turn, each once the one before it
/// has been taken in by the queue, forwards every event among them, once
/// and in the order of arrival, and then waits for the next message.
pub proof fn every_event_is_forwarded_in_order<E>(messages: Seq<Option<E>>)
    ensures
        forwards(RelayState::Receiving, delivered_in_turn(messages)) == events_in(messages),
        state_after(RelayState::Receiving, delivered_in_turn(messages)) == RelayState::Receiving,
    decreases messages.len(),
{
    if messages.len() > 0 {
        every_event_is_forwarded_in_order(messages.drop_last());
        let earlier = delivered_in_turn(messages.drop_last());
        let offered = earlier.push(RelayInput::Message(messages.last()));
        assert(offered.drop_last() =~= earlier);
        assert(offered.last() == RelayInput::Message(messages.last()));
        match messages.last() {
            Some(event) => {
                assert(state_after(RelayState::Receiving, offered) == RelayState::Forwarding);
                assert(forwards(RelayState::Receiving, offered) == events_in(
                    messages.drop_last(),
                ).push(event));
                let done = offered.push(RelayInput::Forwarded);
                assert(done.drop_last() =~= offered);
                assert(done.last() == RelayInput::<E>::Forwarded);
                assert(delivered_in_turn(messages) == done);
                assert(state_after(RelayState::Receiving, done) == RelayState::Receiving);
                assert(forwards(RelayState::Receiving, done) == forwards(
                    RelayState::Receiving,
                    offered,
                ));
            },
            None => {
                assert(delivered_in_turn(messages) == offered);
                assert(state_after(RelayState::Receiving, offered) == RelayState::Receiving);
                assert(forwards(RelayState::Receiving, offered) == events_in(
                    messages.drop_last(),
                ));
            },
        }
    }
}

/// Whether these bytes are the JSON form of an event.
pub uninterp spec fn is_cloud_event(payload: Seq<u8>) -> bool;

/// `serde_json::from_slice` at the type `cloudevents::Event`: the event
/// that the bytes encode, or nothing where they encode none. Whether they
/// do depends on the bytes alone. Which event comes out is not stated.
#[verifier::external_body]
fn decode_event(payload: &[u8]) -> (r: Option<cloudevents::Event>)
    ensures
        r is Some <==> is_cloud_event(payload@),
{
    serde_json::from_slice::<cloudevents::Event>(payload).ok()
}

/// What a relay that waits for a message does with one, given what its
/// decoding brought: an event is forwarded, anything else is passed over
/// and the relay goes on. One bad message never ends the stream.
pub fn after_decode<E>(decoded: Option<E>) -> (r: (RelayState, RelayAction<E>))
    ensures
        r == relay_step(RelayState::Receiving, RelayInput::Message(decoded)),
{
    match decoded {
        Some(event) => (RelayState::Forwarding, RelayAction::Forward(event)),
        None => (RelayState::Receiving, RelayAction::Skip),
    }
}

/// The relay of one subscription to the event subject.
#[derive(Debug)]
pub struct Relay {
    state: RelayState,
}

impl Relay {
    /// Where the relay stands.
    pub closed spec fn state(self) -> RelayState {
        self.state
    }

    /// A relay that waits for its first message.
    pub fn new() -> (r: Relay)
        ensures
            r.state() == RelayState::Receiving,
    {
        Relay { state: RelayState::Receiving }
    }

    /// Where the relay stands.
    pub fn current(&self) -> (r: RelayState)
        ensures
            r == self.state(),
    {
        self.state
    }

    /// Takes a message from the bus. Only a relay that waits for one decodes
    /// it; while a forward is pending the message is not taken in, and once
    /// the relay has ended it is not looked at.
    pub fn on_message(&mut self, payload: &[u8]) -> (r: RelayAction<cloudevents::Event>)
        ensures
            old(self).state() == RelayState::Receiving && is_cloud_event(payload@) ==> r is Forward
                && final(self).state() == RelayState::Forwarding,
            !(old(self).state() == RelayState::Receiving && is_cloud_event(payload@)) ==> (
                final(self).state(),
                r,
            ) == relay_step(old(self).state(), RelayInput::<cloudevents::Event>::Message(None)),
    {
        match self.state {
            RelayState::Receiving => {
                let (state, action) = after_decode(decode_event(payload));
                self.state = state;
                action
            },
            RelayState::Forwarding => RelayAction::Blocked,
            RelayState::Stopped => RelayAction::Ignore,
        }
    }

    /// Takes the end of a forward: `delivered` says whether the queue took
    /// the event in; it did not if the consumer has closed the queue. That
    /// is how a consumer ends the relay, and nothing is reported as an
    /// error.
    pub fn on_forwarded(&mut self, delivered: bool) -> (r: RelayAction<cloudevents::Event>)
        ensures
            (final(self).state(), r) == relay_step(
                old(self).state(),
                if delivered {
                    RelayInput::<cloudevents::Event>::Forwarded
                } else {
                    RelayInput::<cloudevents::Event>::ConsumerClosed
                },
            ),
    {
        match self.state {
            RelayState::Receiving => RelayAction::Receive,
            RelayState::Forwarding => {
                if delivered {
                    self.state = RelayState::Receiving;
                    RelayAction::Receive
                } else {
                    self.state = RelayState::Stopped;
                    RelayAction::Unsubscribe
                }
            },
            RelayState::Stopped => RelayAction::Ignore,
        }
    }

    /// Takes the end of the subscription.
    pub fn on_bus_closed(&mut self) -> (r: RelayAction<cloudevents::Event>)
        ensures
            (final(self).state(), r) == relay_step(
                old(self).state(),
                RelayInput::<cloudevents::Event>::BusClosed,
            ),
    {
        match self.state {
            RelayState::Receiving => {
                self.state = RelayState::Stopped;
                RelayAction::Halt
            },
            RelayState::Forwarding => RelayAction::Blocked,
            RelayState::Stopped => RelayAction::Ignore,
        }
    }
}

} // verus!
