//! Scatter and gather: one request to every listener, and the replies that
//! reach the call's own reply subject while its window is open.
//!
//! How many will reply is not known, so nothing but the clock ends a
//! gathering: not a number of replies, and not a pause between them.

use vstd::prelude::*;
use vstd::string::*;

verus! {

/// A gathering as the contracts see it.
pub struct Gathering<T> {
    /// The reply subject of this call. No other call has the same.
    pub inbox: Seq<char>,
    /// The length of the window, in milliseconds.
    pub window: u64,
    /// What was gathered so far, in the order of arrival.
    pub items: Seq<T>,
    /// Whether the window was seen to have elapsed.
    pub done: bool,
}

/// What can happen to a gathering. Times are milliseconds since the request
/// was published.
pub enum GatherInput<T> {
    /// A message arrived on the subject `to`; it decoded to `item`, or did
    /// not decode.
    Reply { to: Seq<char>, at: u64, item: Option<T> },
    /// The clock was read.
    Tick { at: u64 },
}

impl<T> GatherInput<T> {
    /// The time at which the input was seen.
    pub open spec fn time(self) -> u64 {
        match self {
            GatherInput::Reply { at, .. } => at,
            GatherInput::Tick { at } => at,
        }
    }

    /// Whether the input is a reply on the subject `inbox` that arrived
    /// before `window` had elapsed.
    pub open spec fn replies_within(self, inbox: Seq<char>, window: u64) -> bool {
        match self {
            GatherInput::Reply { to, at, .. } => to == inbox && at < window,
            GatherInput::Tick { .. } => false,
        }
    }
}

/// What the owner of a gathering has to do next.
#[derive(Clone, Copy, PartialEq, Eq, Structural, Debug)]
pub enum GatherAction {
    /// Go on listening, for `remaining_ms` milliseconds at most.
    Wait { remaining_ms: u64 },
    /// The window has elapsed: unsubscribe and take the items.
    Done,
}

/// A gathering that has just begun.
pub open spec fn begin<T>(inbox: Seq<char>, window: u64) -> Gathering<T> {
    Gathering { inbox, window, items: Seq::empty(), done: false }
}

/// One step of a gathering. An input seen at or after the end of the window
/// ends the gathering, and a reply that comes with it is too late. Before
/// that, a reply on the gathering's own subject is kept if it decoded; one
/// that did not decode is passed over and changes nothing; and a message on
/// any other subject is not this gathering's.
pub open spec fn gather_step<T>(state: Gathering<T>, input: GatherInput<T>) -> Gathering<T> {
    if state.done {
        state
    } else if input.time() >= state.window {
        Gathering { done: true, ..state }
    } else {
        match input {
            GatherInput::Reply { to, at, item: Some(value) } => if to == state.inbox {
                Gathering { items: state.items.push(value), ..state }
            } else {
                state
            },
            _ => state,
        }
    }
}

/// What to do after a step that was taken at the time `at` and led to
/// `next`.
pub open spec fn gather_action<T>(next: Gathering<T>, at: u64) -> GatherAction {
    if next.done {
        GatherAction::Done
    } else if at >= next.window {
        GatherAction::Wait { remaining_ms: 0 }
    } else {
        GatherAction::Wait { remaining_ms: (next.window - at) as u64 }
    }
}

/// Where a gathering stands after `inputs`.
pub open spec fn gather_after<T>(start: Gathering<T>, inputs: Seq<GatherInput<T>>) -> Gathering<T>
    decreases inputs.len(),
{
    if inputs.len() == 0 {
        start
    } else {
        gather_step(gather_after(start, inputs.drop_last()), inputs.last())
    }
}

/// The values that the replies among `inputs` decoded to, in their order.
pub open spec fn decoded_in<T>(inputs: Seq<GatherInput<T>>) -> Seq<T>
    decreases inputs.len(),
{
    if inputs.len() == 0 {
        Seq::empty()
    } else {
        match inputs.last() {
            GatherInput::Reply { item: Some(value), .. } => decoded_in(inputs.drop_last()).push(
                value,
            ),
            _ => decoded_in(inputs.drop_last()),
        }
    }
}

/// How many of `inputs` are replies that did not decode.
pub open spec fn malformed_in<T>(inputs: Seq<GatherInput<T>>) -> nat
    decreases inputs.len(),
{
    if inputs.len() == 0 {
        0
    } else {
        match inputs.last() {
            GatherInput::Reply { item: None, .. } => malformed_in(inputs.drop_last()) + 1,
            _ => malformed_in(inputs.drop_last()),
        }
    }
}

/// Whether each of `inputs` is a reply on the subject `inbox` that arrived
/// before `window` had elapsed.
pub open spec fn replies_within<T>(inputs: Seq<GatherInput<T>>, inbox: Seq<char>, window: u64) -> bool {
    forall|i: int| 0 <= i < inputs.len() ==> (#[trigger] inputs[i]).replies_within(inbox, window)
}

/// A gathering ends when the clock says so and not before: after any
/// inputs it is done exactly if one of them was seen at or after the end of
/// the window. Neither the number of replies nor their absence ends it. It
/// never holds more than the replies that decoded, so that without any it
/// ends with nothing gathered, which is a result like any other.
pub proof fn ends_only_when_the_window_has_elapsed<T>(
    inbox: Seq<char>,
    window: u64,
    inputs: Seq<GatherInput<T>>,
)
    ensures
        gather_after(begin(inbox, window), inputs).done <==> exists|i: int|
            0 <= i < inputs.len() && (#[trigger] inputs[i]).time() >= window,
        gather_after(begin(inbox, window), inputs).window == window,
        gather_after(begin(inbox, window), inputs).inbox == inbox,
        gather_after(begin(inbox, window), inputs).items.len() <= decoded_in(inputs).len(),
    decreases inputs.len(),
{
    if inputs.len() > 0 {
        let earlier = inputs.drop_last();
        ends_only_when_the_window_has_elapsed(inbox, window, earlier);
        let before = gather_after(begin(inbox, window), earlier);
        if before.done {
            let i = choose|i: int| 0 <= i < earlier.len() && (#[trigger] earlier[i]).time() >= window;
            assert(inputs[i] == earlier[i]);
        } else if inputs.last().time() >= window {
            assert(inputs[inputs.len() - 1].time() >= window);
        } else {
            assert forall|i: int| 0 <= i < inputs.len() implies !((#[trigger] inputs[i]).time()
                >= window) by {
                if i < earlier.len() {
                    assert(inputs[i] == earlier[i]);
                }
            }
        }
    }
}

/// Of replies that all arrive within the window, exactly those that decode
/// are gathered, in the order of arrival; those that do not decode are
/// passed over, however many they are, and do not end the gathering.
pub proof fn keeps_exactly_what_decodes<T>(inbox: Seq<char>, window: u64, inputs: Seq<GatherInput<T>>)
    requires
        replies_within(inputs, inbox, window),
    ensures
        gather_after(begin(inbox, window), inputs).items == decoded_in(inputs),
        !gather_after(begin(inbox, window), inputs).done,
        decoded_in(inputs).len() + malformed_in(inputs) == inputs.len(),
    decreases inputs.len(),
{
    if inputs.len() > 0 {
        let earlier = inputs.drop_last();
        assert forall|i: int| 0 <= i < earlier.len() implies (#[trigger] earlier[i]).replies_within(
            inbox,
            window,
        ) by {
            assert(earlier[i] == inputs[i]);
        }
        keeps_exactly_what_decodes(inbox, window, earlier);
        ends_only_when_the_window_has_elapsed(inbox, window, earlier);
        assert(inputs[inputs.len() - 1] == inputs.last());
    }
}

/// Once the window has elapsed, the gathering holds what had arrived
/// before, and nothing that comes later is added.
pub proof fn nothing_is_added_after_the_end<T>(state: Gathering<T>, inputs: Seq<GatherInput<T>>)
    requires
        state.done,
    ensures
        gather_after(state, inputs) == state,
    decreases inputs.len(),
{
    if inputs.len() > 0 {
        nothing_is_added_after_the_end(state, inputs.drop_last());
    }
}

/// Two gatherings with different reply subjects never hear each other's
/// replies: a message is added to one of them at most, the one whose
/// subject it arrived on.
pub proof fn gatherings_do_not_share_replies<T>(
    one: Gathering<T>,
    other: Gathering<T>,
    to: Seq<char>,
    at: u64,
    item: Option<T>,
)
    requires
        one.inbox != other.inbox,
    ensures
        to != one.inbox ==> gather_step(one, GatherInput::Reply { to, at, item }).items
            == one.items,
        to != other.inbox ==> gather_step(other, GatherInput::Reply { to, at, item }).items
            == other.items,
        to != one.inbox || to != other.inbox,
{
}

/// The gathering of one broadcast.
#[derive(Debug)]
pub struct Collector<T> {
    reply_subject: String,
    window_ms: u64,
    items: Vec<T>,
    done: bool,
}

impl<T> View for Collector<T> {
    type V = Gathering<T>;

    closed spec fn view(&self) -> Gathering<T> {
        Gathering {
            inbox: self.reply_subject@,
            window: self.window_ms,
            items: self.items@,
            done: self.done,
        }
    }
}

impl<T> Collector<T> {
    /// Begins a gathering on `reply_subject` for `window_ms` milliseconds.
    /// The subject has to be subscribed to before the request is published,
    /// so that no quick reply is missed.
    pub fn new(reply_subject: String, window_ms: u64) -> (r: Self)
        ensures
            r@ == begin::<T>(reply_subject@, window_ms),
    {
        Collector { reply_subject, window_ms, items: Vec::new(), done: false }
    }

    fn next(&self, elapsed_ms: u64) -> (r: GatherAction)
        ensures
            r == gather_action(self@, elapsed_ms),
    {
        if self.done {
            GatherAction::Done
        } else if elapsed_ms >= self.window_ms {
            GatherAction::Wait { remaining_ms: 0 }
        } else {
            GatherAction::Wait { remaining_ms: self.window_ms - elapsed_ms }
        }
    }

    /// Takes a message that arrived on `subject` after `elapsed_ms`
    /// milliseconds; `decoded` is what it decoded to, if it did.
    pub fn on_reply(&mut self, subject: &str, elapsed_ms: u64, decoded: Option<T>) -> (r:
        GatherAction)
        ensures
            final(self)@ == gather_step(
                old(self)@,
                GatherInput::Reply { to: subject@, at: elapsed_ms, item: decoded },
            ),
            r == gather_action(final(self)@, elapsed_ms),
    {
        if !self.done {
            if elapsed_ms >= self.window_ms {
                self.done = true;
            } else {
                match decoded {
                    Some(value) => {
                        if same_text(subject, self.reply_subject.as_str()) {
                            self.items.push(value);
                        }
                    },
                    None => {},
                }
            }
        }
        self.next(elapsed_ms)
    }

    /// Takes a reading of the clock, `elapsed_ms` milliseconds after the
    /// request was published.
    pub fn on_tick(&mut self, elapsed_ms: u64) -> (r: GatherAction)
        ensures
            final(self)@ == gather_step(old(self)@, GatherInput::<T>::Tick { at: elapsed_ms }),
            r == gather_action(final(self)@, elapsed_ms),
    {
        if !self.done && elapsed_ms >= self.window_ms {
            self.done = true;
        }
        self.next(elapsed_ms)
    }

    /// The reply subject of the gathering.
    pub fn reply_subject(&self) -> (r: &str)
        ensures
            r@ == self@.inbox,
    {
        self.reply_subject.as_str()
    }

    /// Whether the window was seen to have elapsed.
    pub fn is_done(&self) -> (r: bool)
        ensures
            r == self@.done,
    {
        self.done
    }

    /// Hands out what was gathered, once the window has elapsed: the items
    /// in the order of arrival, which may be none. Before that there is no
    /// result, and the gathering is handed back to go on with.
    pub fn finish(self) -> (r: Result<Vec<T>, Self>)
        ensures
            match r {
                Ok(items) => self@.done && items@ == self@.items,
                Err(same) => !self@.done && same == self,
            },
    {
        if self.done {
            Ok(self.items)
        } else {
            Err(self)
        }
    }
}

/// Tells whether two texts are the same.
fn same_text(a: &str, b: &str) -> (r: bool)
    ensures
        r == (a@ == b@),
{
    let n = a.unicode_len();
    if n != b.unicode_len() {
        return false;
    }
    let mut i: usize = 0;
    while i < n
        invariant
            n == a@.len(),
            n == b@.len(),
            i <= n,
            forall|j: int| 0 <= j < i ==> a@[j] == b@[j],
        decreases n - i,
    {
        if a.get_char(i) != b.get_char(i) {
            return false;
        }
        i = i + 1;
    }
    assert(a@ =~= b@);
    true
}

} // verus!
