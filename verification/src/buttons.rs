//! User input: the three input sources and the debouncing that turns their
//! falling edges into events for the renderer. Every source has a producer
//! of its own, whose quiet period silences that source and no other.

use vstd::prelude::*;

verus! {

/// The input source that an event came from: button A, button B, or the
/// touch pad.
#[derive(Clone, Copy, Debug, PartialEq, Eq, Structural)]
pub enum ButtonState {
    A,
    B,
    C,
}

/// Slots of the input queue between the producers and the renderer.
pub const QUEUE_CAPACITY: usize = 3;

/// Quiet period of a source after an event, in milliseconds.
pub const DEBOUNCE_MS: u64 = 500;

/// Where the producer of one source stands.
#[derive(Clone, Copy, Debug, PartialEq, Eq, Structural)]
pub enum Debounce {
    /// Listening for a falling edge on the source.
    Armed,
    /// An event was emitted and the source's quiet period has not run out.
    Quiet,
}

/// What the producer of a source is told of that source.
#[derive(Clone, Copy, Debug, PartialEq, Eq, Structural)]
pub enum Input {
    /// A falling edge on the source.
    Edge,
    /// The source's quiet period ran out.
    Elapsed,
}

/// What a producer does next.
#[derive(Clone, Copy, Debug, PartialEq, Eq, Structural)]
pub enum InputAction {
    /// Listen for a falling edge on the source.
    AwaitEdge,
    /// Put the event in the queue, waiting while the queue is full, then stay
    /// deaf to edges on the source for `quiet_ms` milliseconds.
    Emit { event: ButtonState, quiet_ms: u64 },
    /// Nothing: the edge fell into the source's quiet period.
    Ignore,
}

/// The step of the producer of `source`. An edge becomes an event of that
/// source only while the producer is armed, and then starts the quiet
/// period; only the end of the quiet period arms the producer again.
pub open spec fn debounce_step(source: ButtonState, state: Debounce, input: Input) -> (
    Debounce,
    InputAction,
) {
    match (state, input) {
        (Debounce::Armed, Input::Edge) => (
            Debounce::Quiet,
            InputAction::Emit { event: source, quiet_ms: DEBOUNCE_MS },
        ),
        (Debounce::Quiet, Input::Edge) => (Debounce::Quiet, InputAction::Ignore),
        (_, Input::Elapsed) => (Debounce::Armed, InputAction::AwaitEdge),
    }
}

/// One step of the producer of `source`.
pub fn debounce(source: ButtonState, state: Debounce, input: Input) -> (step: (
    Debounce,
    InputAction,
))
    ensures
        step == debounce_step(source, state, input),
{
    match input {
        Input::Edge => match state {
            Debounce::Armed => (
                Debounce::Quiet,
                InputAction::Emit { event: source, quiet_ms: DEBOUNCE_MS },
            ),
            Debounce::Quiet => (Debounce::Quiet, InputAction::Ignore),
        },
        Input::Elapsed => (Debounce::Armed, InputAction::AwaitEdge),
    }
}

/// The producers of the three sources, side by side.
#[derive(Clone, Copy, Debug, PartialEq, Eq, Structural)]
pub struct Producers {
    /// The producer of button A.
    pub a: Debounce,
    /// The producer of button B.
    pub b: Debounce,
    /// The producer of the touch pad.
    pub c: Debounce,
}

impl Producers {
    /// Where the producer of `source` stands.
    pub open spec fn of(self, source: ButtonState) -> Debounce {
        match source {
            ButtonState::A => self.a,
            ButtonState::B => self.b,
            ButtonState::C => self.c,
        }
    }

    /// These producers with that of `source` moved to `state`.
    pub open spec fn with(self, source: ButtonState, state: Debounce) -> Producers {
        match source {
            ButtonState::A => Producers { a: state, ..self },
            ButtonState::B => Producers { b: state, ..self },
            ButtonState::C => Producers { c: state, ..self },
        }
    }

    /// The step of the producers when `source` is told `input`: the step of
    /// that source's producer, the others left as they are.
    pub open spec fn step(self, source: ButtonState, input: Input) -> (Producers, InputAction) {
        let (next, action) = debounce_step(source, self.of(source), input);
        (self.with(source, next), action)
    }

    /// The events that the producers emit over a run of inputs, each input
    /// with the source it is about, in order.
    pub open spec fn emitted(self, inputs: Seq<(ButtonState, Input)>) -> Seq<ButtonState>
        decreases inputs.len(),
    {
        if inputs.len() == 0 {
            Seq::empty()
        } else {
            let (next, action) = self.step(inputs[0].0, inputs[0].1);
            let rest = next.emitted(inputs.subrange(1, inputs.len() as int));
            match action {
                InputAction::Emit { event, .. } => seq![event] + rest,
                _ => rest,
            }
        }
    }

    /// Producers that are all armed.
    pub fn new() -> (producers: Producers)
        ensures
            producers == (Producers {
                a: Debounce::Armed,
                b: Debounce::Armed,
                c: Debounce::Armed,
            }),
    {
        Producers { a: Debounce::Armed, b: Debounce::Armed, c: Debounce::Armed }
    }

    /// One step of the producers when `source` is told `input`.
    pub fn advance(self, source: ButtonState, input: Input) -> (step: (Producers, InputAction))
        ensures
            step == self.step(source, input),
    {
        match source {
            ButtonState::A => {
                let (next, action) = debounce(source, self.a, input);
                (Producers { a: next, b: self.b, c: self.c }, action)
            },
            ButtonState::B => {
                let (next, action) = debounce(source, self.b, input);
                (Producers { a: self.a, b: next, c: self.c }, action)
            },
            ButtonState::C => {
                let (next, action) = debounce(source, self.c, input);
                (Producers { a: self.a, b: self.b, c: next }, action)
            },
        }
    }
}

/// An input moves the producer of its own source and no other, and what it
/// brings about depends on that producer alone: an edge is emitted if and
/// only if its own source is armed, whatever the other sources are in.
pub proof fn lemma_step_touches_one_source(
    producers: Producers,
    source: ButtonState,
    input: Input,
    other: ButtonState,
)
    requires
        other != source,
    ensures
        producers.step(source, input).0.of(other) == producers.of(other),
        producers.step(source, input) == (
            producers.with(source, debounce_step(source, producers.of(source), input).0),
            debounce_step(source, producers.of(source), input).1,
        ),
        producers.step(source, Input::Edge).1 == (InputAction::Emit {
            event: source,
            quiet_ms: DEBOUNCE_MS,
        }) <==> producers.of(source) == Debounce::Armed,
{
}

/// A press of one source during the quiet period of another is not lost: two
/// edges on different armed sources, one right after the other, are both
/// emitted, in their order.
pub proof fn lemma_sources_are_independent(
    producers: Producers,
    first: ButtonState,
    second: ButtonState,
)
    requires
        first != second,
        producers.of(first) == Debounce::Armed,
        producers.of(second) == Debounce::Armed,
    ensures
        producers.emitted(seq![(first, Input::Edge), (second, Input::Edge)]) == seq![
            first,
            second,
        ],
{
    let inputs = seq![(first, Input::Edge), (second, Input::Edge)];
    let after_first = producers.step(first, Input::Edge).0;
    let tail = inputs.subrange(1, inputs.len() as int);
    assert(tail =~= seq![(second, Input::Edge)]);
    let after_second = after_first.step(second, Input::Edge).0;
    assert(tail.subrange(1, tail.len() as int) =~= Seq::<(ButtonState, Input)>::empty());
    assert(after_second.emitted(tail.subrange(1, tail.len() as int)) =~= Seq::<
        ButtonState,
    >::empty());
    assert(after_first.emitted(tail) =~= seq![second]);
    assert(producers.emitted(inputs) =~= seq![first, second]);
}

/// While a source is quiet it emits nothing: over a run of inputs in which
/// the quiet period of `source` does not end, none of the events emitted is
/// of that source, whatever happens on the other sources.
pub proof fn lemma_quiet_source_emits_nothing(
    producers: Producers,
    source: ButtonState,
    inputs: Seq<(ButtonState, Input)>,
)
    requires
        producers.of(source) == Debounce::Quiet,
        forall|i: int| 0 <= i < inputs.len() ==> inputs[i] != (source, Input::Elapsed),
    ensures
        forall|k: int|
            0 <= k < producers.emitted(inputs).len() ==> producers.emitted(inputs)[k] != source,
    decreases inputs.len(),
{
    if inputs.len() > 0 {
        let (next, action) = producers.step(inputs[0].0, inputs[0].1);
        let rest = inputs.subrange(1, inputs.len() as int);
        assert(inputs[0] != (source, Input::Elapsed));
        assert(next.of(source) == Debounce::Quiet);
        assert forall|i: int| 0 <= i < rest.len() implies rest[i] != (source, Input::Elapsed) by {
            assert(rest[i] == inputs[i + 1]);
        }
        lemma_quiet_source_emits_nothing(next, source, rest);
    }
}

/// A press yields exactly one event, however the contact bounces: a first
/// edge on an armed source, followed by any number of further edges on the
/// same source before its quiet period ends, emits that source once.
pub proof fn lemma_one_press_one_event(producers: Producers, source: ButtonState, bounces: nat)
    requires
        producers.of(source) == Debounce::Armed,
    ensures
        producers.emitted(Seq::new(bounces + 1, |i: int| (source, Input::Edge))) == seq![source],
{
    let inputs = Seq::new(bounces + 1, |i: int| (source, Input::Edge));
    let next = producers.step(source, Input::Edge).0;
    let rest = inputs.subrange(1, inputs.len() as int);
    assert forall|i: int| 0 <= i < rest.len() implies rest[i] != (source, Input::Elapsed) by {
        assert(rest[i] == inputs[i + 1]);
    }
    lemma_quiet_source_emits_nothing(next, source, rest);
    lemma_emits_sources_of_edges(next, rest);
    let tail = next.emitted(rest);
    if tail.len() > 0 {
        let j = choose|j: int| 0 <= j < rest.len() && rest[j].0 == tail[0];
        assert(rest[j] == inputs[j + 1]);
        assert(tail[0] != source);
    }
    assert(tail =~= Seq::<ButtonState>::empty());
    assert(producers.emitted(inputs) =~= seq![source]);
}

/// Every event emitted is of a source that an input of the run is about.
pub proof fn lemma_emits_sources_of_edges(producers: Producers, inputs: Seq<(ButtonState, Input)>)
    ensures
        forall|k: int|
            0 <= k < producers.emitted(inputs).len() ==> exists|j: int|
                0 <= j < inputs.len() && inputs[j].0 == #[trigger] producers.emitted(inputs)[k],
    decreases inputs.len(),
{
    if inputs.len() > 0 {
        let (next, action) = producers.step(inputs[0].0, inputs[0].1);
        let rest = inputs.subrange(1, inputs.len() as int);
        lemma_emits_sources_of_edges(next, rest);
        let all = producers.emitted(inputs);
        assert forall|k: int| 0 <= k < all.len() implies exists|j: int|
            0 <= j < inputs.len() && inputs[j].0 == #[trigger] all[k] by {
            let shift: int = if action is Emit { 1 } else { 0 };
            if action is Emit && k == 0 {
                assert(inputs[0].0 == all[0]);
            } else {
                let inner = next.emitted(rest);
                assert(all[k] == inner[k - shift]);
                let j = choose|j: int| 0 <= j < rest.len() && rest[j].0 == inner[k - shift];
                assert(rest[j] == inputs[j + 1]);
                assert(inputs[j + 1].0 == all[k]);
            }
        }
    }
}

} // verus!
