//! Button sampling model: bitmask snapshots and their difference as events.
//!
//! A [`ButtonSet`] is one debounced sample of all button lines. Comparing two
//! consecutive samples yields exactly the buttons whose bit went from
//! inactive to active, in a fixed priority order, one event per press.

use vstd::prelude::*;
use crate::state::ButtonEvent;

verus! {

#[derive(Copy, Clone, Debug, Default, PartialEq, Eq, Structural)]
pub struct ButtonSet(pub u16);

impl ButtonSet {
    pub const UP: u16 = 1;

    pub const DOWN: u16 = 2;

    pub const LEFT: u16 = 4;

    pub const RIGHT: u16 = 8;

    pub const A: u16 = 16;

    pub const B: u16 = 32;

    pub const C: u16 = 64;

    pub const D: u16 = 128;

    pub fn is_pressed(&self, mask: u16) -> (r: bool)
        ensures
            r == ((self.0 & mask) != 0),
    {
        (self.0 & mask) != 0
    }
}

/// The bit that stands for a button in a [`ButtonSet`] sample.
pub open spec fn mask_of(e: ButtonEvent) -> u16 {
    match e {
        ButtonEvent::Up => ButtonSet::UP,
        ButtonEvent::Down => ButtonSet::DOWN,
        ButtonEvent::Left => ButtonSet::LEFT,
        ButtonEvent::Right => ButtonSet::RIGHT,
        ButtonEvent::A => ButtonSet::A,
        ButtonEvent::B => ButtonSet::B,
        ButtonEvent::C => ButtonSet::C,
        ButtonEvent::D => ButtonSet::D,
    }
}

/// The fixed priority order in which simultaneous presses are reported.
pub open spec fn priority_order() -> Seq<ButtonEvent> {
    seq![
        ButtonEvent::Up,
        ButtonEvent::Down,
        ButtonEvent::Left,
        ButtonEvent::Right,
        ButtonEvent::A,
        ButtonEvent::B,
        ButtonEvent::C,
        ButtonEvent::D,
    ]
}

/// A button counts as newly pressed when its bit was inactive in the previous
/// sample and is active in the current one.
pub open spec fn newly_pressed(prev: u16, curr: u16, e: ButtonEvent) -> bool {
    prev & mask_of(e) == 0 && curr & mask_of(e) != 0
}

/// "Newly pressed" as a predicate over buttons, for one fixed sample step.
pub open spec fn pressed_pred(prev: u16, curr: u16) -> spec_fn(ButtonEvent) -> bool {
    |e: ButtonEvent| newly_pressed(prev, curr, e)
}

/// One optional event, present exactly when the button is newly pressed.
pub open spec fn maybe_event(prev: u16, curr: u16, e: ButtonEvent) -> Seq<ButtonEvent> {
    if newly_pressed(prev, curr, e) {
        seq![e]
    } else {
        Seq::empty()
    }
}

/// The events of one sample step: each button's optional event, concatenated
/// in priority order.
pub open spec fn spec_get_events(prev: u16, curr: u16) -> Seq<ButtonEvent> {
    maybe_event(prev, curr, ButtonEvent::Up) + maybe_event(prev, curr, ButtonEvent::Down)
        + maybe_event(prev, curr, ButtonEvent::Left) + maybe_event(prev, curr, ButtonEvent::Right)
        + maybe_event(prev, curr, ButtonEvent::A) + maybe_event(prev, curr, ButtonEvent::B)
        + maybe_event(prev, curr, ButtonEvent::C) + maybe_event(prev, curr, ButtonEvent::D)
}

/// The same events, written as a filter of the priority order.
pub open spec fn pressed_filter(prev: u16, curr: u16) -> Seq<ButtonEvent> {
    priority_order().filter(pressed_pred(prev, curr))
}

proof fn lemma_filter_singleton(e: ButtonEvent, pred: spec_fn(ButtonEvent) -> bool)
    ensures
        seq![e].filter(pred) == (if pred(e) {
            seq![e]
        } else {
            Seq::<ButtonEvent>::empty()
        }),
{
    reveal_with_fuel(Seq::<_>::filter, 2);
    assert(seq![e].drop_last() =~= Seq::<ButtonEvent>::empty());
    if pred(e) {
        assert(seq![e].filter(pred) =~= seq![e]);
    } else {
        assert(seq![e].filter(pred) =~= Seq::<ButtonEvent>::empty());
    }
}

/// The step events are exactly the priority order filtered by "newly
/// pressed": simultaneous presses come out in the fixed order Up, Down,
/// Left, Right, A, B, C, D, and no other button is reported.
#[verifier::rlimit(100)]
pub proof fn lemma_get_events_ordered(prev: u16, curr: u16)
    ensures
        spec_get_events(prev, curr) == pressed_filter(prev, curr),
{
    let pred = pressed_pred(prev, curr);
    let up: Seq<ButtonEvent> = seq![ButtonEvent::Up];
    let down: Seq<ButtonEvent> = seq![ButtonEvent::Down];
    let left: Seq<ButtonEvent> = seq![ButtonEvent::Left];
    let right: Seq<ButtonEvent> = seq![ButtonEvent::Right];
    let a: Seq<ButtonEvent> = seq![ButtonEvent::A];
    let b: Seq<ButtonEvent> = seq![ButtonEvent::B];
    let c: Seq<ButtonEvent> = seq![ButtonEvent::C];
    let d: Seq<ButtonEvent> = seq![ButtonEvent::D];
    lemma_filter_singleton(ButtonEvent::Up, pred);
    lemma_filter_singleton(ButtonEvent::Down, pred);
    lemma_filter_singleton(ButtonEvent::Left, pred);
    lemma_filter_singleton(ButtonEvent::Right, pred);
    lemma_filter_singleton(ButtonEvent::A, pred);
    lemma_filter_singleton(ButtonEvent::B, pred);
    lemma_filter_singleton(ButtonEvent::C, pred);
    lemma_filter_singleton(ButtonEvent::D, pred);
    let t2 = up + down;
    Seq::<ButtonEvent>::filter_distributes_over_add(up, down, pred);
    let t3 = t2 + left;
    Seq::<ButtonEvent>::filter_distributes_over_add(t2, left, pred);
    let t4 = t3 + right;
    Seq::<ButtonEvent>::filter_distributes_over_add(t3, right, pred);
    let t5 = t4 + a;
    Seq::<ButtonEvent>::filter_distributes_over_add(t4, a, pred);
    let t6 = t5 + b;
    Seq::<ButtonEvent>::filter_distributes_over_add(t5, b, pred);
    let t7 = t6 + c;
    Seq::<ButtonEvent>::filter_distributes_over_add(t6, c, pred);
    let t8 = t7 + d;
    Seq::<ButtonEvent>::filter_distributes_over_add(t7, d, pred);
    assert(t8.filter(pred) == spec_get_events(prev, curr));
    assert(priority_order() =~= t8);
}

/// A button appears in the step events if and only if it is newly pressed;
/// in particular a button already held in the previous sample is not
/// reported again.
pub proof fn lemma_get_events_exact(prev: u16, curr: u16, e: ButtonEvent)
    ensures
        spec_get_events(prev, curr).contains(e) <==> newly_pressed(prev, curr, e),
{
    lemma_get_events_ordered(prev, curr);
    let pred = pressed_pred(prev, curr);
    let po = priority_order();
    let s = pressed_filter(prev, curr);
    if newly_pressed(prev, curr, e) {
        let i: int = match e {
            ButtonEvent::Up => 0,
            ButtonEvent::Down => 1,
            ButtonEvent::Left => 2,
            ButtonEvent::Right => 3,
            ButtonEvent::A => 4,
            ButtonEvent::B => 5,
            ButtonEvent::C => 6,
            ButtonEvent::D => 7,
        };
        assert(po[i] == e);
        po.lemma_filter_contains(pred, i);
    } else {
        if s.contains(e) {
            let i = choose|i: int| 0 <= i < s.len() && s[i] == e;
            po.lemma_filter_pred(pred, i);
        }
    }
}

/// The sampler's cross-cycle state: the previous debounced sample. Each
/// poll diffs the fresh sample against it and emits the new presses; the
/// stored sample is replaced unconditionally, whether or not any event
/// fired, so a held button can never fire twice.
pub struct ButtonSampler {
    prev: ButtonSet,
}

impl ButtonSampler {
    pub closed spec fn spec_prev(&self) -> ButtonSet {
        self.prev
    }

    /// A sampler starts from "nothing pressed": buttons already held at
    /// startup count as pressed on the first poll.
    pub fn new() -> (r: ButtonSampler)
        ensures
            r.spec_prev() == ButtonSet(0),
    {
        ButtonSampler { prev: ButtonSet(0) }
    }

    /// One poll cycle: emit the newly pressed buttons in priority order and
    /// remember the sample.
    pub fn sample(&mut self, curr: ButtonSet) -> (events: Vec<ButtonEvent>)
        ensures
            events@ == spec_get_events(old(self).spec_prev().0, curr.0),
            final(self).spec_prev() == curr,
    {
        let events = get_events(self.prev, curr);
        self.prev = curr;
        events
    }
}

/// Each button mask singles out one bit of `curr & !prev`: the bit is set
/// there exactly when it is clear in `prev` and set in `curr`.
proof fn lemma_changed_bits(prev: u16, curr: u16)
    by (bit_vector)
    ensures
        ((curr & !prev) & 1u16 != 0) <==> (prev & 1u16 == 0 && curr & 1u16 != 0),
        ((curr & !prev) & 2u16 != 0) <==> (prev & 2u16 == 0 && curr & 2u16 != 0),
        ((curr & !prev) & 4u16 != 0) <==> (prev & 4u16 == 0 && curr & 4u16 != 0),
        ((curr & !prev) & 8u16 != 0) <==> (prev & 8u16 == 0 && curr & 8u16 != 0),
        ((curr & !prev) & 16u16 != 0) <==> (prev & 16u16 == 0 && curr & 16u16 != 0),
        ((curr & !prev) & 32u16 != 0) <==> (prev & 32u16 == 0 && curr & 32u16 != 0),
        ((curr & !prev) & 64u16 != 0) <==> (prev & 64u16 == 0 && curr & 64u16 != 0),
        ((curr & !prev) & 128u16 != 0) <==> (prev & 128u16 == 0 && curr & 128u16 != 0),
{
}

/// Turn a bitmask change into the discrete events the navigator consumes.
/// Yields exactly the buttons whose bit is inactive in `prev` and active in
/// `curr`, in the fixed priority order Up, Down, Left, Right, A, B, C, D.
#[verifier::rlimit(100)]
pub fn get_events(prev: ButtonSet, curr: ButtonSet) -> (events: Vec<ButtonEvent>)
    ensures
        events@ == spec_get_events(prev.0, curr.0),
        events@ == pressed_filter(prev.0, curr.0),
{
    let changed: u16 = curr.0 & !prev.0;
    let mut events: Vec<ButtonEvent> = Vec::new();
    proof {
        lemma_changed_bits(prev.0, curr.0);
    }
    if changed & ButtonSet::UP != 0 {
        events.push(ButtonEvent::Up);
    }
    proof {
        assert(events@ =~= maybe_event(prev.0, curr.0, ButtonEvent::Up));
    }
    if changed & ButtonSet::DOWN != 0 {
        events.push(ButtonEvent::Down);
    }
    proof {
        assert(events@ =~= maybe_event(prev.0, curr.0, ButtonEvent::Up) + maybe_event(
            prev.0,
            curr.0,
            ButtonEvent::Down,
        ));
    }
    if changed & ButtonSet::LEFT != 0 {
        events.push(ButtonEvent::Left);
    }
    proof {
        assert(events@ =~= maybe_event(prev.0, curr.0, ButtonEvent::Up) + maybe_event(
            prev.0,
            curr.0,
            ButtonEvent::Down,
        ) + maybe_event(prev.0, curr.0, ButtonEvent::Left));
    }
    if changed & ButtonSet::RIGHT != 0 {
        events.push(ButtonEvent::Right);
    }
    proof {
        assert(events@ =~= maybe_event(prev.0, curr.0, ButtonEvent::Up) + maybe_event(
            prev.0,
            curr.0,
            ButtonEvent::Down,
        ) + maybe_event(prev.0, curr.0, ButtonEvent::Left) + maybe_event(
            prev.0,
            curr.0,
            ButtonEvent::Right,
        ));
    }
    if changed & ButtonSet::A != 0 {
        events.push(ButtonEvent::A);
    }
    proof {
        assert(events@ =~= maybe_event(prev.0, curr.0, ButtonEvent::Up) + maybe_event(
            prev.0,
            curr.0,
            ButtonEvent::Down,
        ) + maybe_event(prev.0, curr.0, ButtonEvent::Left) + maybe_event(
            prev.0,
            curr.0,
            ButtonEvent::Right,
        ) + maybe_event(prev.0, curr.0, ButtonEvent::A));
    }
    if changed & ButtonSet::B != 0 {
        events.push(ButtonEvent::B);
    }
    proof {
        assert(events@ =~= maybe_event(prev.0, curr.0, ButtonEvent::Up) + maybe_event(
            prev.0,
            curr.0,
            ButtonEvent::Down,
        ) + maybe_event(prev.0, curr.0, ButtonEvent::Left) + maybe_event(
            prev.0,
            curr.0,
            ButtonEvent::Right,
        ) + maybe_event(prev.0, curr.0, ButtonEvent::A) + maybe_event(
            prev.0,
            curr.0,
            ButtonEvent::B,
        ));
    }
    if changed & ButtonSet::C != 0 {
        events.push(ButtonEvent::C);
    }
    proof {
        assert(events@ =~= maybe_event(prev.0, curr.0, ButtonEvent::Up) + maybe_event(
            prev.0,
            curr.0,
            ButtonEvent::Down,
        ) + maybe_event(prev.0, curr.0, ButtonEvent::Left) + maybe_event(
            prev.0,
            curr.0,
            ButtonEvent::Right,
        ) + maybe_event(prev.0, curr.0, ButtonEvent::A) + maybe_event(
            prev.0,
            curr.0,
            ButtonEvent::B,
        ) + maybe_event(prev.0, curr.0, ButtonEvent::C));
    }
    if changed & ButtonSet::D != 0 {
        events.push(ButtonEvent::D);
    }
    proof {
        assert(events@ =~= spec_get_events(prev.0, curr.0));
        lemma_get_events_ordered(prev.0, curr.0);
    }
    events
}

} // verus!
