use lilka_rs::input::{get_events, ButtonSampler, ButtonSet};
use lilka_rs::state::ButtonEvent;

#[test]
fn sampler_remembers_the_sample_between_polls() {
    let mut sampler = ButtonSampler::new();
    // First poll: A goes down.
    assert_eq!(sampler.sample(ButtonSet(ButtonSet::A)), vec![ButtonEvent::A]);
    // Held across the next polls: no repeat, even with no event at all.
    assert_eq!(sampler.sample(ButtonSet(ButtonSet::A)), vec![]);
    // C joins while A stays held.
    assert_eq!(
        sampler.sample(ButtonSet(ButtonSet::A | ButtonSet::C)),
        vec![ButtonEvent::C]
    );
    // Everything released, then A pressed again: a fresh event.
    assert_eq!(sampler.sample(ButtonSet(0)), vec![]);
    assert_eq!(sampler.sample(ButtonSet(ButtonSet::A)), vec![ButtonEvent::A]);
}

#[test]
fn up_bit_newly_set_yields_up() {
    let events = get_events(ButtonSet(0b0000_0000), ButtonSet(0b0000_0001));
    assert_eq!(events, vec![ButtonEvent::Up]);
}

#[test]
fn up_and_down_together_come_in_priority_order() {
    let events = get_events(ButtonSet(0b0000_0000), ButtonSet(0b0000_0011));
    assert_eq!(events, vec![ButtonEvent::Up, ButtonEvent::Down]);
}

#[test]
fn held_button_fires_only_once() {
    // Up was already active in the previous sample: no repeat event.
    let events = get_events(ButtonSet(0b0000_0001), ButtonSet(0b0000_0001));
    assert_eq!(events, vec![]);
    // Down joins while Up stays held: only Down is reported.
    let events = get_events(ButtonSet(0b0000_0001), ButtonSet(0b0000_0011));
    assert_eq!(events, vec![ButtonEvent::Down]);
}

#[test]
fn released_buttons_yield_nothing() {
    let events = get_events(ButtonSet(0b1111_1111), ButtonSet(0b0000_0000));
    assert_eq!(events, vec![]);
}

#[test]
fn all_buttons_at_once_keep_the_fixed_order() {
    let events = get_events(ButtonSet(0), ButtonSet(0b1111_1111));
    assert_eq!(
        events,
        vec![
            ButtonEvent::Up,
            ButtonEvent::Down,
            ButtonEvent::Left,
            ButtonEvent::Right,
            ButtonEvent::A,
            ButtonEvent::B,
            ButtonEvent::C,
            ButtonEvent::D,
        ]
    );
}

#[test]
fn scattered_bits_skip_unchanged_ones() {
    // Left held, Right and D newly pressed, Up released.
    let events = get_events(ButtonSet(0b0000_0101), ButtonSet(0b1000_1100));
    assert_eq!(events, vec![ButtonEvent::Right, ButtonEvent::D]);
}

#[test]
fn is_pressed_reads_single_bits() {
    let set = ButtonSet(ButtonSet::UP | ButtonSet::B);
    assert!(set.is_pressed(ButtonSet::UP));
    assert!(set.is_pressed(ButtonSet::B));
    assert!(!set.is_pressed(ButtonSet::DOWN));
    assert!(!set.is_pressed(ButtonSet::D));
}
