use lilka_rs::channel::EventChannel;
use lilka_rs::state::{ButtonEvent, UIEvent, UI_CHANNEL_SIZE};

#[test]
fn receive_follows_send_completion_order() {
    // Two producers interleave: the sampler's button lands before the tick,
    // so it must come out before the tick, and the later button after it.
    let mut ch = EventChannel::new();
    assert!(ch.try_send(UIEvent::Button(ButtonEvent::Up)));
    assert!(ch.try_send(UIEvent::Tick));
    assert!(ch.try_send(UIEvent::Button(ButtonEvent::B)));
    assert_eq!(ch.try_receive(), Some(UIEvent::Button(ButtonEvent::Up)));
    assert_eq!(ch.try_receive(), Some(UIEvent::Tick));
    assert_eq!(ch.try_receive(), Some(UIEvent::Button(ButtonEvent::B)));
    assert_eq!(ch.try_receive(), None);
}

#[test]
fn full_channel_refuses_instead_of_dropping() {
    let mut ch = EventChannel::new();
    for _ in 0..UI_CHANNEL_SIZE {
        assert!(ch.try_send(UIEvent::Tick));
    }
    assert!(ch.is_full());
    // The extra send is refused; nothing already queued is lost.
    assert!(!ch.try_send(UIEvent::Button(ButtonEvent::A)));
    assert_eq!(ch.len(), UI_CHANNEL_SIZE);
    assert_eq!(ch.try_receive(), Some(UIEvent::Tick));
    // Space freed: the producer's retry now succeeds.
    assert!(ch.try_send(UIEvent::Button(ButtonEvent::A)));
}

#[test]
fn drain_lists_pending_events_oldest_first() {
    let mut ch = EventChannel::new();
    assert!(ch.try_send(UIEvent::Button(ButtonEvent::Left)));
    assert!(ch.try_send(UIEvent::Button(ButtonEvent::Right)));
    assert!(ch.try_send(UIEvent::Tick));
    let all = ch.drain();
    assert_eq!(
        all,
        vec![
            UIEvent::Button(ButtonEvent::Left),
            UIEvent::Button(ButtonEvent::Right),
            UIEvent::Tick,
        ]
    );
    assert!(ch.is_empty());
}

#[test]
fn empty_channel_reports_empty() {
    let mut ch = EventChannel::new();
    assert!(ch.is_empty());
    assert_eq!(ch.len(), 0);
    assert_eq!(ch.try_receive(), None);
}
