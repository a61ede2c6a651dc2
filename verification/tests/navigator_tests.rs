use lilka_rs::clock::ClockService;
use lilka_rs::navigator::Navigator;
use lilka_rs::network::NetworkService;
use lilka_rs::screens::{InfoScreen, MenuScreen, Screen, Transition, WifiScreen};
use lilka_rs::state::{ButtonEvent, UIEvent};
use lilka_rs::ui::{BodyFrame, Clock, DrawPlan, UIState};

fn services() -> (ClockService, NetworkService) {
    (ClockService::init(0), NetworkService::init())
}

#[test]
fn starts_with_one_root_menu() {
    let nav = Navigator::new();
    assert_eq!(nav.depth(), 1);
    assert_eq!(
        *nav.top(),
        Screen::Menu(MenuScreen { selected_idx: 0, initial_draw: true, menu_dirty: true })
    );
}

#[test]
fn right_on_menu_pushes_info() {
    let (clock_srv, net) = services();
    let mut nav = Navigator::new();
    assert_eq!(nav.depth(), 1);
    let (_, frame, _) = nav.process_event(UIEvent::Button(ButtonEvent::Right), &clock_srv, &net);
    assert_eq!(nav.depth(), 2);
    assert_eq!(frame.body, BodyFrame::Info);
    assert_eq!(*nav.top(), Screen::Info(InfoScreen {}));
}

#[test]
fn b_on_info_pops_back_to_redrawn_menu() {
    let (clock_srv, net) = services();
    let mut nav = Navigator::new();
    nav.process_event(UIEvent::Button(ButtonEvent::Right), &clock_srv, &net);
    assert_eq!(nav.depth(), 2);
    let (_, frame, plan) = nav.process_event(UIEvent::Button(ButtonEvent::B), &clock_srv, &net);
    assert_eq!(nav.depth(), 1);
    assert_eq!(frame.body, BodyFrame::Menu { selected_idx: 0 });
    // The exposed menu had its redraw forced, so this draw was a full one
    // and the cycle left the flags cleared.
    assert_eq!(plan, DrawPlan::Full);
    assert_eq!(
        *nav.top(),
        Screen::Menu(MenuScreen { selected_idx: 0, initial_draw: false, menu_dirty: false })
    );
}

#[test]
fn double_pop_recovers_a_fresh_root() {
    let mut nav = Navigator::new();
    nav.apply_transition(Transition::Push(Screen::Info(InfoScreen {})));
    assert_eq!(nav.depth(), 2);
    nav.apply_transition(Transition::Pop);
    assert_eq!(nav.depth(), 1);
    nav.apply_transition(Transition::Pop);
    // The stack would be empty: a fresh root menu is pushed instead, with
    // its full repaint forced.
    assert_eq!(nav.depth(), 1);
    assert_eq!(
        *nav.top(),
        Screen::Menu(MenuScreen { selected_idx: 0, initial_draw: true, menu_dirty: true })
    );
}

#[test]
fn replace_keeps_depth_and_discards_top() {
    let mut nav = Navigator::new();
    nav.apply_transition(Transition::Push(Screen::Info(InfoScreen {})));
    assert_eq!(nav.depth(), 2);
    nav.apply_transition(Transition::Replace(Screen::Wifi(WifiScreen { initial_draw: true })));
    assert_eq!(nav.depth(), 2);
    assert_eq!(*nav.top(), Screen::Wifi(WifiScreen { initial_draw: true }));
    // The discarded info page is not retained: popping lands on the root.
    nav.apply_transition(Transition::Pop);
    assert_eq!(nav.depth(), 1);
    assert!(matches!(*nav.top(), Screen::Menu(_)));
}

#[test]
fn tick_skips_update_but_refreshes_and_draws() {
    let (mut clock_srv, net) = services();
    let mut nav = Navigator::new();
    // Move the highlight down, then let a tick arrive.
    nav.process_event(UIEvent::Button(ButtonEvent::Down), &clock_srv, &net);
    clock_srv.set_current_time(45_296_000_000);
    let (state, frame, _) = nav.process_event(UIEvent::Tick, &clock_srv, &net);
    // The screen's update was not invoked: the highlight is untouched.
    assert_eq!(frame.body, BodyFrame::Menu { selected_idx: 1 });
    assert_eq!(nav.depth(), 1);
    // The snapshot was refreshed before the draw.
    assert_eq!(state.clock.timestamp_us, 45_296_000_000);
    assert_eq!((frame.hours, frame.minutes, frame.seconds), (12, 34, 56));
}

#[test]
fn up_down_move_the_highlight_within_bounds() {
    let (clock_srv, net) = services();
    let mut nav = Navigator::new();
    let (_, frame, _) = nav.process_event(UIEvent::Button(ButtonEvent::Up), &clock_srv, &net);
    assert_eq!(frame.body, BodyFrame::Menu { selected_idx: 0 });
    let (_, frame, _) = nav.process_event(UIEvent::Button(ButtonEvent::Down), &clock_srv, &net);
    assert_eq!(frame.body, BodyFrame::Menu { selected_idx: 1 });
    let (_, frame, _) = nav.process_event(UIEvent::Button(ButtonEvent::Down), &clock_srv, &net);
    assert_eq!(frame.body, BodyFrame::Menu { selected_idx: 0 });
}

#[test]
fn second_menu_entry_opens_wifi() {
    let (clock_srv, net) = services();
    let mut nav = Navigator::new();
    nav.process_event(UIEvent::Button(ButtonEvent::Down), &clock_srv, &net);
    let (_, frame, _) = nav.process_event(UIEvent::Button(ButtonEvent::A), &clock_srv, &net);
    assert_eq!(nav.depth(), 2);
    assert_eq!(frame.body, BodyFrame::Wifi);
}

#[test]
fn draw_twice_with_unchanged_state_shows_the_same_frame() {
    let clock = Clock::from_micros(45_296_000_000);
    let state = UIState { clock, wifi_connected: true };
    let mut screen = Screen::Menu(MenuScreen { selected_idx: 1, initial_draw: true, menu_dirty: true });
    let (frame1, plan1) = screen.draw(&state);
    let (frame2, plan2) = screen.draw(&state);
    assert_eq!(frame1, frame2);
    // Only the amount of repainting differs: first full, then nothing dirty.
    assert_eq!(plan1, DrawPlan::Full);
    assert_eq!(plan2, DrawPlan::Incremental { body_repaint: false });
}

#[test]
fn draw_error_forces_a_full_repaint_next_cycle() {
    let (clock_srv, net) = services();
    let mut nav = Navigator::new();
    let (_, _, plan) = nav.process_event(UIEvent::Tick, &clock_srv, &net);
    assert_eq!(plan, DrawPlan::Full);
    // A clean next cycle would repaint incrementally.
    let (_, _, plan) = nav.process_event(UIEvent::Tick, &clock_srv, &net);
    assert_eq!(plan, DrawPlan::Incremental { body_repaint: false });
    // After a failed render the host reports it; the next draw is full.
    nav.note_draw_error();
    let (_, _, plan) = nav.process_event(UIEvent::Tick, &clock_srv, &net);
    assert_eq!(plan, DrawPlan::Full);
}

#[test]
fn link_status_reaches_the_frame() {
    let (clock_srv, mut net) = services();
    let mut nav = Navigator::new();
    let (_, frame, _) = nav.process_event(UIEvent::Tick, &clock_srv, &net);
    assert!(!frame.wifi_connected);
    net.set_status(true, true);
    assert!(net.is_link_up());
    assert!(net.is_config_up());
    let (_, frame, _) = nav.process_event(UIEvent::Tick, &clock_srv, &net);
    assert!(frame.wifi_connected);
}
