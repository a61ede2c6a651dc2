//! The screen variants, their input handling and their draw behaviour.
//!
//! Screens form a closed set of variants dispatched by exhaustive matching;
//! the stack owns its screens exclusively. A screen answers a button event
//! with a [`Transition`] telling the navigator what to do with the stack,
//! and describes its visible content as a [`Frame`] when drawn.

use vstd::prelude::*;
use crate::state::ButtonEvent;
use crate::ui::{BodyFrame, DrawPlan, Frame, UIState};

verus! {

/// Entries of the main menu: the info page and the network page.
pub const MENU_ITEM_COUNT: usize = 2;

/// The main menu: which entry is highlighted, and what the next draw must
/// repaint. `initial_draw` forces a full repaint; `menu_dirty` marks the
/// menu area as changed since the last draw.
#[derive(Copy, Clone, Debug, PartialEq, Eq, Structural)]
pub struct MenuScreen {
    pub selected_idx: usize,
    pub initial_draw: bool,
    pub menu_dirty: bool,
}

/// The device-information page. Its content is static; it repaints fully
/// on every draw and keeps no render state.
#[derive(Copy, Clone, Debug, PartialEq, Eq, Structural)]
pub struct InfoScreen {
}

/// The network-configuration page. After the first full paint only the
/// header readings change.
#[derive(Copy, Clone, Debug, PartialEq, Eq, Structural)]
pub struct WifiScreen {
    pub initial_draw: bool,
}

/// One unit of the navigation stack.
#[derive(Copy, Clone, Debug, PartialEq, Eq, Structural)]
pub enum Screen {
    Menu(MenuScreen),
    Info(InfoScreen),
    Wifi(WifiScreen),
}

/// What a screen asks the navigator to do with the stack after an event.
/// Each transition is consumed exactly once.
#[derive(Copy, Clone, Debug, PartialEq, Eq, Structural)]
pub enum Transition {
    /// Stay on the current screen.
    Stay,
    /// Push a new screen; it becomes the active one, the previous top stays
    /// beneath it.
    Push(Screen),
    /// Discard the current screen and return to the one beneath it.
    Pop,
    /// Discard the current screen and put a new one in its place.
    Replace(Screen),
}

impl MenuScreen {
    pub open spec fn wf(&self) -> bool {
        self.selected_idx < MENU_ITEM_COUNT
    }

    pub fn new() -> (r: MenuScreen)
        ensures
            r == (MenuScreen { selected_idx: 0, initial_draw: true, menu_dirty: true }),
    {
        MenuScreen { selected_idx: 0, initial_draw: true, menu_dirty: true }
    }
}

impl InfoScreen {
    pub fn new() -> (r: InfoScreen)
        ensures
            r == (InfoScreen {  }),
    {
        InfoScreen {  }
    }
}

impl WifiScreen {
    pub fn new() -> (r: WifiScreen)
        ensures
            r == (WifiScreen { initial_draw: true }),
    {
        WifiScreen { initial_draw: true }
    }
}

/// How the main menu answers a button: Up and Down move the highlight and
/// dirty the menu area; Right or A opens the highlighted entry; everything
/// else stays.
pub open spec fn spec_menu_update(m: MenuScreen, event: ButtonEvent) -> (MenuScreen, Transition) {
    match event {
        ButtonEvent::Up => (
            MenuScreen {
                selected_idx: if m.selected_idx == 0 {
                    0
                } else {
                    (m.selected_idx - 1) as usize
                },
                initial_draw: m.initial_draw,
                menu_dirty: true,
            },
            Transition::Stay,
        ),
        ButtonEvent::Down => (
            MenuScreen {
                selected_idx: ((m.selected_idx + 1) as usize % MENU_ITEM_COUNT) as usize,
                initial_draw: m.initial_draw,
                menu_dirty: true,
            },
            Transition::Stay,
        ),
        ButtonEvent::Right | ButtonEvent::A => (
            m,
            if m.selected_idx == 0 {
                Transition::Push(Screen::Info(InfoScreen {  }))
            } else {
                Transition::Push(Screen::Wifi(WifiScreen { initial_draw: true }))
            },
        ),
        _ => (m, Transition::Stay),
    }
}

/// The info and wifi pages answer B with Pop and stay otherwise.
pub open spec fn spec_page_update(event: ButtonEvent) -> Transition {
    match event {
        ButtonEvent::B => Transition::Pop,
        _ => Transition::Stay,
    }
}

/// One screen's answer to a button event: the screen as the event leaves it
/// and the transition it requests.
pub open spec fn spec_screen_update(s: Screen, event: ButtonEvent) -> (Screen, Transition) {
    match s {
        Screen::Menu(m) => {
            let (m2, t) = spec_menu_update(m, event);
            (Screen::Menu(m2), t)
        },
        Screen::Info(i) => (Screen::Info(i), spec_page_update(event)),
        Screen::Wifi(w) => (Screen::Wifi(w), spec_page_update(event)),
    }
}

/// Forcing a redraw sets the full-repaint flag; the info page repaints
/// fully anyway and keeps no flag.
pub open spec fn spec_ensure_redraw(s: Screen) -> Screen {
    match s {
        Screen::Menu(m) => Screen::Menu(
            MenuScreen {
                selected_idx: m.selected_idx,
                initial_draw: true,
                menu_dirty: m.menu_dirty,
            },
        ),
        Screen::Info(i) => Screen::Info(i),
        Screen::Wifi(_) => Screen::Wifi(WifiScreen { initial_draw: true }),
    }
}

/// The frame a screen shows under a given snapshot: header readings from
/// the snapshot, body content from the screen. No dirty flag appears here:
/// what is visible after a draw never depends on how much it repainted.
pub open spec fn spec_frame(s: Screen, st: UIState) -> Frame {
    Frame {
        hours: st.clock.hours,
        minutes: st.clock.minutes,
        seconds: st.clock.seconds,
        wifi_connected: st.wifi_connected,
        body: match s {
            Screen::Menu(m) => BodyFrame::Menu { selected_idx: m.selected_idx },
            Screen::Info(_) => BodyFrame::Info,
            Screen::Wifi(_) => BodyFrame::Wifi,
        },
    }
}

/// How much a draw must repaint: everything on the first draw after a
/// push, pop or forced redraw, else the header plus a dirty body.
pub open spec fn spec_plan(s: Screen) -> DrawPlan {
    match s {
        Screen::Menu(m) => if m.initial_draw {
            DrawPlan::Full
        } else {
            DrawPlan::Incremental { body_repaint: m.menu_dirty }
        },
        Screen::Info(_) => DrawPlan::Full,
        Screen::Wifi(w) => if w.initial_draw {
            DrawPlan::Full
        } else {
            DrawPlan::Incremental { body_repaint: false }
        },
    }
}

/// The screen as a completed draw leaves it: every repaint flag cleared,
/// the content untouched.
pub open spec fn spec_drawn(s: Screen) -> Screen {
    match s {
        Screen::Menu(m) => Screen::Menu(
            MenuScreen { selected_idx: m.selected_idx, initial_draw: false, menu_dirty: false },
        ),
        Screen::Info(i) => Screen::Info(i),
        Screen::Wifi(_) => Screen::Wifi(WifiScreen { initial_draw: false }),
    }
}

impl Screen {
    pub open spec fn wf(&self) -> bool {
        match self {
            Screen::Menu(m) => m.wf(),
            _ => true,
        }
    }

    /// Handle one button event. Never fails: every event has an answer.
    pub fn update(&mut self, event: ButtonEvent) -> (t: Transition)
        requires
            old(self).wf(),
        ensures
            (*final(self), t) == spec_screen_update(*old(self), event),
            final(self).wf(),
            t.wf(),
    {
        match self {
            Screen::Menu(m) => {
                match event {
                    ButtonEvent::Up => {
                        m.selected_idx = if m.selected_idx == 0 {
                            0
                        } else {
                            m.selected_idx - 1
                        };
                        m.menu_dirty = true;
                        Transition::Stay
                    },
                    ButtonEvent::Down => {
                        m.selected_idx = (m.selected_idx + 1) % MENU_ITEM_COUNT;
                        m.menu_dirty = true;
                        Transition::Stay
                    },
                    ButtonEvent::Right | ButtonEvent::A => {
                        if m.selected_idx == 0 {
                            Transition::Push(Screen::Info(InfoScreen::new()))
                        } else {
                            Transition::Push(Screen::Wifi(WifiScreen::new()))
                        }
                    },
                    _ => Transition::Stay,
                }
            },
            Screen::Info(_) => {
                match event {
                    ButtonEvent::B => Transition::Pop,
                    _ => Transition::Stay,
                }
            },
            Screen::Wifi(_) => {
                match event {
                    ButtonEvent::B => Transition::Pop,
                    _ => Transition::Stay,
                }
            },
        }
    }

    /// Force the next draw to repaint fully instead of incrementally, used
    /// when the screen may sit over stale pixels it did not paint.
    pub fn ensure_redraw(&mut self)
        ensures
            *final(self) == spec_ensure_redraw(*old(self)),
            final(self).wf() == old(self).wf(),
    {
        match self {
            Screen::Menu(m) => {
                m.initial_draw = true;
            },
            Screen::Info(_) => {
            },
            Screen::Wifi(w) => {
                w.initial_draw = true;
            },
        }
    }

    /// Describe the screen's visible content under a snapshot, and how much
    /// of it must be repainted; clears the repaint flags.
    pub fn draw(&mut self, st: &UIState) -> (r: (Frame, DrawPlan))
        ensures
            *final(self) == spec_drawn(*old(self)),
            r.0 == spec_frame(*old(self), *st),
            r.1 == spec_plan(*old(self)),
            final(self).wf() == old(self).wf(),
    {
        let plan = match self {
            Screen::Menu(m) => {
                let p = if m.initial_draw {
                    DrawPlan::Full
                } else {
                    DrawPlan::Incremental { body_repaint: m.menu_dirty }
                };
                m.initial_draw = false;
                m.menu_dirty = false;
                p
            },
            Screen::Info(_) => DrawPlan::Full,
            Screen::Wifi(w) => {
                let p = if w.initial_draw {
                    DrawPlan::Full
                } else {
                    DrawPlan::Incremental { body_repaint: false }
                };
                w.initial_draw = false;
                p
            },
        };
        let frame = match self {
            Screen::Menu(m) => Frame {
                hours: st.clock.hours,
                minutes: st.clock.minutes,
                seconds: st.clock.seconds,
                wifi_connected: st.wifi_connected,
                body: BodyFrame::Menu { selected_idx: m.selected_idx },
            },
            Screen::Info(_) => Frame {
                hours: st.clock.hours,
                minutes: st.clock.minutes,
                seconds: st.clock.seconds,
                wifi_connected: st.wifi_connected,
                body: BodyFrame::Info,
            },
            Screen::Wifi(_) => Frame {
                hours: st.clock.hours,
                minutes: st.clock.minutes,
                seconds: st.clock.seconds,
                wifi_connected: st.wifi_connected,
                body: BodyFrame::Wifi,
            },
        };
        (frame, plan)
    }
}

impl Transition {
    /// A transition is well formed when any screen it carries is.
    pub open spec fn wf(&self) -> bool {
        match self {
            Transition::Push(s) => s.wf(),
            Transition::Replace(s) => s.wf(),
            _ => true,
        }
    }
}

/// Drawing is idempotent: a draw clears repaint flags but never changes
/// what a screen shows, so a second draw under an unchanged snapshot, with
/// no transition in between, describes the same visible frame.
pub proof fn lemma_draw_idempotent(s: Screen, st: UIState)
    ensures
        spec_frame(spec_drawn(s), st) == spec_frame(s, st),
{
}

} // verus!
