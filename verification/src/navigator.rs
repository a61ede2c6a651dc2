//! The navigator: sole consumer of UI events, owner of the screen stack.
//!
//! One event cycle refreshes the [`UIState`] snapshot, forwards a button
//! event to the active screen, applies the returned [`Transition`] to the
//! stack, and draws the new top. Tick events skip the screen and only
//! refresh and redraw. The stack never ends a cycle empty: a pop that would
//! empty it pushes a fresh root menu instead.

use vstd::prelude::*;
use crate::clock::ClockService;
use crate::network::NetworkService;
use crate::screens::{
    MenuScreen, Screen, Transition, spec_drawn, spec_ensure_redraw, spec_frame, spec_plan,
    spec_screen_update,
};
use crate::state::UIEvent;
use crate::ui::{DrawPlan, Frame, UIState};

verus! {

/// The root screen the stack starts with and recovers to: a fresh main
/// menu.
pub open spec fn spec_root() -> Screen {
    Screen::Menu(MenuScreen { selected_idx: 0, initial_draw: true, menu_dirty: true })
}

/// The stack after a transition. A pop that empties the stack recovers by
/// pushing a fresh root with a forced redraw; a pop that exposes a screen
/// forces a redraw on it, since it may sit under stale pixels. A replace
/// discards the top and puts the new screen in its place.
pub open spec fn spec_apply(stack: Seq<Screen>, t: Transition) -> Seq<Screen>
    recommends
        stack.len() >= 1,
{
    match t {
        Transition::Stay => stack,
        Transition::Push(s) => stack.push(s),
        Transition::Pop => {
            let rest = stack.drop_last();
            if rest.len() == 0 {
                seq![spec_ensure_redraw(spec_root())]
            } else {
                rest.update(rest.len() - 1, spec_ensure_redraw(rest.last()))
            }
        },
        Transition::Replace(s) => stack.drop_last().push(s),
    }
}

/// The stack after one event is dispatched: a button event goes to the top
/// screen and its transition is applied; a tick leaves the stack alone.
pub open spec fn spec_dispatch(stack: Seq<Screen>, event: UIEvent) -> Seq<Screen>
    recommends
        stack.len() >= 1,
{
    match event {
        UIEvent::Tick => stack,
        UIEvent::Button(b) => {
            let (top, t) = spec_screen_update(stack.last(), b);
            spec_apply(stack.drop_last().push(top), t)
        },
    }
}

/// The stack a whole cycle leaves behind: the dispatched stack with the
/// drawn top's repaint flags cleared.
pub open spec fn spec_cycle(stack: Seq<Screen>, event: UIEvent) -> Seq<Screen>
    recommends
        stack.len() >= 1,
{
    let stepped = spec_dispatch(stack, event);
    stepped.update(stepped.len() - 1, spec_drawn(stepped.last()))
}

pub struct Navigator {
    stack: Vec<Screen>,
}

impl Navigator {
    /// The navigation stack, bottom first; the last screen is the active
    /// one.
    pub closed spec fn screens(&self) -> Seq<Screen> {
        self.stack@
    }

    /// At every observation point the stack holds at least one screen and
    /// every screen is well formed.
    pub open spec fn wf(&self) -> bool {
        &&& self.screens().len() >= 1
        &&& forall|i: int| 0 <= i < self.screens().len() ==> #[trigger] self.screens()[i].wf()
    }

    /// A navigator starts with a single fresh root menu, ready for its
    /// first draw.
    pub fn new() -> (r: Navigator)
        ensures
            r.screens() == seq![spec_root()],
            r.wf(),
    {
        let mut stack: Vec<Screen> = Vec::new();
        stack.push(Screen::Menu(MenuScreen::new()));
        let r = Navigator { stack };
        proof {
            assert(r.screens() =~= seq![spec_root()]);
        }
        r
    }

    pub fn depth(&self) -> (n: usize)
        ensures
            n == self.screens().len(),
    {
        self.stack.len()
    }

    /// The active screen.
    pub fn top(&self) -> (r: &Screen)
        requires
            self.wf(),
        ensures
            *r == self.screens().last(),
    {
        &self.stack[self.stack.len() - 1]
    }

    /// Apply one transition to the stack, with underflow recovery.
    pub fn apply_transition(&mut self, t: Transition)
        requires
            old(self).wf(),
            t.wf(),
        ensures
            final(self).screens() == spec_apply(old(self).screens(), t),
            final(self).wf(),
    {
        match t {
            Transition::Stay => {
            },
            Transition::Push(s) => {
                self.stack.push(s);
                proof {
                    assert forall|i: int| 0 <= i < self.screens().len() implies #[trigger] self
                        .screens()[i].wf() by {
                        if i < old(self).screens().len() {
                            assert(old(self).screens()[i].wf());
                        }
                    }
                }
            },
            Transition::Pop => {
                self.stack.pop();
                if self.stack.len() == 0 {
                    let mut root = Screen::Menu(MenuScreen::new());
                    root.ensure_redraw();
                    self.stack.push(root);
                    proof {
                        assert(self.screens() =~= spec_apply(old(self).screens(), t));
                    }
                } else {
                    let mut exposed = self.stack.pop().unwrap();
                    exposed.ensure_redraw();
                    self.stack.push(exposed);
                    proof {
                        assert(self.screens() =~= spec_apply(old(self).screens(), t));
                        assert forall|i: int| 0 <= i < self.screens().len() implies #[trigger] self
                            .screens()[i].wf() by {
                            if i < self.screens().len() - 1 {
                                assert(self.screens()[i] == old(self).screens()[i]);
                                assert(old(self).screens()[i].wf());
                            }
                        }
                    }
                }
            },
            Transition::Replace(s) => {
                self.stack.pop();
                self.stack.push(s);
                proof {
                    assert(self.screens() =~= spec_apply(old(self).screens(), t));
                    assert forall|i: int| 0 <= i < self.screens().len() implies #[trigger] self
                        .screens()[i].wf() by {
                        if i < self.screens().len() - 1 {
                            assert(self.screens()[i] == old(self).screens()[i]);
                            assert(old(self).screens()[i].wf());
                        }
                    }
                }
            },
        }
    }

    /// Run one full event cycle: refresh the snapshot from the services,
    /// dispatch the event, apply the transition, draw the new top. Returns
    /// the snapshot it drew under, the frame now visible, and how much of
    /// it the renderer must repaint. The stack never comes out empty.
    pub fn process_event(&mut self, event: UIEvent, clock_srv: &ClockService, net: &NetworkService)
        -> (r: (UIState, Frame, DrawPlan))
        requires
            old(self).wf(),
        ensures
            final(self).wf(),
            final(self).screens().len() >= 1,
            final(self).screens() == spec_cycle(old(self).screens(), event),
            r.0.wf(),
            r.0.clock.timestamp_us == clock_srv.spec_now_us(),
            r.0.wifi_connected == net.spec_link_up(),
            r.1 == spec_frame(spec_dispatch(old(self).screens(), event).last(), r.0),
            r.2 == spec_plan(spec_dispatch(old(self).screens(), event).last()),
    {
        let state = UIState::refresh(clock_srv, net);
        match event {
            UIEvent::Button(b) => {
                let last = self.stack.len() - 1;
                let mut top = self.stack.pop().unwrap();
                let t = top.update(b);
                self.stack.push(top);
                proof {
                    assert(self.screens() =~= old(self).screens().drop_last().push(
                        spec_screen_update(old(self).screens().last(), b).0,
                    ));
                }
                self.apply_transition(t);
            },
            UIEvent::Tick => {
            },
        }
        proof {
            assert(self.screens() == spec_dispatch(old(self).screens(), event));
        }
        let ghost stepped = self.screens();
        let last = self.stack.len() - 1;
        let mut top = self.stack.pop().unwrap();
        let r = top.draw(&state);
        self.stack.push(top);
        proof {
            assert(self.screens() =~= spec_cycle(old(self).screens(), event));
            assert forall|i: int| 0 <= i < self.screens().len() implies #[trigger] self.screens()[i]
                .wf() by {
                if i < self.screens().len() - 1 {
                    assert(self.screens()[i] == stepped[i]);
                }
            }
        }
        (state, r.0, r.1)
    }

    /// Recovery path for a failed render: the host logs the error and calls
    /// this, which forces the active screen to repaint fully on the next
    /// cycle instead of trusting what is on the panel.
    pub fn note_draw_error(&mut self)
        requires
            old(self).wf(),
        ensures
            final(self).wf(),
            final(self).screens() == old(self).screens().update(
                old(self).screens().len() - 1,
                spec_ensure_redraw(old(self).screens().last()),
            ),
    {
        let mut top = self.stack.pop().unwrap();
        top.ensure_redraw();
        self.stack.push(top);
        proof {
            assert(self.screens() =~= old(self).screens().update(
                old(self).screens().len() - 1,
                spec_ensure_redraw(old(self).screens().last()),
            ));
            assert forall|i: int| 0 <= i < self.screens().len() implies #[trigger] self.screens()[i]
                .wf() by {
                if i < self.screens().len() - 1 {
                    assert(self.screens()[i] == old(self).screens()[i]);
                    assert(old(self).screens()[i].wf());
                }
            }
        }
    }
}

/// A pop from a one-screen stack recovers to exactly one freshly built
/// root with its redraw forced: the stack is never left empty.
pub proof fn lemma_pop_recovery(stack: Seq<Screen>)
    requires
        stack.len() == 1,
    ensures
        spec_apply(stack, Transition::Pop) == seq![spec_ensure_redraw(spec_root())],
        spec_apply(stack, Transition::Pop).len() == 1,
{
}

/// A replace keeps the stack depth and discards the previous top: below
/// the new screen everything is unchanged, and the old top is nowhere
/// retained.
pub proof fn lemma_replace_discards_top(stack: Seq<Screen>, s: Screen)
    requires
        stack.len() >= 1,
    ensures
        spec_apply(stack, Transition::Replace(s)).len() == stack.len(),
        spec_apply(stack, Transition::Replace(s)).last() == s,
        forall|i: int|
            0 <= i < stack.len() - 1 ==> #[trigger] spec_apply(stack, Transition::Replace(s))[i]
                == stack[i],
{
}

/// A tick never reaches a screen's update: the cycle leaves the stack as
/// it was, except that the drawn top's repaint flags are cleared, and the
/// depth is unchanged.
pub proof fn lemma_tick_keeps_stack(stack: Seq<Screen>)
    requires
        stack.len() >= 1,
    ensures
        spec_dispatch(stack, UIEvent::Tick) == stack,
        spec_cycle(stack, UIEvent::Tick).len() == stack.len(),
        spec_cycle(stack, UIEvent::Tick) == stack.update(
            stack.len() - 1,
            spec_drawn(stack.last()),
        ),
{
}

} // verus!
