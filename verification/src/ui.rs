//! The per-cycle UI snapshot and the abstract frame a draw produces.
//!
//! Before dispatching an event the navigator refreshes a [`UIState`] from
//! the clock and network services; screens read it and never write it. A
//! draw yields a [`Frame`], the plain description of the visible content,
//! and a [`DrawPlan`] telling the renderer how much it must repaint. Two
//! draws from the same screen content and the same snapshot describe the
//! same frame, however much of it the plan repaints.

use vstd::prelude::*;
use crate::clock::{
    ClockService, MICROS_PER_SECOND, SECONDS_PER_DAY, SECONDS_PER_HOUR, SECONDS_PER_MINUTE,
    lemma_time_of_day_bounds, spec_hours, spec_minutes, spec_sec,
};
use crate::network::NetworkService;

verus! {

/// The wall clock at the start of one event cycle, with its time of day
/// broken out for the header widgets.
#[derive(Copy, Clone, Debug, PartialEq, Eq, Structural)]
pub struct Clock {
    pub timestamp_us: u64,
    pub hours: u8,
    pub minutes: u8,
    pub seconds: u8,
}

impl Clock {
    /// The broken-out fields agree with the timestamp.
    pub open spec fn wf(&self) -> bool {
        &&& self.hours == spec_hours(self.timestamp_us)
        &&& self.minutes == spec_minutes(self.timestamp_us)
        &&& self.seconds == spec_sec(self.timestamp_us)
    }

    pub fn from_micros(us: u64) -> (r: Clock)
        ensures
            r.timestamp_us == us,
            r.wf(),
    {
        proof {
            lemma_time_of_day_bounds(us);
        }
        let sod: u64 = (us / MICROS_PER_SECOND) % SECONDS_PER_DAY;
        Clock {
            timestamp_us: us,
            hours: (sod / SECONDS_PER_HOUR) as u8,
            minutes: ((sod % SECONDS_PER_HOUR) / SECONDS_PER_MINUTE) as u8,
            seconds: (sod % SECONDS_PER_MINUTE) as u8,
        }
    }
}

/// Read-mostly snapshot handed by reference into every screen operation.
/// It has no identity beyond "latest reading"; each cycle rebuilds it.
#[derive(Copy, Clone, Debug, PartialEq, Eq, Structural)]
pub struct UIState {
    pub clock: Clock,
    pub wifi_connected: bool,
}

impl UIState {
    pub open spec fn wf(&self) -> bool {
        self.clock.wf()
    }

    /// Refresh the snapshot from the services. Both reads are plain field
    /// reads and never block, so the navigator stays responsive even while
    /// background services are still starting.
    pub fn refresh(clock_srv: &ClockService, net: &NetworkService) -> (r: UIState)
        ensures
            r.wf(),
            r.clock.timestamp_us == clock_srv.spec_now_us(),
            r.wifi_connected == net.spec_link_up(),
    {
        UIState {
            clock: Clock::from_micros(clock_srv.get_current_time()),
            wifi_connected: net.is_link_up(),
        }
    }
}

/// The body content of a frame, below the header.
#[derive(Copy, Clone, Debug, PartialEq, Eq, Structural)]
pub enum BodyFrame {
    /// The main menu with one entry highlighted.
    Menu { selected_idx: usize },
    /// The device-information page.
    Info,
    /// The network-configuration page.
    Wifi,
}

/// What one completed draw leaves visible: the header readings and the body
/// content. Incremental repaints must land on exactly this frame, the same
/// one a full repaint would produce.
#[derive(Copy, Clone, Debug, PartialEq, Eq, Structural)]
pub struct Frame {
    pub hours: u8,
    pub minutes: u8,
    pub seconds: u8,
    pub wifi_connected: bool,
    pub body: BodyFrame,
}

/// How much of the frame the renderer must actually repaint. Dirty tracking
/// is an optimization only: either plan ends at the same [`Frame`].
#[derive(Copy, Clone, Debug, PartialEq, Eq, Structural)]
pub enum DrawPlan {
    /// Clear everything and repaint header and body.
    Full,
    /// Repaint the header readings; repaint the body only when flagged.
    Incremental { body_repaint: bool },
}

} // verus!
