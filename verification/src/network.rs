//! Link-status service consumed by the UI refresh.
//!
//! The radio and the network stack run outside; before each draw the
//! navigator only asks whether the link is established and configured. This
//! service owns those two flags as plain state: the host's network task
//! updates them, the navigator reads them without blocking.

use vstd::prelude::*;

verus! {

pub struct NetworkService {
    link_up: bool,
    config_up: bool,
}

impl NetworkService {
    pub closed spec fn spec_link_up(&self) -> bool {
        self.link_up
    }

    pub closed spec fn spec_config_up(&self) -> bool {
        self.config_up
    }

    /// Before the network task reports anything, both flags read as down,
    /// so the UI stays responsive while the radio is still starting.
    pub fn init() -> (r: Self)
        ensures
            !r.spec_link_up(),
            !r.spec_config_up(),
    {
        NetworkService { link_up: false, config_up: false }
    }

    pub fn is_link_up(&self) -> (r: bool)
        ensures
            r == self.spec_link_up(),
    {
        self.link_up
    }

    pub fn is_config_up(&self) -> (r: bool)
        ensures
            r == self.spec_config_up(),
    {
        self.config_up
    }

    pub fn set_status(&mut self, link_up: bool, config_up: bool)
        ensures
            final(self).spec_link_up() == link_up,
            final(self).spec_config_up() == config_up,
    {
        self.link_up = link_up;
        self.config_up = config_up;
    }
}

} // verus!
