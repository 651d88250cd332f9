//! Simulation and link status.
use vstd::prelude::*;

verus! {

/// State of a link to an outside party (Betaflight SITL, the controller).
#[derive(Debug, Clone, Copy, PartialEq, Eq, Structural)]
pub enum LinkState {
    Disconnected,
    Connecting,
    Connected,
    Faulted,
}

/// The text shown for a link state.
pub open spec fn link_state_label(state: LinkState) -> Seq<char> {
    match state {
        LinkState::Disconnected => "Disconnected"@,
        LinkState::Connecting => "Connecting"@,
        LinkState::Connected => "Connected"@,
        LinkState::Faulted => "Fault"@,
    }
}

impl LinkState {
    /// The text shown for this link state.
    pub fn label(self) -> (label: &'static str)
        ensures
            label@ == link_state_label(self),
    {
        match self {
            LinkState::Disconnected => "Disconnected",
            LinkState::Connecting => "Connecting",
            LinkState::Connected => "Connected",
            LinkState::Faulted => "Fault",
        }
    }
}

/// Simulation switch, target rate and the two link states.
#[derive(Debug, Clone)]
pub struct SystemState {
    pub simulation_running: bool,
    pub simulation_rate_hz: u32,
    pub betaflight_link: LinkState,
    pub controller_link: LinkState,
}

impl Default for SystemState {
    /// Simulation stopped, 1000 Hz target, both links disconnected.
    fn default() -> (state: Self)
        ensures
            !state.simulation_running,
            state.simulation_rate_hz == 1000,
            state.betaflight_link == LinkState::Disconnected,
            state.controller_link == LinkState::Disconnected,
    {
        SystemState {
            simulation_running: false,
            simulation_rate_hz: 1_000,
            betaflight_link: LinkState::Disconnected,
            controller_link: LinkState::Disconnected,
        }
    }
}

} // verus!
