//! Decisions of the bench itself: link states shown to the user, whether the
//! virtual receiver streams RC, and the failsafe flag.
use vstd::prelude::*;

use crate::bridge::{planned_transmissions, BridgeControl, TxSchedule};
use crate::state::receiver::{ReceiverState, RECEIVER_CHANNEL_COUNT};
use crate::state::system::{LinkState, SystemState};

verus! {

/// The controller link shown for a poll: faulted without an input backend,
/// otherwise connected exactly while a controller is selected.
pub open spec fn controller_link(backend_available: bool, controller_connected: bool) -> LinkState {
    if !backend_available {
        LinkState::Faulted
    } else if controller_connected {
        LinkState::Connected
    } else {
        LinkState::Disconnected
    }
}

/// Applies a poll of the controller input to the bench state. Without an
/// input backend the controller link is faulted and the receiver is
/// disconnected. Otherwise the receiver is connected exactly while a
/// controller is selected, takes the Pocket's channels when there are any,
/// and the controller link follows the selection.
pub fn apply_controller_poll(
    system: &mut SystemState,
    receiver: &mut ReceiverState,
    backend_available: bool,
    controller_connected: bool,
    pocket_channels: Option<[u16; RECEIVER_CHANNEL_COUNT]>,
)
    ensures
        final(system).controller_link == controller_link(backend_available, controller_connected),
        !backend_available ==> final(system).controller_link == LinkState::Faulted,
        backend_available && controller_connected ==> final(system).controller_link
            == LinkState::Connected,
        backend_available && !controller_connected ==> final(system).controller_link
            == LinkState::Disconnected,
        final(system).simulation_running == old(system).simulation_running,
        final(system).simulation_rate_hz == old(system).simulation_rate_hz,
        final(system).betaflight_link == old(system).betaflight_link,
        final(receiver).connected == (backend_available && controller_connected),
        final(receiver).channels_us == (match pocket_channels {
            Some(channels) => if backend_available {
                channels
            } else {
                old(receiver).channels_us
            },
            None => old(receiver).channels_us,
        }),
        final(receiver).rssi_dbm == old(receiver).rssi_dbm,
        final(receiver).link_quality == old(receiver).link_quality,
        final(receiver).packet_rate_hz == old(receiver).packet_rate_hz,
        final(receiver).failsafe == old(receiver).failsafe,
{
    if !backend_available {
        system.controller_link = LinkState::Faulted;
        receiver.connected = false;
        return;
    }
    if let Some(channels) = pocket_channels {
        receiver.channels_us = channels;
    }
    receiver.connected = controller_connected;
    system.controller_link = if controller_connected {
        LinkState::Connected
    } else {
        LinkState::Disconnected
    };
}

/// RC is streamed to SITL while the receiver is connected and no RX loss is
/// forced.
pub open spec fn rc_streaming(receiver_connected: bool, force_rx_loss: bool) -> bool {
    receiver_connected && !force_rx_loss
}

/// Decides whether RC is streamed and sets the failsafe flag, which is
/// active exactly while the simulation runs without an RC stream. Returns
/// whether RC is streamed.
pub fn update_receiver_stream(
    receiver: &mut ReceiverState,
    simulation_running: bool,
    force_rx_loss: bool,
) -> (streaming: bool)
    ensures
        streaming == rc_streaming(old(receiver).connected, force_rx_loss),
        streaming == (old(receiver).connected && !force_rx_loss),
        final(receiver).failsafe == (simulation_running && !streaming),
        final(receiver).failsafe == failsafe_active(simulation_running, streaming),
        final(receiver).connected == old(receiver).connected,
        final(receiver).channels_us == old(receiver).channels_us,
        final(receiver).rssi_dbm == old(receiver).rssi_dbm,
        final(receiver).link_quality == old(receiver).link_quality,
        final(receiver).packet_rate_hz == old(receiver).packet_rate_hz,
{
    let streaming = receiver.connected && !force_rx_loss;
    receiver.failsafe = simulation_running && !streaming;
    streaming
}

/// What the bench learned from the SITL bridge on this poll.
#[derive(Debug, Clone, Copy, PartialEq, Eq, Structural)]
pub struct SitlStatus {
    pub has_error: bool,
    pub enabled: bool,
    pub connected: bool,
}

/// The Betaflight link shown for a poll: faulted without a bridge or with a
/// transport error, disconnected while streaming is off, connected while
/// motor packets arrive, and connecting otherwise.
pub open spec fn betaflight_link(status: Option<SitlStatus>) -> LinkState {
    match status {
        None => LinkState::Faulted,
        Some(s) => if s.has_error {
            LinkState::Faulted
        } else if !s.enabled {
            LinkState::Disconnected
        } else if s.connected {
            LinkState::Connected
        } else {
            LinkState::Connecting
        },
    }
}

/// Sets the Betaflight link from the bridge status (`None` when there is
/// no bridge). Returns whether the motor commands from SITL are live (and
/// are shown); otherwise they read zero.
pub fn apply_sitl_status(system: &mut SystemState, status: Option<SitlStatus>) -> (motors_live: bool)
    ensures
        final(system).betaflight_link == betaflight_link(status),
        status is None ==> final(system).betaflight_link == LinkState::Faulted,
        status matches Some(s) && s.has_error ==> final(system).betaflight_link == LinkState::Faulted,
        status matches Some(s) && !s.has_error && !s.enabled ==> final(system).betaflight_link
            == LinkState::Disconnected,
        status matches Some(s) && !s.has_error && s.enabled && s.connected ==> final(system).betaflight_link == LinkState::Connected,
        status matches Some(s) && !s.has_error && s.enabled && !s.connected ==> final(system).betaflight_link == LinkState::Connecting,
        final(system).simulation_running == old(system).simulation_running,
        final(system).simulation_rate_hz == old(system).simulation_rate_hz,
        final(system).controller_link == old(system).controller_link,
        motors_live == (status matches Some(s) && s.connected),
{
    match status {
        None => {
            system.betaflight_link = LinkState::Faulted;
            false
        },
        Some(s) => {
            system.betaflight_link = if s.has_error {
                LinkState::Faulted
            } else if !s.enabled {
                LinkState::Disconnected
            } else if s.connected {
                LinkState::Connected
            } else {
                LinkState::Connecting
            };
            s.connected
        },
    }
}

/// Forcing RX loss stops the RC stream to SITL while the FDM (sensor) stream
/// goes on as before: with the bridge's receiver switch set from a forced RX
/// loss, no RC packet is planned, and FDM packets are planned exactly as
/// they would be otherwise.
pub proof fn lemma_forced_rx_loss_stops_rc_only(
    control: BridgeControl,
    schedule: TxSchedule,
    now_ns: u64,
    receiver_connected: bool,
)
    requires
        control.receiver_enabled == rc_streaming(receiver_connected, true),
    ensures
        !planned_transmissions(control, schedule, now_ns).send_rc,
        planned_transmissions(control, schedule, now_ns).send_fdm == (control.enabled && now_ns
            >= schedule.next_fdm_ns),
{
}

/// Failsafe is raised while the simulation runs without an RC stream.
pub open spec fn failsafe_active(simulation_running: bool, streaming: bool) -> bool {
    simulation_running && !streaming
}

/// Failsafe is active exactly while the simulation runs and either RX loss
/// is forced or the receiver is disconnected; it is never active while the
/// simulation is stopped.
pub proof fn lemma_failsafe_cause(
    simulation_running: bool,
    receiver_connected: bool,
    force_rx_loss: bool,
)
    ensures
        failsafe_active(simulation_running, rc_streaming(receiver_connected, force_rx_loss)) == (
        simulation_running && (force_rx_loss || !receiver_connected)),
        !failsafe_active(false, rc_streaming(receiver_connected, force_rx_loss)),
{
}

/// The controller link is faulted whenever the input backend is missing,
/// whatever the selection; with a backend it is connected exactly while a
/// controller is selected.
pub proof fn lemma_controller_link_cases(backend_available: bool, controller_connected: bool)
    ensures
        !backend_available ==> controller_link(backend_available, controller_connected)
            == LinkState::Faulted,
        backend_available ==> (controller_link(backend_available, controller_connected)
            == LinkState::Connected <==> controller_connected),
        backend_available && !controller_connected ==> controller_link(
            backend_available,
            controller_connected,
        ) == LinkState::Disconnected,
        controller_link(backend_available, controller_connected) != LinkState::Connecting,
{
}

/// The Betaflight link: faulted without a bridge and whenever the bridge
/// reports an error; otherwise disconnected while streaming is off,
/// connected while motor packets arrive, connecting in between. It reads
/// connected only with an error-free, enabled, connected bridge.
pub proof fn lemma_betaflight_link_cases(status: Option<SitlStatus>)
    ensures
        status is None ==> betaflight_link(status) == LinkState::Faulted,
        status matches Some(s) && s.has_error ==> betaflight_link(status) == LinkState::Faulted,
        status matches Some(s) && !s.has_error && !s.enabled ==> betaflight_link(status)
            == LinkState::Disconnected,
        status matches Some(s) && !s.has_error && s.enabled && !s.connected ==> betaflight_link(
            status,
        ) == LinkState::Connecting,
        betaflight_link(status) == LinkState::Connected <==> (status matches Some(s)
            && !s.has_error && s.enabled && s.connected),
        betaflight_link(status) == LinkState::Faulted <==> (status is None || (status matches Some(
            s,
        ) && s.has_error)),
{
}

/// RC streams exactly while the receiver is connected and no RX loss is
/// forced.
pub proof fn lemma_rc_streaming_cases(receiver_connected: bool, force_rx_loss: bool)
    ensures
        force_rx_loss ==> !rc_streaming(receiver_connected, force_rx_loss),
        !receiver_connected ==> !rc_streaming(receiver_connected, force_rx_loss),
        receiver_connected && !force_rx_loss ==> rc_streaming(receiver_connected, force_rx_loss),
{
}

} // verus!
