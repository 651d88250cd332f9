use quadbench::state::gps::GpsFix;
use quadbench::state::motor::MotorFault;
use quadbench::state::receiver::{default_channels, ReceiverState, RECEIVER_CHANNEL_COUNT};
use quadbench::state::system::{LinkState, SystemState};

#[test]
fn gps_fix_labels() {
    assert_eq!(GpsFix::NoFix.label(), "No fix");
    assert_eq!(GpsFix::TwoDimensional.label(), "2D");
    assert_eq!(GpsFix::ThreeDimensional.label(), "3D");
}

#[test]
fn motor_fault_labels() {
    assert_eq!(MotorFault::Healthy.label(), "OK");
    assert_eq!(MotorFault::Stalled.label(), "Stalled");
    assert_eq!(MotorFault::Offline.label(), "Offline");
    assert_eq!(MotorFault::Limited.label(), "Limited");
    assert_eq!(MotorFault::Reversed.label(), "Reversed");
}

#[test]
fn link_state_labels() {
    assert_eq!(LinkState::Disconnected.label(), "Disconnected");
    assert_eq!(LinkState::Connecting.label(), "Connecting");
    assert_eq!(LinkState::Connected.label(), "Connected");
    assert_eq!(LinkState::Faulted.label(), "Fault");
}

#[test]
fn system_state_default() {
    let state = SystemState::default();
    assert!(!state.simulation_running);
    assert_eq!(state.simulation_rate_hz, 1_000);
    assert_eq!(state.betaflight_link, LinkState::Disconnected);
    assert_eq!(state.controller_link, LinkState::Disconnected);
}

#[test]
fn receiver_state_default_has_throttle_idle() {
    let state = ReceiverState::default();
    assert!(!state.connected);
    assert!(!state.failsafe);
    assert_eq!(state.rssi_dbm, -50);
    assert_eq!(state.link_quality, 100);
    assert_eq!(state.packet_rate_hz, 250);
    for index in 0..RECEIVER_CHANNEL_COUNT {
        let expected = if index == 2 { 988 } else { 1_500 };
        assert_eq!(state.channels_us[index], expected);
    }
    assert_eq!(default_channels(), state.channels_us);
}
