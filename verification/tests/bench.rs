use quadbench::bridge::{
    plan_transmissions, BridgeControl, TxSchedule, DEFAULT_FDM_PORT, DEFAULT_FDM_RATE_HZ,
    DEFAULT_MOTOR_PORT, DEFAULT_RC_PORT, DEFAULT_RC_RATE_HZ,
};
use quadbench::proxy::{DEFAULT_LISTEN_PORT, DEFAULT_TARGET_PORT};
use quadbench::bench::{apply_controller_poll, apply_sitl_status, update_receiver_stream, SitlStatus};
use quadbench::state::receiver::ReceiverState;
use quadbench::state::system::{LinkState, SystemState};

#[test]
fn controller_poll_without_backend_faults() {
    let mut system = SystemState::default();
    let mut receiver = ReceiverState::default();
    receiver.connected = true;
    apply_controller_poll(&mut system, &mut receiver, false, true, Some([1_000; 16]));
    assert_eq!(system.controller_link, LinkState::Faulted);
    assert!(!receiver.connected);
    assert_eq!(receiver.channels_us[0], 1_500);
}

#[test]
fn controller_poll_takes_pocket_channels() {
    let mut system = SystemState::default();
    let mut receiver = ReceiverState::default();
    apply_controller_poll(&mut system, &mut receiver, true, true, Some([1_234; 16]));
    assert_eq!(system.controller_link, LinkState::Connected);
    assert!(receiver.connected);
    assert_eq!(receiver.channels_us, [1_234; 16]);

    apply_controller_poll(&mut system, &mut receiver, true, false, None);
    assert_eq!(system.controller_link, LinkState::Disconnected);
    assert!(!receiver.connected);
    assert_eq!(receiver.channels_us, [1_234; 16]);
}

#[test]
fn failsafe_follows_rc_stream() {
    let mut receiver = ReceiverState::default();
    receiver.connected = true;
    assert!(update_receiver_stream(&mut receiver, true, false));
    assert!(!receiver.failsafe);
    assert!(!update_receiver_stream(&mut receiver, true, true));
    assert!(receiver.failsafe);
    assert!(!update_receiver_stream(&mut receiver, false, true));
    assert!(!receiver.failsafe);
    receiver.connected = false;
    assert!(!update_receiver_stream(&mut receiver, true, false));
    assert!(receiver.failsafe);
}

#[test]
fn betaflight_link_states() {
    let mut system = SystemState::default();
    assert!(!apply_sitl_status(&mut system, None));
    assert_eq!(system.betaflight_link, LinkState::Faulted);
    let status = |has_error, enabled, connected| Some(SitlStatus { has_error, enabled, connected });
    assert!(apply_sitl_status(&mut system, status(true, true, true)));
    assert_eq!(system.betaflight_link, LinkState::Faulted);
    assert!(!apply_sitl_status(&mut system, status(false, false, false)));
    assert_eq!(system.betaflight_link, LinkState::Disconnected);
    assert!(apply_sitl_status(&mut system, status(false, true, true)));
    assert_eq!(system.betaflight_link, LinkState::Connected);
    assert!(!apply_sitl_status(&mut system, status(false, true, false)));
    assert_eq!(system.betaflight_link, LinkState::Connecting);
}

#[test]
fn forced_rx_loss_stops_rc_but_not_fdm() {
    let mut receiver = ReceiverState::default();
    receiver.connected = true;
    let streaming = update_receiver_stream(&mut receiver, true, true);
    assert!(!streaming);
    assert!(receiver.failsafe);

    let mut control = BridgeControl::new();
    control.set_enabled(true);
    control.set_receiver_enabled(streaming);
    let mut schedule = TxSchedule::new(1_000, 1_000, 0);
    let plan = plan_transmissions(&control, &mut schedule, 0);
    assert!(plan.send_fdm);
    assert!(!plan.send_rc);
}

#[test]
fn documented_ports_and_rates() {
    assert_eq!(DEFAULT_MOTOR_PORT, 9_002);
    assert_eq!(DEFAULT_FDM_PORT, 9_003);
    assert_eq!(DEFAULT_RC_PORT, 9_004);
    assert_eq!(DEFAULT_TARGET_PORT, 5_761);
    assert_eq!(DEFAULT_LISTEN_PORT, 6_761);
    assert_eq!(DEFAULT_FDM_RATE_HZ, 250);
    assert_eq!(DEFAULT_RC_RATE_HZ, 250);
}
