use quadbench::bridge::{
    accept_motor_datagram, after_motor_receive_error, count_fdm_sent, count_rc_sent,
    packet_age_ns, plan_transmissions, record_error, sitl_connected, BridgeControl,
    BridgeTelemetry, TxPlan, TxSchedule, MOTOR_LINK_TIMEOUT_NS,
};
use quadbench::transport::IoErrorKind;

#[test]
fn bridge_control_starts_idle_and_centred() {
    let control = BridgeControl::new();
    assert!(!control.enabled);
    assert!(!control.receiver_enabled);
    assert_eq!(control.channels, [1_500; 16]);
    assert!(!control.receiver_streaming());
}

#[test]
fn receiver_streams_only_when_bridge_enabled() {
    let mut control = BridgeControl::new();
    control.set_receiver_enabled(true);
    assert!(!control.receiver_streaming());
    control.set_enabled(true);
    assert!(control.receiver_streaming());
    control.set_receiver_enabled(false);
    assert!(!control.receiver_streaming());
    let mut channels = [1_000_u16; 16];
    channels[3] = 2_000;
    control.set_channels(channels);
    assert_eq!(control.channels, channels);
    assert!(control.enabled);
}

#[test]
fn valid_motor_datagram_is_taken_and_clears_error() {
    let mut telemetry = BridgeTelemetry::new();
    record_error(&mut telemetry, "RC send failed".to_owned());
    let mut datagram = [0_u8; 16];
    datagram[4..8].copy_from_slice(&0.5_f32.to_le_bytes());
    assert!(accept_motor_datagram(&mut telemetry, &datagram, 42));
    assert_eq!(telemetry.rx_motor_packets, 1);
    assert_eq!(telemetry.last_motor_packet_ns, Some(42));
    assert_eq!(telemetry.last_error, None);
    assert_eq!(f32::from_bits(telemetry.motor_commands[1]), 0.5);
}

#[test]
fn short_motor_datagram_is_ignored() {
    let mut telemetry = BridgeTelemetry::new();
    record_error(&mut telemetry, "boom".to_owned());
    assert!(!accept_motor_datagram(&mut telemetry, &[1, 2, 3], 7));
    assert_eq!(telemetry.rx_motor_packets, 0);
    assert_eq!(telemetry.last_motor_packet_ns, None);
    assert_eq!(telemetry.last_error.as_deref(), Some("boom"));
    assert_eq!(telemetry.motor_commands, [0; 4]);
}

#[test]
fn sent_packets_are_counted() {
    let mut telemetry = BridgeTelemetry::new();
    count_fdm_sent(&mut telemetry);
    count_fdm_sent(&mut telemetry);
    count_rc_sent(&mut telemetry, 99);
    assert_eq!(telemetry.tx_fdm_packets, 2);
    assert_eq!(telemetry.tx_rc_packets, 1);
    assert_eq!(telemetry.last_rc_packet_ns, Some(99));
    assert_eq!(telemetry.rx_motor_packets, 0);
}

#[test]
fn would_block_on_motor_port_is_not_an_error() {
    let mut telemetry = BridgeTelemetry::new();
    after_motor_receive_error(&mut telemetry, IoErrorKind::WouldBlock, "x".to_owned());
    assert_eq!(telemetry.last_error, None);
    after_motor_receive_error(&mut telemetry, IoErrorKind::TimedOut, "Motor receive failed".to_owned());
    assert_eq!(telemetry.last_error.as_deref(), Some("Motor receive failed"));
    after_motor_receive_error(&mut telemetry, IoErrorKind::Other, "other".to_owned());
    assert_eq!(telemetry.last_error.as_deref(), Some("other"));
}

#[test]
fn sitl_link_needs_recent_motor_packet() {
    assert!(sitl_connected(true, Some(0)));
    assert!(sitl_connected(true, Some(MOTOR_LINK_TIMEOUT_NS)));
    assert!(!sitl_connected(true, Some(MOTOR_LINK_TIMEOUT_NS + 1)));
    assert!(!sitl_connected(true, None));
    assert!(!sitl_connected(false, Some(0)));
}

#[test]
fn packet_age_is_time_since_last_packet() {
    assert_eq!(packet_age_ns(Some(100), 350), Some(250));
    assert_eq!(packet_age_ns(Some(400), 350), Some(0));
    assert_eq!(packet_age_ns(None, 350), None);
}

#[test]
fn nothing_is_sent_while_disabled() {
    let control = BridgeControl::new();
    let mut schedule = TxSchedule::new(4_000_000, 4_000_000, 0);
    let plan = plan_transmissions(&control, &mut schedule, 10);
    assert_eq!(plan, TxPlan { send_fdm: false, send_rc: false });
    assert_eq!(schedule.next_fdm_ns, 0);
    assert_eq!(schedule.next_rc_ns, 0);
}

#[test]
fn packets_are_sent_on_schedule() {
    let mut control = BridgeControl::new();
    control.set_enabled(true);
    let mut schedule = TxSchedule::new(4_000_000, 5_000_000, 0);

    let plan = plan_transmissions(&control, &mut schedule, 0);
    assert_eq!(plan, TxPlan { send_fdm: true, send_rc: false });
    assert_eq!(schedule.next_fdm_ns, 4_000_000);
    assert_eq!(schedule.next_rc_ns, 0);

    let plan = plan_transmissions(&control, &mut schedule, 3_999_999);
    assert_eq!(plan, TxPlan { send_fdm: false, send_rc: false });

    control.set_receiver_enabled(true);
    let plan = plan_transmissions(&control, &mut schedule, 4_000_001);
    assert_eq!(plan, TxPlan { send_fdm: true, send_rc: true });
    assert_eq!(schedule.next_fdm_ns, 8_000_001);
    assert_eq!(schedule.next_rc_ns, 9_000_001);
}
