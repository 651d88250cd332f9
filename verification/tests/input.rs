use quadbench::input::controller::{
    AxisSnapshot, ButtonSnapshot, ControllerDevice, ControllerEvent, ControllerSnapshot,
    ControllerTracker, InputError, RawControlKind, RawControlSnapshot, PRESSED_VALUE_BITS,
    RELEASED_VALUE_BITS,
};
use quadbench::input::pocket::{
    assemble_pocket_channels, ChannelAssignment, PocketControl, POCKET_CHANNEL_COUNT,
};

fn axis_event(axis: &str, value: f32, code: &str) -> ControllerEvent {
    ControllerEvent::AxisChanged {
        axis: axis.to_owned(),
        value_bits: value.to_bits(),
        code: code.to_owned(),
    }
}

fn raw(tracker: &ControllerTracker) -> Vec<(String, RawControlKind, String, f32)> {
    tracker
        .selected_raw_controls()
        .unwrap_or_default()
        .into_iter()
        .map(|c| (c.control, c.kind, c.logical_name, f32::from_bits(c.value_bits)))
        .collect()
}

#[test]
fn input_error_message() {
    let error = InputError::Initialization("no backend".to_owned());
    assert_eq!(error.message(), "controller input initialization failed: no backend");
}

#[test]
fn raw_control_kind_labels() {
    assert_eq!(RawControlKind::Axis.label(), "Axis");
    assert_eq!(RawControlKind::AnalogButton.label(), "Analog button");
    assert_eq!(RawControlKind::Button.label(), "Button");
}

#[test]
fn digital_button_values_are_one_and_zero() {
    assert_eq!(f32::from_bits(PRESSED_VALUE_BITS), 1.0);
    assert_eq!(f32::from_bits(RELEASED_VALUE_BITS), 0.0);
}

#[test]
fn connection_selects_first_device_only() {
    let mut tracker = ControllerTracker::new(None);
    tracker.handle_event(3, ControllerEvent::Connected, "Device 3: Connected".to_owned());
    assert_eq!(tracker.selected_id, Some(3));
    tracker.handle_event(5, ControllerEvent::Connected, "Device 5: Connected".to_owned());
    assert_eq!(tracker.selected_id, Some(3));
    assert_eq!(tracker.last_event.as_deref(), Some("Device 5: Connected"));
}

#[test]
fn disconnect_clears_selection_and_readings() {
    let mut tracker = ControllerTracker::new(Some(1));
    tracker.handle_event(1, axis_event("LeftStickX", 0.5, "A0"), "e1".to_owned());
    tracker.handle_event(2, axis_event("LeftStickX", -0.5, "A0"), "e2".to_owned());
    assert_eq!(raw(&tracker).len(), 1);
    tracker.handle_event(2, ControllerEvent::Disconnected, "d2".to_owned());
    assert_eq!(tracker.selected_id, Some(1));
    assert_eq!(raw(&tracker).len(), 1);
    tracker.handle_event(1, ControllerEvent::Disconnected, "d1".to_owned());
    assert_eq!(tracker.selected_id, None);
    assert!(tracker.selected_raw_controls().is_none());
    tracker.finish_poll(Some(2));
    assert_eq!(tracker.selected_id, Some(2));
    assert!(raw(&tracker).is_empty());
}

#[test]
fn finish_poll_keeps_existing_selection() {
    let mut tracker = ControllerTracker::new(Some(4));
    tracker.finish_poll(Some(9));
    assert_eq!(tracker.selected_id, Some(4));
    let mut empty = ControllerTracker::new(None);
    empty.finish_poll(None);
    assert_eq!(empty.selected_id, None);
}

#[test]
fn raw_readings_are_kept_in_code_order_and_replaced() {
    let mut tracker = ControllerTracker::new(Some(0));
    tracker.handle_event(0, axis_event("RightStickX", 0.1, "Code(b)"), "e".to_owned());
    tracker.handle_event(0, axis_event("LeftStickX", 0.2, "Code(a)"), "e".to_owned());
    tracker.handle_event(0, axis_event("LeftStickY", 0.3, "Code(ab)"), "e".to_owned());
    tracker.handle_event(0, axis_event("LeftStickX", 0.4, "Code(a)"), "e".to_owned());
    let readings = raw(&tracker);
    let codes: Vec<&str> = readings.iter().map(|r| r.0.as_str()).collect();
    assert_eq!(codes, vec!["Code(a)", "Code(ab)", "Code(b)"]);
    assert_eq!(readings[0].3, 0.4);
    assert_eq!(readings[0].1, RawControlKind::Axis);
}

#[test]
fn digital_press_never_overwrites_analog_reading() {
    let mut tracker = ControllerTracker::new(Some(0));
    tracker.handle_event(
        0,
        ControllerEvent::ButtonChanged {
            button: "LeftTrigger2".to_owned(),
            value_bits: 0.3_f32.to_bits(),
            code: "Key(312)".to_owned(),
        },
        "e".to_owned(),
    );
    tracker.handle_event(
        0,
        ControllerEvent::ButtonPressed { button: "LeftTrigger2".to_owned(), code: "Key(312)".to_owned() },
        "e".to_owned(),
    );
    let readings = raw(&tracker);
    assert_eq!(readings.len(), 1);
    assert_eq!(readings[0].1, RawControlKind::AnalogButton);
    assert_eq!(readings[0].3, 0.3);

    tracker.handle_event(
        0,
        ControllerEvent::ButtonPressed { button: "West".to_owned(), code: "Key(308)".to_owned() },
        "e".to_owned(),
    );
    tracker.handle_event(
        0,
        ControllerEvent::ButtonRepeated { button: "West".to_owned(), code: "Key(308)".to_owned() },
        "e".to_owned(),
    );
    let readings = raw(&tracker);
    assert_eq!(readings.len(), 2);
    assert_eq!(readings[1].0, "Key(312)");
    assert_eq!(readings[0], ("Key(308)".to_owned(), RawControlKind::Button, "West".to_owned(), 1.0));
    tracker.handle_event(
        0,
        ControllerEvent::ButtonReleased { button: "West".to_owned(), code: "Key(308)".to_owned() },
        "e".to_owned(),
    );
    assert_eq!(raw(&tracker)[0].3, 0.0);
    tracker.handle_event(0, ControllerEvent::Other, "other".to_owned());
    assert_eq!(raw(&tracker).len(), 2);
}

fn snapshot() -> ControllerSnapshot {
    ControllerSnapshot {
        device: ControllerDevice {
            id: 0,
            name: "RadioMaster Pocket".to_owned(),
            os_name: "pocket".to_owned(),
            vendor_id: Some(0x1209),
            product_id: None,
            mapping_source: "SdlMappings".to_owned(),
        },
        axes: vec![
            AxisSnapshot { name: "LeftStickX".to_owned(), value_bits: 0.25_f32.to_bits() },
            AxisSnapshot { name: "LeftStickX".to_owned(), value_bits: 0.75_f32.to_bits() },
        ],
        buttons: vec![ButtonSnapshot {
            name: "West".to_owned(),
            value_bits: 1.0_f32.to_bits(),
            pressed: true,
        }],
        raw_controls: vec![
            RawControlSnapshot {
                control: "Key(1)".to_owned(),
                kind: RawControlKind::Button,
                logical_name: "LeftTrigger2".to_owned(),
                value_bits: 1.0_f32.to_bits(),
            },
            RawControlSnapshot {
                control: "Key(2)".to_owned(),
                kind: RawControlKind::AnalogButton,
                logical_name: "LeftTrigger2".to_owned(),
                value_bits: 0.6_f32.to_bits(),
            },
            RawControlSnapshot {
                control: "Key(3)".to_owned(),
                kind: RawControlKind::Axis,
                logical_name: "RightTrigger".to_owned(),
                value_bits: 0.9_f32.to_bits(),
            },
        ],
        last_event: None,
    }
}

#[test]
fn snapshot_lookups_take_first_match() {
    let snapshot = snapshot();
    assert_eq!(snapshot.axis_value(&"LeftStickX".to_owned()), Some(0.25_f32.to_bits()));
    assert_eq!(snapshot.axis_value(&"RightStickX".to_owned()), None);
    assert_eq!(snapshot.button_value(&"West".to_owned()), Some(1.0_f32.to_bits()));
    assert_eq!(snapshot.button_value(&"East".to_owned()), None);
}

#[test]
fn raw_logical_value_prefers_analog_readings() {
    let snapshot = snapshot();
    assert_eq!(snapshot.raw_logical_value(&"LeftTrigger2".to_owned()), Some(0.6_f32.to_bits()));
    assert_eq!(snapshot.raw_logical_value(&"RightTrigger".to_owned()), Some(0.9_f32.to_bits()));
    assert_eq!(snapshot.raw_logical_value(&"West".to_owned()), None);
    assert_eq!(
        snapshot.mapped_button_value(&"West".to_owned(), &"West".to_owned()),
        Some(1.0_f32.to_bits())
    );
    assert_eq!(
        snapshot.mapped_button_value(&"LeftTrigger2".to_owned(), &"LeftTrigger2".to_owned()),
        Some(0.6_f32.to_bits())
    );
    assert_eq!(snapshot.mapped_button_value(&"North".to_owned(), &"North".to_owned()), None);
}

#[test]
fn pocket_controls_map_to_aetr_and_aux_channels() {
    let controls = PocketControl::all();
    let channels: Vec<usize> = controls.iter().map(|c| c.channel()).collect();
    assert_eq!(channels, vec![1, 2, 3, 4, 5, 6, 7, 8, 9]);
    let names: Vec<&str> = controls.iter().map(|c| c.name()).collect();
    assert_eq!(names, vec!["Roll", "Pitch", "Throttle", "Yaw", "Arm / SD", "SA", "SB", "SC", "SE"]);
}

#[test]
fn pocket_channels_start_from_defaults() {
    let channels = assemble_pocket_channels(&Vec::new());
    let mut expected = [1_500_u16; POCKET_CHANNEL_COUNT];
    expected[2] = 988;
    assert_eq!(channels, expected);
}

#[test]
fn pocket_channels_take_each_assignment_last_one_winning() {
    let assignments = vec![
        ChannelAssignment { channel: 1, pulse_us: 1_200 },
        ChannelAssignment { channel: 3, pulse_us: 988 },
        ChannelAssignment { channel: 16, pulse_us: 2_012 },
        ChannelAssignment { channel: 1, pulse_us: 1_800 },
    ];
    let channels = assemble_pocket_channels(&assignments);
    assert_eq!(channels[0], 1_800);
    assert_eq!(channels[1], 1_500);
    assert_eq!(channels[2], 988);
    assert_eq!(channels[15], 2_012);
}
