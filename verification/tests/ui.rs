use quadbench::ui::{channel_name, format_usb_id, UiPage, UI_PAGE_COUNT};

#[test]
fn pages_in_navigation_order() {
    let pages = UiPage::all();
    assert_eq!(pages.len(), UI_PAGE_COUNT);
    assert_eq!(pages[0], UiPage::Dashboard);
    assert_eq!(pages[9], UiPage::Settings);
    let labels: Vec<&str> = pages.iter().map(|page| page.label()).collect();
    assert_eq!(
        labels,
        vec![
            "Dashboard",
            "Receiver",
            "Motors / ESC",
            "Battery",
            "GPS",
            "Sensors",
            "Fault Injection",
            "Betaflight",
            "Logs",
            "Settings",
        ]
    );
    for (index, page) in pages.iter().enumerate() {
        for other in &pages[index + 1..] {
            assert_ne!(page, other);
        }
    }
}

#[test]
fn channel_names_follow_aetr() {
    assert_eq!(channel_name(0), "Roll");
    assert_eq!(channel_name(1), "Pitch");
    assert_eq!(channel_name(2), "Throttle");
    assert_eq!(channel_name(3), "Yaw");
    assert_eq!(channel_name(4), "AUX1 / SD Arm");
    assert_eq!(channel_name(8), "AUX5 / SE");
    assert_eq!(channel_name(15), "AUX12");
    assert_eq!(channel_name(16), "Unknown");
    assert_eq!(channel_name(usize::MAX), "Unknown");
}

#[test]
fn usb_ids_are_four_upper_case_hex_digits() {
    assert_eq!(format_usb_id(Some(0x1209)), "1209");
    assert_eq!(format_usb_id(Some(0x4f54)), "4F54");
    assert_eq!(format_usb_id(Some(0xABCD)), "ABCD");
    assert_eq!(format_usb_id(Some(0x000a)), "000A");
    assert_eq!(format_usb_id(Some(0)), "0000");
    assert_eq!(format_usb_id(Some(u16::MAX)), "FFFF");
    assert_eq!(format_usb_id(None), "unknown");
}

#[test]
fn usb_id_text_matches_std_formatting() {
    for value in (0..=u16::MAX).step_by(251) {
        assert_eq!(format_usb_id(Some(value)), format!("{value:04X}"));
    }
}

#[test]
fn all_pages_constant_matches_navigation() {
    assert_eq!(UiPage::ALL, UiPage::all());
}
