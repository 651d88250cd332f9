//! Page navigation and receiver-page formatting.
use vstd::prelude::*;

verus! {

/// A page of the bench window.
#[derive(Debug, Clone, Copy, PartialEq, Eq, Structural)]
pub enum UiPage {
    Dashboard,
    Receiver,
    Motors,
    Battery,
    Gps,
    Sensors,
    FaultInjection,
    Betaflight,
    Logs,
    Settings,
}

/// Number of pages.
pub const UI_PAGE_COUNT: usize = 10;

/// The pages in navigation order.
pub open spec fn ui_page_at(index: int) -> UiPage {
    if index == 0 {
        UiPage::Dashboard
    } else if index == 1 {
        UiPage::Receiver
    } else if index == 2 {
        UiPage::Motors
    } else if index == 3 {
        UiPage::Battery
    } else if index == 4 {
        UiPage::Gps
    } else if index == 5 {
        UiPage::Sensors
    } else if index == 6 {
        UiPage::FaultInjection
    } else if index == 7 {
        UiPage::Betaflight
    } else if index == 8 {
        UiPage::Logs
    } else {
        UiPage::Settings
    }
}

/// The navigation title of a page.
pub open spec fn ui_page_label(page: UiPage) -> Seq<char> {
    match page {
        UiPage::Dashboard => "Dashboard"@,
        UiPage::Receiver => "Receiver"@,
        UiPage::Motors => "Motors / ESC"@,
        UiPage::Battery => "Battery"@,
        UiPage::Gps => "GPS"@,
        UiPage::Sensors => "Sensors"@,
        UiPage::FaultInjection => "Fault Injection"@,
        UiPage::Betaflight => "Betaflight"@,
        UiPage::Logs => "Logs"@,
        UiPage::Settings => "Settings"@,
    }
}

impl UiPage {
    /// Every page, in navigation order.
    pub const ALL: [UiPage; UI_PAGE_COUNT] = [
        UiPage::Dashboard,
        UiPage::Receiver,
        UiPage::Motors,
        UiPage::Battery,
        UiPage::Gps,
        UiPage::Sensors,
        UiPage::FaultInjection,
        UiPage::Betaflight,
        UiPage::Logs,
        UiPage::Settings,
    ];

    /// Every page, in navigation order.
    pub fn all() -> (pages: [UiPage; UI_PAGE_COUNT])
        ensures
            forall|i: int| 0 <= i < UI_PAGE_COUNT ==> #[trigger] pages[i] == ui_page_at(i),
    {
        Self::ALL
    }

    /// The navigation title of this page.
    pub fn label(self) -> (label: &'static str)
        ensures
            label@ == ui_page_label(self),
    {
        match self {
            UiPage::Dashboard => "Dashboard",
            UiPage::Receiver => "Receiver",
            UiPage::Motors => "Motors / ESC",
            UiPage::Battery => "Battery",
            UiPage::Gps => "GPS",
            UiPage::Sensors => "Sensors",
            UiPage::FaultInjection => "Fault Injection",
            UiPage::Betaflight => "Betaflight",
            UiPage::Logs => "Logs",
            UiPage::Settings => "Settings",
        }
    }
}

/// Every page occurs exactly once in the navigation order.
pub proof fn lemma_navigation_lists_each_page_once(page: UiPage)
    ensures
        exists|i: int| 0 <= i < UI_PAGE_COUNT && ui_page_at(i) == page,
        forall|i: int, j: int|
            0 <= i < UI_PAGE_COUNT && 0 <= j < UI_PAGE_COUNT && #[trigger] ui_page_at(i)
                == #[trigger] ui_page_at(j) ==> i == j,
{
    let i: int = match page {
        UiPage::Dashboard => 0,
        UiPage::Receiver => 1,
        UiPage::Motors => 2,
        UiPage::Battery => 3,
        UiPage::Gps => 4,
        UiPage::Sensors => 5,
        UiPage::FaultInjection => 6,
        UiPage::Betaflight => 7,
        UiPage::Logs => 8,
        UiPage::Settings => 9,
    };
    assert(ui_page_at(i) == page);
}

/// The function of receiver channel `index` (AETR, then the switches).
pub open spec fn channel_name_text(index: int) -> Seq<char> {
    if index == 0 {
        "Roll"@
    } else if index == 1 {
        "Pitch"@
    } else if index == 2 {
        "Throttle"@
    } else if index == 3 {
        "Yaw"@
    } else if index == 4 {
        "AUX1 / SD Arm"@
    } else if index == 5 {
        "AUX2 / SA"@
    } else if index == 6 {
        "AUX3 / SB"@
    } else if index == 7 {
        "AUX4 / SC"@
    } else if index == 8 {
        "AUX5 / SE"@
    } else if index == 9 {
        "AUX6"@
    } else if index == 10 {
        "AUX7"@
    } else if index == 11 {
        "AUX8"@
    } else if index == 12 {
        "AUX9"@
    } else if index == 13 {
        "AUX10"@
    } else if index == 14 {
        "AUX11"@
    } else if index == 15 {
        "AUX12"@
    } else {
        "Unknown"@
    }
}

/// The function of receiver channel `index`, as shown in the channel monitor.
pub fn channel_name(index: usize) -> (name: &'static str)
    ensures
        name@ == channel_name_text(index as int),
{
    match index {
        0 => "Roll",
        1 => "Pitch",
        2 => "Throttle",
        3 => "Yaw",
        4 => "AUX1 / SD Arm",
        5 => "AUX2 / SA",
        6 => "AUX3 / SB",
        7 => "AUX4 / SC",
        8 => "AUX5 / SE",
        9 => "AUX6",
        10 => "AUX7",
        11 => "AUX8",
        12 => "AUX9",
        13 => "AUX10",
        14 => "AUX11",
        15 => "AUX12",
        _ => "Unknown",
    }
}

/// The upper-case hexadecimal digit for `nibble` (below 16).
pub open spec fn hex_digit(nibble: int) -> char {
    if nibble < 10 {
        (48 + nibble) as char
    } else {
        (55 + nibble) as char
    }
}

/// Four upper-case hexadecimal digits of `value`, most significant first.
pub open spec fn usb_id_text(value: u16) -> Seq<char> {
    seq![
        hex_digit(((value >> 12u16) & 0xf) as int),
        hex_digit(((value >> 8u16) & 0xf) as int),
        hex_digit(((value >> 4u16) & 0xf) as int),
        hex_digit((value & 0xf) as int),
    ]
}

/// The text shown for an optional USB vendor or product id.
pub open spec fn usb_id_display(value: Option<u16>) -> Seq<char> {
    match value {
        Some(v) => usb_id_text(v),
        None => "unknown"@,
    }
}

/// The value of an upper-case hexadecimal digit.
pub open spec fn hex_value(c: char) -> int {
    if (c as int) < 58 {
        c as int - 48
    } else {
        c as int - 55
    }
}

/// The text of a USB id is unambiguous: its four digits, read as a
/// hexadecimal number, give the id back.
pub proof fn lemma_usb_id_text_reads_back(value: u16)
    ensures
        usb_id_text(value).len() == 4,
        4096 * hex_value(usb_id_text(value)[0]) + 256 * hex_value(usb_id_text(value)[1]) + 16
            * hex_value(usb_id_text(value)[2]) + hex_value(usb_id_text(value)[3]) == value,
{
    let d0 = (value >> 12u16) & 0xf;
    let d1 = (value >> 8u16) & 0xf;
    let d2 = (value >> 4u16) & 0xf;
    let d3 = value & 0xf;
    assert(d0 < 16 && d1 < 16 && d2 < 16 && d3 < 16) by (bit_vector)
        requires
            d0 == (value >> 12u16) & 0xf,
            d1 == (value >> 8u16) & 0xf,
            d2 == (value >> 4u16) & 0xf,
            d3 == value & 0xf,
    ;
    assert(4096 * ((value >> 12u16) & 0xf) + 256 * ((value >> 8u16) & 0xf) + 16 * ((value
        >> 4u16) & 0xf) + (value & 0xf) == value) by (bit_vector);
    assert(hex_value(hex_digit(d0 as int)) == d0);
    assert(hex_value(hex_digit(d1 as int)) == d1);
    assert(hex_value(hex_digit(d2 as int)) == d2);
    assert(hex_value(hex_digit(d3 as int)) == d3);
}

/// The one-character string holding the hexadecimal digit of `nibble`.
fn hex_digit_str(nibble: u16) -> (digit: &'static str)
    requires
        nibble < 16,
    ensures
        digit@ == seq![hex_digit(nibble as int)],
{
    match nibble {
        0 => {
            proof {
                reveal_strlit("0");
            }
            "0"
        },
        1 => {
            proof {
                reveal_strlit("1");
            }
            "1"
        },
        2 => {
            proof {
                reveal_strlit("2");
            }
            "2"
        },
        3 => {
            proof {
                reveal_strlit("3");
            }
            "3"
        },
        4 => {
            proof {
                reveal_strlit("4");
            }
            "4"
        },
        5 => {
            proof {
                reveal_strlit("5");
            }
            "5"
        },
        6 => {
            proof {
                reveal_strlit("6");
            }
            "6"
        },
        7 => {
            proof {
                reveal_strlit("7");
            }
            "7"
        },
        8 => {
            proof {
                reveal_strlit("8");
            }
            "8"
        },
        9 => {
            proof {
                reveal_strlit("9");
            }
            "9"
        },
        10 => {
            proof {
                reveal_strlit("A");
            }
            "A"
        },
        11 => {
            proof {
                reveal_strlit("B");
            }
            "B"
        },
        12 => {
            proof {
                reveal_strlit("C");
            }
            "C"
        },
        13 => {
            proof {
                reveal_strlit("D");
            }
            "D"
        },
        14 => {
            proof {
                reveal_strlit("E");
            }
            "E"
        },
        _ => {
            proof {
                reveal_strlit("F");
            }
            "F"
        },
    }
}

/// Formats a USB vendor or product id as four upper-case hex digits, or
/// "unknown" when the id is absent.
pub fn format_usb_id(value: Option<u16>) -> (text: String)
    ensures
        text@ == usb_id_display(value),
{
    match value {
        Some(v) => {
            assert((v >> 12u16) & 0xf < 16 && (v >> 8u16) & 0xf < 16 && (v >> 4u16) & 0xf < 16
                && v & 0xf < 16) by (bit_vector);
            let mut text = String::new();
            text.append(hex_digit_str((v >> 12u16) & 0xf));
            text.append(hex_digit_str((v >> 8u16) & 0xf));
            text.append(hex_digit_str((v >> 4u16) & 0xf));
            text.append(hex_digit_str(v & 0xf));
            assert(text@ =~= usb_id_text(v));
            text
        },
        None => String::from_str("unknown"),
    }
}

} // verus!
