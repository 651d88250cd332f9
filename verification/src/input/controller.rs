//! Controller devices, snapshots and the event handling of the controller
//! input. Control values are `f32` bit patterns.
use vstd::prelude::*;

use crate::input::raw_controls::{
    entry_key, snapshots_of_device, without_device, RawControlEntry, RawControlStore,
};

verus! {

/// Failure of the controller input backend.
#[derive(Debug)]
pub enum InputError {
    Initialization(String),
}

impl InputError {
    /// The text of the error, as shown to the user.
    pub fn message(&self) -> (text: String)
        ensures
            text@ == (match self {
                InputError::Initialization(detail) => "controller input initialization failed: "@
                    + detail@,
            }),
    {
        match self {
            InputError::Initialization(detail) => {
                let mut text = String::from_str("controller input initialization failed: ");
                text.append(detail.as_str());
                text
            },
        }
    }
}

/// A connected game controller.
#[derive(Debug, Clone)]
pub struct ControllerDevice {
    pub id: usize,
    pub name: String,
    pub os_name: String,
    pub vendor_id: Option<u16>,
    pub product_id: Option<u16>,
    pub mapping_source: String,
}

/// How a raw control reported its last value.
#[derive(Debug, Clone, Copy, PartialEq, Eq, Structural)]
pub enum RawControlKind {
    Axis,
    AnalogButton,
    Button,
}

/// The text shown for a raw control kind.
pub open spec fn raw_control_kind_label(kind: RawControlKind) -> Seq<char> {
    match kind {
        RawControlKind::Axis => "Axis"@,
        RawControlKind::AnalogButton => "Analog button"@,
        RawControlKind::Button => "Button"@,
    }
}

impl RawControlKind {
    /// The text shown for this kind.
    pub fn label(self) -> (label: &'static str)
        ensures
            label@ == raw_control_kind_label(self),
    {
        match self {
            RawControlKind::Axis => "Axis",
            RawControlKind::AnalogButton => "Analog button",
            RawControlKind::Button => "Button",
        }
    }
}

/// The last value of a raw (device-specific) control, with the standard
/// name it is mapped to.
#[derive(Debug, Clone)]
pub struct RawControlSnapshot {
    pub control: String,
    pub kind: RawControlKind,
    pub logical_name: String,
    pub value_bits: u32,
}

impl RawControlSnapshot {
    /// A field-by-field copy.
    pub fn duplicate(&self) -> (copy: Self)
        ensures
            copy == *self,
    {
        RawControlSnapshot {
            control: self.control.clone(),
            kind: self.kind,
            logical_name: self.logical_name.clone(),
            value_bits: self.value_bits,
        }
    }
}

/// A standard axis and its value.
#[derive(Debug, Clone)]
pub struct AxisSnapshot {
    pub name: String,
    pub value_bits: u32,
}

/// A standard button, its analog value and whether it is pressed.
#[derive(Debug, Clone)]
pub struct ButtonSnapshot {
    pub name: String,
    pub value_bits: u32,
    pub pressed: bool,
}

/// Everything the bench shows of the selected controller.
#[derive(Debug, Clone)]
pub struct ControllerSnapshot {
    pub device: ControllerDevice,
    pub axes: Vec<AxisSnapshot>,
    pub buttons: Vec<ButtonSnapshot>,
    pub raw_controls: Vec<RawControlSnapshot>,
    pub last_event: Option<String>,
}

/// The value of the first axis named `name`, if any.
pub open spec fn axis_value_in(axes: Seq<AxisSnapshot>, name: Seq<char>) -> Option<u32>
    decreases axes.len(),
{
    if axes.len() == 0 {
        None
    } else if axes[0].name@ == name {
        Some(axes[0].value_bits)
    } else {
        axis_value_in(axes.drop_first(), name)
    }
}

/// The value of the first button named `name`, if any.
pub open spec fn button_value_in(buttons: Seq<ButtonSnapshot>, name: Seq<char>) -> Option<u32>
    decreases buttons.len(),
{
    if buttons.len() == 0 {
        None
    } else if buttons[0].name@ == name {
        Some(buttons[0].value_bits)
    } else {
        button_value_in(buttons.drop_first(), name)
    }
}

/// The value of the first raw control mapped to `logical_name` whose kind
/// satisfies `analog_only` (any kind when it is false), if any.
pub open spec fn raw_value_in(
    raw: Seq<RawControlSnapshot>,
    logical_name: Seq<char>,
    analog_only: bool,
) -> Option<u32>
    decreases raw.len(),
{
    if raw.len() == 0 {
        None
    } else if raw[0].logical_name@ == logical_name && (!analog_only || raw[0].kind
        == RawControlKind::AnalogButton) {
        Some(raw[0].value_bits)
    } else {
        raw_value_in(raw.drop_first(), logical_name, analog_only)
    }
}

/// The value reported for a logical control: an analog-button reading if
/// there is one, else any raw reading.
pub open spec fn raw_logical_value_in(raw: Seq<RawControlSnapshot>, logical_name: Seq<char>) -> Option<u32> {
    match raw_value_in(raw, logical_name, true) {
        Some(v) => Some(v),
        None => raw_value_in(raw, logical_name, false),
    }
}

/// An axis lookup finds the first axis of that name, whatever its value,
/// and finds nothing only when no axis has that name.
pub proof fn lemma_axis_lookup_finds_first(axes: Seq<AxisSnapshot>, name: Seq<char>)
    ensures
        axis_value_in(axes, name) is None <==> forall|i: int|
            0 <= i < axes.len() ==> #[trigger] axes[i].name@ != name,
        axis_value_in(axes, name) matches Some(v) ==> exists|i: int|
            0 <= i < axes.len() && #[trigger] axes[i].name@ == name && axes[i].value_bits == v
                && forall|j: int| 0 <= j < i ==> #[trigger] axes[j].name@ != name,
    decreases axes.len(),
{
    if axes.len() > 0 {
        let rest = axes.drop_first();
        lemma_axis_lookup_finds_first(rest, name);
        if axes[0].name@ == name {
            assert(forall|j: int| 0 <= j < 0 ==> #[trigger] axes[j].name@ != name);
        } else {
            assert forall|i: int| 1 <= i < axes.len() implies axes[i] == rest[i - 1] by {}
            if let Some(v) = axis_value_in(rest, name) {
                let k = choose|k: int|
                    0 <= k < rest.len() && #[trigger] rest[k].name@ == name && rest[k].value_bits
                        == v && forall|j: int| 0 <= j < k ==> #[trigger] rest[j].name@ != name;
                assert(axes[k + 1] == rest[k]);
                assert forall|j: int| 0 <= j < k + 1 implies #[trigger] axes[j].name@ != name by {
                    if j > 0 {
                        assert(axes[j] == rest[j - 1]);
                    }
                }
            } else {
                assert forall|i: int| 0 <= i < axes.len() implies #[trigger] axes[i].name@ != name by {
                    if i > 0 {
                        assert(axes[i] == rest[i - 1]);
                    }
                }
            }
        }
    }
}

/// A button lookup finds the first button of that name, whatever its value,
/// and finds nothing only when no button has that name.
pub proof fn lemma_button_lookup_finds_first(buttons: Seq<ButtonSnapshot>, name: Seq<char>)
    ensures
        button_value_in(buttons, name) is None <==> forall|i: int|
            0 <= i < buttons.len() ==> #[trigger] buttons[i].name@ != name,
        button_value_in(buttons, name) matches Some(v) ==> exists|i: int|
            0 <= i < buttons.len() && #[trigger] buttons[i].name@ == name && buttons[i].value_bits
                == v && forall|j: int| 0 <= j < i ==> #[trigger] buttons[j].name@ != name,
    decreases buttons.len(),
{
    if buttons.len() > 0 {
        let rest = buttons.drop_first();
        lemma_button_lookup_finds_first(rest, name);
        if buttons[0].name@ == name {
            assert(forall|j: int| 0 <= j < 0 ==> #[trigger] buttons[j].name@ != name);
        } else {
            assert forall|i: int| 1 <= i < buttons.len() implies buttons[i] == rest[i - 1] by {}
            if let Some(v) = button_value_in(rest, name) {
                let k = choose|k: int|
                    0 <= k < rest.len() && #[trigger] rest[k].name@ == name && rest[k].value_bits
                        == v && forall|j: int| 0 <= j < k ==> #[trigger] rest[j].name@ != name;
                assert(buttons[k + 1] == rest[k]);
                assert forall|j: int| 0 <= j < k + 1 implies #[trigger] buttons[j].name@ != name by {
                    if j > 0 {
                        assert(buttons[j] == rest[j - 1]);
                    }
                }
            } else {
                assert forall|i: int| 0 <= i < buttons.len() implies #[trigger] buttons[i].name@
                    != name by {
                    if i > 0 {
                        assert(buttons[i] == rest[i - 1]);
                    }
                }
            }
        }
    }
}

/// A raw lookup finds the first reading mapped to the logical name (and, when
/// `analog_only`, reported by an analog button), whatever its value, and finds
/// nothing only when no reading qualifies.
pub proof fn lemma_raw_lookup_finds_first(
    raw: Seq<RawControlSnapshot>,
    logical_name: Seq<char>,
    analog_only: bool,
)
    ensures
        raw_value_in(raw, logical_name, analog_only) is None <==> forall|i: int|
            0 <= i < raw.len() ==> !(#[trigger] raw[i].logical_name@ == logical_name && (
            !analog_only || raw[i].kind == RawControlKind::AnalogButton)),
        raw_value_in(raw, logical_name, analog_only) matches Some(v) ==> exists|i: int|
            0 <= i < raw.len() && #[trigger] raw[i].logical_name@ == logical_name && (!analog_only
                || raw[i].kind == RawControlKind::AnalogButton) && raw[i].value_bits == v
                && forall|j: int|
                0 <= j < i ==> !(#[trigger] raw[j].logical_name@ == logical_name && (!analog_only
                    || raw[j].kind == RawControlKind::AnalogButton)),
    decreases raw.len(),
{
    if raw.len() > 0 {
        let rest = raw.drop_first();
        lemma_raw_lookup_finds_first(rest, logical_name, analog_only);
        if raw[0].logical_name@ == logical_name && (!analog_only || raw[0].kind
            == RawControlKind::AnalogButton) {
            assert(forall|j: int|
                0 <= j < 0 ==> !(#[trigger] raw[j].logical_name@ == logical_name && (!analog_only
                    || raw[j].kind == RawControlKind::AnalogButton)));
        } else {
            assert forall|i: int| 1 <= i < raw.len() implies raw[i] == rest[i - 1] by {}
            if let Some(v) = raw_value_in(rest, logical_name, analog_only) {
                let k = choose|k: int|
                    0 <= k < rest.len() && #[trigger] rest[k].logical_name@ == logical_name && (
                    !analog_only || rest[k].kind == RawControlKind::AnalogButton)
                        && rest[k].value_bits == v && forall|j: int|
                        0 <= j < k ==> !(#[trigger] rest[j].logical_name@ == logical_name && (
                        !analog_only || rest[j].kind == RawControlKind::AnalogButton));
                assert(raw[k + 1] == rest[k]);
                assert forall|j: int| 0 <= j < k + 1 implies !(#[trigger] raw[j].logical_name@
                    == logical_name && (!analog_only || raw[j].kind
                    == RawControlKind::AnalogButton)) by {
                    if j > 0 {
                        assert(raw[j] == rest[j - 1]);
                    }
                }
            } else {
                assert forall|i: int| 0 <= i < raw.len() implies !(
                #[trigger] raw[i].logical_name@ == logical_name && (!analog_only || raw[i].kind
                    == RawControlKind::AnalogButton)) by {
                    if i > 0 {
                        assert(raw[i] == rest[i - 1]);
                    }
                }
            }
        }
    }
}

impl ControllerSnapshot {
    /// The value of the standard axis `name`, if the controller has it.
    pub fn axis_value(&self, name: &String) -> (value: Option<u32>)
        ensures
            value == axis_value_in(self.axes@, name@),
            value is None <==> forall|i: int|
                0 <= i < self.axes@.len() ==> #[trigger] self.axes@[i].name@ != name@,
            value matches Some(v) ==> exists|i: int|
                0 <= i < self.axes@.len() && #[trigger] self.axes@[i].name@ == name@
                    && self.axes@[i].value_bits == v && forall|j: int|
                    0 <= j < i ==> #[trigger] self.axes@[j].name@ != name@,
    {
        proof {
            lemma_axis_lookup_finds_first(self.axes@, name@);
        }
        let mut i: usize = 0;
        assert(self.axes@.skip(0) =~= self.axes@);
        while i < self.axes.len()
            invariant
                i <= self.axes@.len(),
                axis_value_in(self.axes@, name@) == axis_value_in(self.axes@.skip(i as int), name@),
                forall|j: int| 0 <= j < i ==> #[trigger] self.axes@[j].name@ != name@,
            decreases self.axes@.len() - i,
        {
            assert(self.axes@.skip(i as int).drop_first() =~= self.axes@.skip(i + 1));
            if self.axes[i].name == *name {
                assert(self.axes@[i as int].name@ == name@);
                return Some(self.axes[i].value_bits);
            }
            i = i + 1;
        }
        None
    }

    /// The value of the standard button `name`, if the controller has it.
    pub fn button_value(&self, name: &String) -> (value: Option<u32>)
        ensures
            value == button_value_in(self.buttons@, name@),
            value is None <==> forall|i: int|
                0 <= i < self.buttons@.len() ==> #[trigger] self.buttons@[i].name@ != name@,
            value matches Some(v) ==> exists|i: int|
                0 <= i < self.buttons@.len() && #[trigger] self.buttons@[i].name@ == name@
                    && self.buttons@[i].value_bits == v && forall|j: int|
                    0 <= j < i ==> #[trigger] self.buttons@[j].name@ != name@,
    {
        proof {
            lemma_button_lookup_finds_first(self.buttons@, name@);
        }
        let mut i: usize = 0;
        assert(self.buttons@.skip(0) =~= self.buttons@);
        while i < self.buttons.len()
            invariant
                i <= self.buttons@.len(),
                button_value_in(self.buttons@, name@) == button_value_in(
                    self.buttons@.skip(i as int),
                    name@,
                ),
                forall|j: int| 0 <= j < i ==> #[trigger] self.buttons@[j].name@ != name@,
            decreases self.buttons@.len() - i,
        {
            assert(self.buttons@.skip(i as int).drop_first() =~= self.buttons@.skip(i + 1));
            if self.buttons[i].name == *name {
                assert(self.buttons@[i as int].name@ == name@);
                return Some(self.buttons[i].value_bits);
            }
            i = i + 1;
        }
        None
    }

    /// The first raw reading mapped to `logical_name` (only analog-button
    /// readings when `analog_only`).
    fn raw_value(&self, logical_name: &String, analog_only: bool) -> (value: Option<u32>)
        ensures
            value == raw_value_in(self.raw_controls@, logical_name@, analog_only),
    {
        let mut i: usize = 0;
        assert(self.raw_controls@.skip(0) =~= self.raw_controls@);
        while i < self.raw_controls.len()
            invariant
                i <= self.raw_controls@.len(),
                raw_value_in(self.raw_controls@, logical_name@, analog_only) == raw_value_in(
                    self.raw_controls@.skip(i as int),
                    logical_name@,
                    analog_only,
                ),
            decreases self.raw_controls@.len() - i,
        {
            assert(self.raw_controls@.skip(i as int).drop_first() =~= self.raw_controls@.skip(
                i + 1,
            ));
            let control = &self.raw_controls[i];
            if control.logical_name == *logical_name && (!analog_only || control.kind
                == RawControlKind::AnalogButton) {
                return Some(control.value_bits);
            }
            i = i + 1;
        }
        None
    }

    /// The raw reading of the logical control `logical_name`: the first
    /// analog-button reading mapped to it, else the first reading of any kind.
    pub fn raw_logical_value(&self, logical_name: &String) -> (value: Option<u32>)
        ensures
            value == raw_logical_value_in(self.raw_controls@, logical_name@),
            value is None <==> forall|i: int|
                0 <= i < self.raw_controls@.len() ==> #[trigger] self.raw_controls@[i].logical_name@
                    != logical_name@,
            (exists|i: int|
                0 <= i < self.raw_controls@.len() && #[trigger] self.raw_controls@[i].logical_name@
                    == logical_name@ && self.raw_controls@[i].kind == RawControlKind::AnalogButton)
                ==> exists|i: int|
                0 <= i < self.raw_controls@.len() && #[trigger] self.raw_controls@[i].logical_name@
                    == logical_name@ && self.raw_controls@[i].kind == RawControlKind::AnalogButton
                    && value == Some(self.raw_controls@[i].value_bits),
    {
        proof {
            lemma_raw_lookup_finds_first(self.raw_controls@, logical_name@, true);
            lemma_raw_lookup_finds_first(self.raw_controls@, logical_name@, false);
        }
        match self.raw_value(logical_name, true) {
            Some(v) => Some(v),
            None => self.raw_value(logical_name, false),
        }
    }

    /// The value of a button as the Pocket mapping reads it: the raw reading
    /// of `logical_name` if there is one, else the standard button `button`.
    pub fn mapped_button_value(&self, button: &String, logical_name: &String) -> (value: Option<u32>)
        ensures
            value == (match raw_logical_value_in(self.raw_controls@, logical_name@) {
                Some(v) => Some(v),
                None => button_value_in(self.buttons@, button@),
            }),
            value is None <==> (forall|i: int|
                0 <= i < self.raw_controls@.len() ==> #[trigger] self.raw_controls@[i].logical_name@
                    != logical_name@) && (forall|i: int|
                0 <= i < self.buttons@.len() ==> #[trigger] self.buttons@[i].name@ != button@),
    {
        match self.raw_logical_value(logical_name) {
            Some(v) => Some(v),
            None => self.button_value(button),
        }
    }
}

/// Bit pattern of the `f32` value 1.0, the value of a pressed digital button.
pub const PRESSED_VALUE_BITS: u32 = 0x3f80_0000;

/// Bit pattern of the `f32` value 0.0, the value of a released digital button.
pub const RELEASED_VALUE_BITS: u32 = 0;

/// An input event, with the names of the standard control and raw code it
/// concerns.
#[derive(Debug, Clone)]
pub enum ControllerEvent {
    Connected,
    Disconnected,
    AxisChanged { axis: String, value_bits: u32, code: String },
    ButtonChanged { button: String, value_bits: u32, code: String },
    ButtonPressed { button: String, code: String },
    ButtonRepeated { button: String, code: String },
    ButtonReleased { button: String, code: String },
    Other,
}

/// Which controller is selected, the raw readings of every controller, and
/// the last event.
pub struct ControllerTracker {
    pub selected_id: Option<usize>,
    pub raw_controls: RawControlStore,
    pub last_event: Option<String>,
}

/// The raw reading that an event records, if it records one.
pub open spec fn event_reading(device_id: usize, event: ControllerEvent) -> Option<RawControlEntry> {
    match event {
        ControllerEvent::AxisChanged { axis, value_bits, code } => Some(
            RawControlEntry {
                device_id,
                snapshot: RawControlSnapshot {
                    control: code,
                    kind: RawControlKind::Axis,
                    logical_name: axis,
                    value_bits,
                },
            },
        ),
        ControllerEvent::ButtonChanged { button, value_bits, code } => Some(
            RawControlEntry {
                device_id,
                snapshot: RawControlSnapshot {
                    control: code,
                    kind: RawControlKind::AnalogButton,
                    logical_name: button,
                    value_bits,
                },
            },
        ),
        ControllerEvent::ButtonPressed { button, code } | ControllerEvent::ButtonRepeated {
            button,
            code,
        } => Some(
            RawControlEntry {
                device_id,
                snapshot: RawControlSnapshot {
                    control: code,
                    kind: RawControlKind::Button,
                    logical_name: button,
                    value_bits: PRESSED_VALUE_BITS,
                },
            },
        ),
        ControllerEvent::ButtonReleased { button, code } => Some(
            RawControlEntry {
                device_id,
                snapshot: RawControlSnapshot {
                    control: code,
                    kind: RawControlKind::Button,
                    logical_name: button,
                    value_bits: RELEASED_VALUE_BITS,
                },
            },
        ),
        _ => None,
    }
}

impl ControllerTracker {
    /// The tracker's raw store is well formed.
    pub open spec fn wf(&self) -> bool {
        self.raw_controls.wf()
    }

    /// Starts with `first_gamepad` selected, no readings and no event.
    pub fn new(first_gamepad: Option<usize>) -> (tracker: Self)
        ensures
            tracker.wf(),
            tracker.selected_id == first_gamepad,
            tracker.raw_controls@.len() == 0,
            tracker.last_event is None,
    {
        ControllerTracker {
            selected_id: first_gamepad,
            raw_controls: RawControlStore::new(),
            last_event: None,
        }
    }

    /// Handles one event of device `device_id`, described by `description`.
    ///
    /// A connected device is selected if none is. A disconnected device loses
    /// all its raw readings and, if it was selected, the selection. Axis and
    /// analog-button changes record their reading; digital presses and
    /// releases record 1.0 or 0.0 unless the same raw code already reports as
    /// an analog button. The description becomes the last event.
    pub fn handle_event(&mut self, device_id: usize, event: ControllerEvent, description: String)
        requires
            old(self).wf(),
        ensures
            final(self).wf(),
            final(self).last_event == Some(description),
            final(self).selected_id == (match event {
                ControllerEvent::Connected => if old(self).selected_id is None {
                    Some(device_id)
                } else {
                    old(self).selected_id
                },
                ControllerEvent::Disconnected => if old(self).selected_id == Some(device_id) {
                    None
                } else {
                    old(self).selected_id
                },
                _ => old(self).selected_id,
            }),
            event is Disconnected ==> final(self).raw_controls@ == without_device(
                old(self).raw_controls@,
                device_id,
            ),
            event is Disconnected ==> forall|e: RawControlEntry|
                #[trigger] final(self).raw_controls@.contains(e) <==> old(self).raw_controls@.contains(e) && e.device_id != device_id,
            event is Connected || event is Other ==> final(self).raw_controls@ == old(self).raw_controls@,
            (event is AxisChanged || event is ButtonChanged) ==> {
                let reading = event_reading(device_id, event).unwrap();
                forall|e: RawControlEntry|
                    #[trigger] final(self).raw_controls@.contains(e) <==> (e == reading || (old(self).raw_controls@.contains(e) && entry_key(e) != entry_key(reading)))
            },
            (event is ButtonPressed || event is ButtonRepeated || event is ButtonReleased) ==> {
                let reading = event_reading(device_id, event).unwrap();
                if exists|e: RawControlEntry|
                    #[trigger] old(self).raw_controls@.contains(e) && entry_key(e) == entry_key(
                        reading,
                    ) && e.snapshot.kind == RawControlKind::AnalogButton {
                    final(self).raw_controls@ == old(self).raw_controls@
                } else {
                    forall|e: RawControlEntry|
                        #[trigger] final(self).raw_controls@.contains(e) <==> (e == reading || (old(self).raw_controls@.contains(e) && entry_key(e) != entry_key(reading)))
                }
            },
            event matches ControllerEvent::AxisChanged { axis, value_bits, code } ==> final(self).raw_controls@.contains(
                (RawControlEntry {
                    device_id,
                    snapshot: RawControlSnapshot {
                        control: code,
                        kind: RawControlKind::Axis,
                        logical_name: axis,
                        value_bits,
                    },
                }),
            ),
            event matches ControllerEvent::ButtonChanged { button, value_bits, code } ==> final(self).raw_controls@.contains(
                (RawControlEntry {
                    device_id,
                    snapshot: RawControlSnapshot {
                        control: code,
                        kind: RawControlKind::AnalogButton,
                        logical_name: button,
                        value_bits,
                    },
                }),
            ),
            event matches ControllerEvent::ButtonPressed { button, code } ==> final(self).raw_controls@.contains(
                (RawControlEntry {
                    device_id,
                    snapshot: RawControlSnapshot {
                        control: code,
                        kind: RawControlKind::Button,
                        logical_name: button,
                        value_bits: PRESSED_VALUE_BITS,
                    },
                }),
            ) || exists|e: RawControlEntry|
                #[trigger] final(self).raw_controls@.contains(e) && old(self).raw_controls@.contains(
                    e,
                ) && e.device_id == device_id && e.snapshot.control@ == code@ && e.snapshot.kind
                    == RawControlKind::AnalogButton,
            event matches ControllerEvent::ButtonRepeated { button, code } ==> final(self).raw_controls@.contains(
                (RawControlEntry {
                    device_id,
                    snapshot: RawControlSnapshot {
                        control: code,
                        kind: RawControlKind::Button,
                        logical_name: button,
                        value_bits: PRESSED_VALUE_BITS,
                    },
                }),
            ) || exists|e: RawControlEntry|
                #[trigger] final(self).raw_controls@.contains(e) && old(self).raw_controls@.contains(
                    e,
                ) && e.device_id == device_id && e.snapshot.control@ == code@ && e.snapshot.kind
                    == RawControlKind::AnalogButton,
            event matches ControllerEvent::ButtonReleased { button, code } ==> final(self).raw_controls@.contains(
                (RawControlEntry {
                    device_id,
                    snapshot: RawControlSnapshot {
                        control: code,
                        kind: RawControlKind::Button,
                        logical_name: button,
                        value_bits: RELEASED_VALUE_BITS,
                    },
                }),
            ) || exists|e: RawControlEntry|
                #[trigger] final(self).raw_controls@.contains(e) && old(self).raw_controls@.contains(
                    e,
                ) && e.device_id == device_id && e.snapshot.control@ == code@ && e.snapshot.kind
                    == RawControlKind::AnalogButton,
    {
        self.last_event = Some(description);
        match event {
            ControllerEvent::Connected => {
                if self.selected_id.is_none() {
                    self.selected_id = Some(device_id);
                }
            },
            ControllerEvent::Disconnected => {
                self.raw_controls.remove_device(device_id);
                if self.selected_id == Some(device_id) {
                    self.selected_id = None;
                }
            },
            ControllerEvent::AxisChanged { axis, value_bits, code } => {
                self.raw_controls.insert(
                    RawControlEntry {
                        device_id,
                        snapshot: RawControlSnapshot {
                            control: code,
                            kind: RawControlKind::Axis,
                            logical_name: axis,
                            value_bits,
                        },
                    },
                );
            },
            ControllerEvent::ButtonChanged { button, value_bits, code } => {
                self.raw_controls.insert(
                    RawControlEntry {
                        device_id,
                        snapshot: RawControlSnapshot {
                            control: code,
                            kind: RawControlKind::AnalogButton,
                            logical_name: button,
                            value_bits,
                        },
                    },
                );
            },
            ControllerEvent::ButtonPressed { button, code } | ControllerEvent::ButtonRepeated {
                button,
                code,
            } => {
                self.raw_controls.insert_digital(
                    RawControlEntry {
                        device_id,
                        snapshot: RawControlSnapshot {
                            control: code,
                            kind: RawControlKind::Button,
                            logical_name: button,
                            value_bits: PRESSED_VALUE_BITS,
                        },
                    },
                );
            },
            ControllerEvent::ButtonReleased { button, code } => {
                self.raw_controls.insert_digital(
                    RawControlEntry {
                        device_id,
                        snapshot: RawControlSnapshot {
                            control: code,
                            kind: RawControlKind::Button,
                            logical_name: button,
                            value_bits: RELEASED_VALUE_BITS,
                        },
                    },
                );
            },
            ControllerEvent::Other => {},
        }
    }

    /// Ends a poll: if no controller is selected, the first connected gamepad
    /// (if any) becomes selected.
    pub fn finish_poll(&mut self, first_gamepad: Option<usize>)
        requires
            old(self).wf(),
        ensures
            final(self).wf(),
            final(self).selected_id == if old(self).selected_id is None {
                first_gamepad
            } else {
                old(self).selected_id
            },
            final(self).raw_controls@ == old(self).raw_controls@,
            final(self).last_event == old(self).last_event,
    {
        if self.selected_id.is_none() {
            self.selected_id = first_gamepad;
        }
    }

    /// The raw readings of the selected controller, in key order; `None`
    /// when no controller is selected.
    pub fn selected_raw_controls(&self) -> (controls: Option<Vec<RawControlSnapshot>>)
        requires
            self.wf(),
        ensures
            match self.selected_id {
                Some(id) => controls matches Some(list) && list@ == snapshots_of_device(
                    self.raw_controls@,
                    id,
                ) && forall|x: RawControlSnapshot|
                    #[trigger] list@.contains(x) <==> exists|e: RawControlEntry|
                        #[trigger] self.raw_controls@.contains(e) && e.device_id == id && e.snapshot
                            == x,
                None => controls is None,
            },
    {
        match self.selected_id {
            Some(id) => Some(self.raw_controls.snapshots_for(id)),
            None => None,
        }
    }
}

/// A recorded reading carries the event's device, raw code, standard
/// control name and value: axis and analog-button changes keep their value,
/// digital presses record 1.0 and releases 0.0; other events record nothing.
pub proof fn lemma_event_reading_carries_event(device_id: usize, event: ControllerEvent)
    ensures
        event matches ControllerEvent::AxisChanged { axis, value_bits, code } ==> event_reading(
            device_id,
            event,
        ) matches Some(r) && r.device_id == device_id && r.snapshot.control == code
            && r.snapshot.logical_name == axis && r.snapshot.value_bits == value_bits
            && r.snapshot.kind == RawControlKind::Axis,
        event matches ControllerEvent::ButtonChanged { button, value_bits, code } ==> event_reading(
            device_id,
            event,
        ) matches Some(r) && r.device_id == device_id && r.snapshot.control == code
            && r.snapshot.logical_name == button && r.snapshot.value_bits == value_bits
            && r.snapshot.kind == RawControlKind::AnalogButton,
        event matches ControllerEvent::ButtonPressed { button, code } ==> event_reading(
            device_id,
            event,
        ) matches Some(r) && r.device_id == device_id && r.snapshot.control == code
            && r.snapshot.logical_name == button && r.snapshot.value_bits == PRESSED_VALUE_BITS
            && r.snapshot.kind == RawControlKind::Button,
        event matches ControllerEvent::ButtonRepeated { button, code } ==> event_reading(
            device_id,
            event,
        ) matches Some(r) && r.device_id == device_id && r.snapshot.control == code
            && r.snapshot.logical_name == button && r.snapshot.value_bits == PRESSED_VALUE_BITS
            && r.snapshot.kind == RawControlKind::Button,
        event matches ControllerEvent::ButtonReleased { button, code } ==> event_reading(
            device_id,
            event,
        ) matches Some(r) && r.device_id == device_id && r.snapshot.control == code
            && r.snapshot.logical_name == button && r.snapshot.value_bits == RELEASED_VALUE_BITS
            && r.snapshot.kind == RawControlKind::Button,
        (event is Connected || event is Disconnected || event is Other) ==> event_reading(
            device_id,
            event,
        ) is None,
{
}

} // verus!
