//! Events that enter the input pipeline and HID reports that leave it.

use vstd::prelude::*;

use crate::num;

verus! {

/// Meaning of one value of a pointing event.
#[derive(Clone, Copy, Debug, PartialEq, Eq, Structural)]
pub enum Axis {
    X,
    Y,
    Z,
    /// Horizontal scroll.
    H,
    /// Vertical scroll.
    V,
}

/// Whether an axis value is a movement or a position.
#[derive(Clone, Copy, Debug, PartialEq, Eq, Structural)]
pub enum AxisValType {
    Rel,
    Abs,
}

/// One axis of a pointing event.
#[derive(Clone, Copy, Debug, PartialEq, Eq, Structural)]
pub struct AxisEvent {
    pub typ: AxisValType,
    pub axis: Axis,
    pub value: i16,
}

/// A sample published by a pointing device.
#[derive(Clone, Copy, Debug)]
pub struct PointingEvent {
    pub device_id: u8,
    pub axes: [AxisEvent; 3],
}

/// A request to change the resolution of the sensor of one pointing device.
#[derive(Clone, Copy, Debug, PartialEq, Eq, Structural)]
pub struct PointingSetCpiEvent {
    pub device_id: u8,
    pub cpi: u16,
}

/// A key or encoder transition. `key` identifies the switch or encoder.
#[derive(Clone, Copy, Debug, PartialEq, Eq, Structural)]
pub struct KeyboardEvent {
    pub key: u32,
    pub pressed: bool,
}

/// The action that a key transition resolved to.
#[derive(Clone, Copy, Debug, PartialEq, Eq, Structural)]
pub enum Action {
    /// Application-defined action with its number.
    User(u8),
    /// Any action that the keymap handles by itself.
    Builtin,
}

/// An action together with the key transition that caused it.
#[derive(Clone, Copy, Debug, PartialEq, Eq, Structural)]
pub struct ActionEvent {
    pub keyboard_event: KeyboardEvent,
    pub action: Action,
}

/// Key of the HID keyboard usage page.
#[derive(Clone, Copy, Debug, PartialEq, Eq, Structural)]
pub enum HidKeyCode {
    Right,
    Left,
    Down,
    Up,
    /// Any other key, by its usage number.
    Usage(u8),
}

/// HID mouse report.
#[derive(Clone, Copy, Debug, PartialEq, Eq, Structural)]
pub struct MouseReport {
    pub buttons: u8,
    pub x: i8,
    pub y: i8,
    pub wheel: i8,
    pub pan: i8,
}

/// HID boot keyboard report.
#[derive(Clone, Copy, Debug)]
pub struct KeyboardReport {
    pub modifier: u8,
    pub reserved: u8,
    pub leds: u8,
    pub keycodes: [u8; 6],
}

/// A report for the host.
#[derive(Clone, Copy, Debug)]
pub enum Report {
    KeyboardReport(KeyboardReport),
    MouseReport(MouseReport),
    /// Consumer control usage.
    MediaKeyboardReport(u16),
    /// System control usage.
    SystemControlReport(u8),
}

/// Value of `axis` in `axes`: the last one that is given, zero where none is.
pub open spec fn axis_value(axes: Seq<AxisEvent>, axis: Axis) -> i16
    decreases axes.len(),
{
    if axes.len() == 0 {
        0
    } else if axes.last().axis == axis {
        axes.last().value
    } else {
        axis_value(axes.drop_last(), axis)
    }
}

/// Usage number of a key on the HID keyboard page.
pub open spec fn usage_of(key: HidKeyCode) -> u8 {
    match key {
        HidKeyCode::Right => 0x4f,
        HidKeyCode::Left => 0x50,
        HidKeyCode::Down => 0x51,
        HidKeyCode::Up => 0x52,
        HidKeyCode::Usage(code) => code,
    }
}

impl HidKeyCode {
    /// Usage number of this key on the HID keyboard page.
    pub fn usage(self) -> (code: u8)
        ensures
            code == usage_of(self),
    {
        match self {
            HidKeyCode::Right => 0x4f,
            HidKeyCode::Left => 0x50,
            HidKeyCode::Down => 0x51,
            HidKeyCode::Up => 0x52,
            HidKeyCode::Usage(code) => code,
        }
    }
}

impl PointingEvent {
    /// Value that the event carries for `axis`.
    pub fn axis(&self, axis: Axis) -> (value: i16)
        ensures
            value == axis_value(self.axes@, axis),
    {
        let mut value: i16 = 0;
        let mut i: usize = 0;
        assert(self.axes@.take(0) =~= Seq::<AxisEvent>::empty());
        while i < 3
            invariant
                i <= 3,
                value == axis_value(self.axes@.take(i as int), axis),
            decreases 3 - i,
        {
            assert(self.axes@.take(i + 1).drop_last() =~= self.axes@.take(i as int));
            if self.axes[i].axis == axis {
                value = self.axes[i].value;
            }
            i = i + 1;
        }
        assert(self.axes@.take(3) =~= self.axes@);
        value
    }
}

/// Pause after the press and after the release of a tapped key.
pub const TAP_DELAY_MS: u64 = 5;

/// Whether two reports tap a key: the key alone is down, and everything is released.
pub open spec fn is_tap(press: KeyboardReport, release: KeyboardReport, keycode: HidKeyCode) -> bool {
    &&& press.modifier == 0 && press.reserved == 0 && press.leds == 0
    &&& press.keycodes@ == seq![usage_of(keycode), 0u8, 0u8, 0u8, 0u8, 0u8]
    &&& release.modifier == 0 && release.reserved == 0 && release.leds == 0
    &&& release.keycodes@ == seq![0u8, 0u8, 0u8, 0u8, 0u8, 0u8]
}

/// Reports of a key tap: the key alone is down, and everything is released.
pub fn tap_key(keycode: HidKeyCode) -> (reports: (KeyboardReport, KeyboardReport))
    ensures
        is_tap(reports.0, reports.1, keycode),
{
    let press = KeyboardReport {
        modifier: 0,
        reserved: 0,
        leds: 0,
        keycodes: [keycode.usage(), 0, 0, 0, 0, 0],
    };
    let release = KeyboardReport {
        modifier: 0,
        reserved: 0,
        leds: 0,
        keycodes: [0, 0, 0, 0, 0, 0],
    };
    (press, release)
}

/// Mouse report of a movement, each value limited to what the report can hold.
pub open spec fn mouse_report_of(buttons: u8, x: int, y: int, wheel: int, pan: int) -> MouseReport {
    MouseReport {
        buttons,
        x: num::clamp_i8(x) as i8,
        y: num::clamp_i8(y) as i8,
        wheel: num::clamp_i8(wheel) as i8,
        pan: num::clamp_i8(pan) as i8,
    }
}

/// Mouse report of a movement, each value limited to what the report can hold.
pub fn mouse_report(buttons: u8, x: i16, y: i16, wheel: i16, pan: i16) -> (report: MouseReport)
    ensures
        report == mouse_report_of(buttons, x as int, y as int, wheel as int, pan as int),
{
    MouseReport {
        buttons,
        x: num::narrow_i16_to_i8(x),
        y: num::narrow_i16_to_i8(y),
        wheel: num::narrow_i16_to_i8(wheel),
        pan: num::narrow_i16_to_i8(pan),
    }
}

/// The last value that an event gives for an axis counts, and an axis that is not given
/// does not move.
pub proof fn law_last_value_of_an_axis_counts(axes: Seq<AxisEvent>, axis: Axis, i: int)
    requires
        0 <= i <= axes.len(),
        i > 0 ==> axes[i - 1].axis == axis,
        forall|j: int| i <= j < axes.len() ==> (#[trigger] axes[j]).axis != axis,
    ensures
        axis_value(axes, axis) == (if i > 0 {
            axes[i - 1].value
        } else {
            0i16
        }),
    decreases axes.len(),
{
    if axes.len() > i {
        law_last_value_of_an_axis_counts(axes.drop_last(), axis, i);
    }
}

/// A mouse report carries its movement, each value on its own axis and limited to -128
/// to 127, and the buttons unchanged.
pub proof fn law_mouse_reports_carry_their_movement(buttons: u8, x: int, y: int, wheel: int, pan: int)
    ensures
        ({
            let report = mouse_report_of(buttons, x, y, wheel, pan);
            let limited = |v: int|
                if v > 127 {
                    127int
                } else if v < -128 {
                    -128int
                } else {
                    v
                };
            &&& report.buttons == buttons
            &&& report.x == limited(x)
            &&& report.y == limited(y)
            &&& report.wheel == limited(wheel)
            &&& report.pan == limited(pan)
        }),
{
}

/// The arrow keys have the usage numbers 0x4f to 0x52 of the HID keyboard page, in the
/// order right, left, down and up; any other key has its own.
pub proof fn law_arrow_keys_have_their_usages(code: u8)
    ensures
        usage_of(HidKeyCode::Right) == 0x4f,
        usage_of(HidKeyCode::Left) == 0x50,
        usage_of(HidKeyCode::Down) == 0x51,
        usage_of(HidKeyCode::Up) == 0x52,
        usage_of(HidKeyCode::Usage(code)) == code,
{
}

/// A tap presses its key, by the key's usage number, and no other key and no modifier,
/// and leaves nothing pressed.
pub proof fn law_taps_press_one_key(press: KeyboardReport, release: KeyboardReport, keycode: HidKeyCode)
    requires
        is_tap(press, release, keycode),
    ensures
        press.modifier == 0 && press.reserved == 0 && press.leds == 0,
        release.modifier == 0 && release.reserved == 0 && release.leds == 0,
        press.keycodes[0] == (match keycode {
            HidKeyCode::Right => 0x4fu8,
            HidKeyCode::Left => 0x50u8,
            HidKeyCode::Down => 0x51u8,
            HidKeyCode::Up => 0x52u8,
            HidKeyCode::Usage(code) => code,
        }),
        forall|i: int| 1 <= i < 6 ==> #[trigger] press.keycodes[i] == 0,
        forall|i: int| 0 <= i < 6 ==> #[trigger] release.keycodes[i] == 0,
{
    assert forall|i: int| 1 <= i < 6 implies #[trigger] press.keycodes[i] == 0 by {
        assert(press.keycodes@[i] == 0);
    }
    assert forall|i: int| 0 <= i < 6 implies #[trigger] release.keycodes[i] == 0 by {
        assert(release.keycodes@[i] == 0);
    }
}

} // verus!
