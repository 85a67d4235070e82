//! K:04 Qube central pointing processor.
//!
//! The Qube receives pointing events from both halves over the split link and
//! applies the K:04 pointing mode keys on the central.

use vstd::prelude::*;

use crate::event;
use crate::event::HidKeyCode;
use crate::num;
use crate::pointing::processor::PointerOutput;
use crate::pointing::qube_settings::{QubePointingKind, QubePointingMode, QubePointingSource};

verus! {

pub const QUBE_USER_SNIPER: u8 = 28;

pub const QUBE_USER_SCROLL: u8 = 29;

pub const QUBE_USER_TEXT: u8 = 30;

pub const QUBE_USER_LEFT_SNIPER: u8 = 31;

pub const QUBE_USER_LEFT_SCROLL: u8 = 32;

pub const QUBE_USER_LEFT_TEXT: u8 = 33;

pub const QUBE_USER_RIGHT_SNIPER: u8 = 34;

pub const QUBE_USER_RIGHT_SCROLL: u8 = 35;

pub const QUBE_USER_RIGHT_TEXT: u8 = 36;

/// Marks that no automatic layer is on.
pub const QUBE_AUTO_LAYER_NONE: u8 = 0xff;

/// Longest press of a mode key that counts as a tap.
pub const QUBE_MODE_KEY_TAP_MS: u32 = 220;

/// Pause after which text motion starts over.
pub const QUBE_TEXT_AXIS_IDLE_MS: u32 = 220;

/// Speed above which acceleration doubles a motion.
pub const QUBE_ACCELERATION_SPEED: i16 = 10;

/// Pointing state of one half.
#[derive(Clone, Copy, Debug, PartialEq, Eq, Structural)]
pub struct QubePointingSideState {
    /// Mode that a mode key put in place of the configured one.
    pub mode_override: Option<QubePointingMode>,
    /// Override at the time when the mode key was pressed.
    pub mode_key_prev_override: Option<QubePointingMode>,
    pub mode_key_pressed_at_ms: u32,
    pub remainder_x: i32,
    pub remainder_y: i32,
    /// Time of the last text motion; zero when there is none to continue.
    pub text_last_motion_ms: u32,
}

/// State of a half without its accumulated motion.
pub open spec fn without_motion(s: QubePointingSideState) -> QubePointingSideState {
    QubePointingSideState { remainder_x: 0, remainder_y: 0, ..s }
}

impl QubePointingSideState {
    pub fn new() -> (s: Self)
        ensures
            s == (QubePointingSideState {
                mode_override: None,
                mode_key_prev_override: None,
                mode_key_pressed_at_ms: 0,
                remainder_x: 0,
                remainder_y: 0,
                text_last_motion_ms: 0,
            }),
    {
        QubePointingSideState {
            mode_override: None,
            mode_key_prev_override: None,
            mode_key_pressed_at_ms: 0,
            remainder_x: 0,
            remainder_y: 0,
            text_last_motion_ms: 0,
        }
    }

    /// Drops the accumulated motion.
    pub fn reset_accum(&mut self)
        ensures
            *final(self) == without_motion(*old(self)),
    {
        self.remainder_x = 0;
        self.remainder_y = 0;
    }
}

/// Module that a device id stands for.
pub open spec fn source_of(device_id: u8) -> Option<QubePointingSource> {
    if device_id == 0 {
        Some(QubePointingSource { side: 0, kind: QubePointingKind::Ball })
    } else if device_id == 1 {
        Some(QubePointingSource { side: 1, kind: QubePointingKind::Ball })
    } else if device_id == 2 {
        Some(QubePointingSource { side: 0, kind: QubePointingKind::Touch })
    } else if device_id == 3 {
        Some(QubePointingSource { side: 1, kind: QubePointingKind::Touch })
    } else {
        None
    }
}

/// Module that a device id stands for.
pub fn qube_pointing_source(device_id: u8) -> (source: Option<QubePointingSource>)
    ensures
        source == source_of(device_id),
{
    match device_id {
        0 => Some(QubePointingSource { side: 0, kind: QubePointingKind::Ball }),
        1 => Some(QubePointingSource { side: 1, kind: QubePointingKind::Ball }),
        2 => Some(QubePointingSource { side: 0, kind: QubePointingKind::Touch }),
        3 => Some(QubePointingSource { side: 1, kind: QubePointingKind::Touch }),
        _ => None,
    }
}

/// Motion turned by `orientation` quarter turns.
pub open spec fn rotated(x: int, y: int, orientation: u8) -> (int, int) {
    if orientation == 1 {
        (y, num::clamp_i16(-x))
    } else if orientation == 2 {
        (num::clamp_i16(-x), num::clamp_i16(-y))
    } else if orientation == 3 {
        (num::clamp_i16(-y), x)
    } else {
        (x, y)
    }
}

/// Motion turned by `orientation` quarter turns.
pub fn rotate_motion(x: i16, y: i16, orientation: u8) -> (motion: (i16, i16))
    ensures
        (motion.0 as int, motion.1 as int) == rotated(x as int, y as int, orientation),
{
    match orientation {
        1 => (y, num::sat_neg_i16(x)),
        2 => (num::sat_neg_i16(x), num::sat_neg_i16(y)),
        3 => (num::sat_neg_i16(y), x),
        _ => (x, y),
    }
}

/// Motion of one axis, doubled where it is fast.
pub open spec fn accelerated(value: int) -> int {
    if num::magnitude(value) > QUBE_ACCELERATION_SPEED {
        num::clamp_i16(2 * value)
    } else {
        value
    }
}

/// Motion of one axis, doubled where it is fast.
pub fn accelerate_axis(value: i16) -> (r: i16)
    ensures
        r == accelerated(value as int),
{
    if value > QUBE_ACCELERATION_SPEED || value < -QUBE_ACCELERATION_SPEED {
        num::sat_mul_i16(value, 2)
    } else {
        value
    }
}

/// Divisor that is used for the divisor `d`.
pub open spec fn positive_divisor(d: i32) -> int {
    if d < 1 {
        1
    } else {
        d as int
    }
}

/// Output of dividing the accumulated motion of one axis.
pub open spec fn divided(remainder: i32, delta: i16, divisor: i32) -> int {
    num::trunc_div(num::clamp_i32(remainder + delta), positive_divisor(divisor))
}

/// Accumulated motion of one axis after its output was subtracted.
pub open spec fn divided_left(remainder: i32, delta: i16, divisor: i32) -> i32 {
    (num::clamp_i32(remainder + delta) - divided(remainder, delta, divisor) * positive_divisor(divisor)) as i32
}

/// State of a half after the motion `(x, y)` was divided.
pub open spec fn after_division(s: QubePointingSideState, x: i16, y: i16, divisor: i32) -> QubePointingSideState {
    QubePointingSideState {
        remainder_x: divided_left(s.remainder_x, x, divisor),
        remainder_y: divided_left(s.remainder_y, y, divisor),
        ..s
    }
}

/// Divides the motion of a half, carrying the fraction over. The output is limited
/// to the range of `i8`; what exceeds it is dropped.
pub fn qube_divided_motion(state: &mut QubePointingSideState, x: i16, y: i16, divisor: i32) -> (out: (i16, i16))
    ensures
        out.0 == num::clamp_i8(divided(old(state).remainder_x, x, divisor)),
        out.1 == num::clamp_i8(divided(old(state).remainder_y, y, divisor)),
        *final(state) == after_division(*old(state), x, y, divisor),
{
    let divisor: i32 = if divisor < 1 {
        1
    } else {
        divisor
    };
    let total_x: i32 = num::sat_add_i32(state.remainder_x, x as i32);
    let total_y: i32 = num::sat_add_i32(state.remainder_y, y as i32);
    let out_x: i32 = total_x / divisor;
    let out_y: i32 = total_y / divisor;
    proof {
        num::lemma_trunc_div(total_x as int, divisor as int);
        num::lemma_trunc_div(total_y as int, divisor as int);
    }
    state.remainder_x = total_x - out_x * divisor;
    state.remainder_y = total_y - out_y * divisor;
    (num::narrow_i32_to_i8(out_x) as i16, num::narrow_i32_to_i8(out_y) as i16)
}

/// Whether text motion at `now` continues the motion that came before.
pub open spec fn text_continues(s: QubePointingSideState, now: u32) -> bool {
    s.text_last_motion_ms == 0 || num::wrapping_elapsed(now, s.text_last_motion_ms) <= QUBE_TEXT_AXIS_IDLE_MS
}

/// Accumulated motion of one axis after a text motion.
pub open spec fn text_total(remainder: i32, delta: i16, continues: bool) -> int {
    num::clamp_i32((if continues {
        remainder as int
    } else {
        0
    }) + delta)
}

/// Arrow key for the totals `tx` and `ty`, if one of them reaches the divisor.
/// Horizontal motion wins a tie.
pub open spec fn text_key(tx: int, ty: int, divisor: i32) -> Option<HidKeyCode> {
    if num::magnitude(tx) >= num::magnitude(ty) && num::magnitude(tx) >= divisor {
        Some(if tx > 0 {
            HidKeyCode::Right
        } else {
            HidKeyCode::Left
        })
    } else if num::magnitude(ty) >= divisor {
        Some(if ty > 0 {
            HidKeyCode::Down
        } else {
            HidKeyCode::Up
        })
    } else {
        None
    }
}

/// Key of a text motion and the state of the half after it. A key uses up the
/// accumulated motion of both axes.
pub open spec fn text_step(s: QubePointingSideState, x: i16, y: i16, divisor: i32, now: u32) -> (
    Option<HidKeyCode>,
    QubePointingSideState,
) {
    let continues = text_continues(s, now);
    let tx = text_total(s.remainder_x, x, continues);
    let ty = text_total(s.remainder_y, y, continues);
    let key = text_key(tx, ty, divisor);
    let left = QubePointingSideState {
        text_last_motion_ms: now,
        remainder_x: if key is Some {
            0
        } else {
            tx as i32
        },
        remainder_y: if key is Some {
            0
        } else {
            ty as i32
        },
        ..s
    };
    (key, left)
}

/// Turns text motion into the tap of an arrow key, once enough has accumulated.
pub fn qube_text_motion(state: &mut QubePointingSideState, x: i16, y: i16, divisor: i32, now: u32) -> (key: Option<
    HidKeyCode,
>)
    requires
        text_total(old(state).remainder_x, x, text_continues(*old(state), now)) > i32::MIN,
        text_total(old(state).remainder_y, y, text_continues(*old(state), now)) > i32::MIN,
    ensures
        (key, *final(state)) == text_step(*old(state), x, y, divisor, now),
{
    if state.text_last_motion_ms != 0 && num::elapsed_ms(now, state.text_last_motion_ms) > QUBE_TEXT_AXIS_IDLE_MS {
        state.reset_accum();
    }
    state.text_last_motion_ms = now;
    state.remainder_x = num::sat_add_i32(state.remainder_x, x as i32);
    state.remainder_y = num::sat_add_i32(state.remainder_y, y as i32);
    let size_x: i32 = num::abs_i32(state.remainder_x);
    let size_y: i32 = num::abs_i32(state.remainder_y);
    if size_x >= size_y && size_x >= divisor {
        let key = if state.remainder_x > 0 {
            HidKeyCode::Right
        } else {
            HidKeyCode::Left
        };
        state.reset_accum();
        Some(key)
    } else if size_y >= divisor {
        let key = if state.remainder_y > 0 {
            HidKeyCode::Down
        } else {
            HidKeyCode::Up
        };
        state.reset_accum();
        Some(key)
    } else {
        None
    }
}

/// Mouse report, or nothing where no button is held and nothing moves.
pub open spec fn mouse_or_nothing(buttons: u8, x: int, y: int, wheel: int, pan: int) -> PointerOutput {
    if buttons == 0 && x == 0 && y == 0 && wheel == 0 && pan == 0 {
        PointerOutput::Nothing
    } else {
        PointerOutput::Mouse(event::mouse_report_of(buttons, x, y, wheel, pan))
    }
}

/// Mouse report with the buttons of two sources, or nothing where no button is held
/// and nothing moves.
pub fn send_mouse_report(source_buttons: u8, buttons: u8, x: i16, y: i16, wheel: i16, pan: i16) -> (output:
    PointerOutput)
    ensures
        output == mouse_or_nothing(source_buttons | buttons, x as int, y as int, wheel as int, pan as int),
        buttons == 0 ==> output == mouse_or_nothing(source_buttons, x as int, y as int, wheel as int, pan as int),
{
    assert(source_buttons | 0u8 == source_buttons) by (bit_vector);
    let buttons: u8 = source_buttons | buttons;
    if buttons == 0 && x == 0 && y == 0 && wheel == 0 && pan == 0 {
        return PointerOutput::Nothing;
    }
    PointerOutput::Mouse(event::mouse_report(buttons, x, y, wheel, pan))
}

/// Quarter turns compose: two opposite turns and two half turns lead back, and two
/// quarter turns are a half turn. The lowest value of `i16` has no opposite and is
/// left out.
pub proof fn law_turns_compose(x: int, y: int)
    requires
        -32768 < x <= 32767,
        -32768 < y <= 32767,
    ensures
        ({
            let once = rotated(x, y, 1);
            let back = rotated(x, y, 3);
            let half = rotated(x, y, 2);
            &&& rotated(once.0, once.1, 3) == (x, y)
            &&& rotated(back.0, back.1, 1) == (x, y)
            &&& rotated(half.0, half.1, 2) == (x, y)
            &&& rotated(once.0, once.1, 1) == half
        }),
{
}

/// Division loses no motion: the quotient times the divisor and what is left equal
/// what was accumulated, and less than one unit is left.
pub proof fn law_division_conserves_motion(remainder: i32, delta: i16, divisor: i32)
    requires
        divisor >= 1,
        i32::MIN <= remainder + delta <= i32::MAX,
    ensures
        divided(remainder, delta, divisor) * divisor + divided_left(remainder, delta, divisor) == remainder + delta,
        num::magnitude(divided_left(remainder, delta, divisor) as int) < divisor,
{
    num::lemma_trunc_div(remainder + delta, divisor as int);
}

/// Text motion that fires no key is kept for the next motion while the sum stays within
/// the range of `i32`, and after a pause the motion of before the pause does not count.
pub proof fn law_text_motion_accumulates(s: QubePointingSideState, x: i16, y: i16, divisor: i32, now: u32)
    requires
        text_continues(s, now) ==> num::fits_i32(s.remainder_x + x) && num::fits_i32(s.remainder_y + y),
        text_step(s, x, y, divisor, now).0 is None,
    ensures
        text_continues(s, now) ==> text_step(s, x, y, divisor, now).1.remainder_x == s.remainder_x + x,
        text_continues(s, now) ==> text_step(s, x, y, divisor, now).1.remainder_y == s.remainder_y + y,
        !text_continues(s, now) ==> text_step(s, x, y, divisor, now).1.remainder_x == x,
        !text_continues(s, now) ==> text_step(s, x, y, divisor, now).1.remainder_y == y,
{
}

/// A divisor below one leaves motion undivided and nothing over.
pub proof fn law_small_divisors_divide_nothing(remainder: i32, delta: i16, divisor: i32)
    requires
        divisor <= 1,
        i32::MIN <= remainder + delta <= i32::MAX,
    ensures
        divided(remainder, delta, divisor) == remainder + delta,
        divided_left(remainder, delta, divisor) == 0,
{
}

} // verus!
