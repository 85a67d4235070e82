//! What pointing processors do with motion, stated on their inputs and results.

use vstd::prelude::*;

use crate::event;
use crate::event::{Axis, HidKeyCode, PointingEvent};
use crate::num;
use crate::pointing::accumulator::MotionAccumulator;
use crate::pointing::caret;
use crate::pointing::config::{CaretConfig, PointingMode, PointingProcessorConfig};
use crate::pointing::figures;
use crate::pointing::processor;
use crate::pointing::processor::{
    PointerOutput, PointingProcessor, PointingProcessorEvent, SimplePointingProcessor,
};

verus! {

/// Motion of an event along the axes of the device: each axis reversed where the
/// configuration says so, and the two then exchanged where it says so.
pub open spec fn device_motion(config: PointingProcessorConfig, event: PointingEvent) -> (int, int) {
    let x = event::axis_value(event.axes@, Axis::X) as int;
    let y = event::axis_value(event.axes@, Axis::Y) as int;
    let along_x = if config.invert_x {
        -x
    } else {
        x
    };
    let along_y = if config.invert_y {
        -y
    } else {
        y
    };
    if config.swap_xy {
        (along_y, along_x)
    } else {
        (along_x, along_y)
    }
}

/// Whether a processor of this configuration serves a device: the number 255 stands for
/// all of them.
pub open spec fn serves(config: PointingProcessorConfig, device_id: u8) -> bool {
    config.device_id == 255 || config.device_id == device_id
}

/// Whole part of a total divided by a divisor; nothing where the divisor is zero.
pub open spec fn scaled_down(total: int, divisor: u8) -> int {
    if divisor == 0 {
        0
    } else {
        figures::whole(total, divisor as int)
    }
}

/// What is carried on of a total that was divided by a divisor.
pub open spec fn rest_of(total: int, divisor: u8) -> int {
    if divisor == 0 {
        0
    } else {
        total - figures::whole(total, divisor as int) * divisor
    }
}

/// The opposite of `v` where `reversed` holds.
pub open spec fn opposite_if(v: int, reversed: bool) -> int {
    if reversed {
        -v
    } else {
        v
    }
}

/// A processor without modes reports the motion of its device and the event's scroll
/// values, each on its own axis, and no buttons; other devices are left alone.
pub proof fn law_simple_processors_pass_motion_on(config: PointingProcessorConfig, event: PointingEvent)
    ensures
        !serves(config, event.device_id) ==> processor::simple_report(config, event) is None,
        serves(config, event.device_id) ==> {
            let (x, y) = device_motion(config, event);
            &&& processor::simple_report(config, event) matches Some(report)
            &&& report.buttons == 0
            &&& report.x == figures::byte(x)
            &&& report.y == figures::byte(y)
            &&& report.wheel == figures::byte(event::axis_value(event.axes@, Axis::V) as int)
            &&& report.pan == figures::byte(event::axis_value(event.axes@, Axis::H) as int)
        },
{
}

/// The events of other devices send nothing and change nothing.
pub proof fn law_other_devices_are_left_alone(p: PointingProcessor, event: PointingEvent, buttons: u8)
    requires
        !serves(p.config, event.device_id),
    ensures
        processor::pointing_step(p, event, buttons) == (PointerOutput::Nothing, p.accumulator),
{
}

/// Cursor mode keeps the direction of each axis: the cursor moves by the motion times the
/// multiplier of the axis, reversed only where the mode reverses it, and nothing scrolls.
pub proof fn law_cursor_mode_keeps_directions(p: PointingProcessor, event: PointingEvent, buttons: u8)
    requires
        p.accepts(event),
        serves(p.config, event.device_id),
        p.current_mode is Cursor,
    ensures
        ({
            let c = p.current_mode->Cursor_0;
            let (x, y) = device_motion(p.config, event);
            let (output, after) = processor::pointing_step(p, event, buttons);
            &&& after == p.accumulator
            &&& output matches PointerOutput::Mouse(report)
            &&& report.buttons == buttons
            &&& report.wheel == 0 && report.pan == 0
            &&& report.x == figures::byte(opposite_if(x * c.multiplier_x, c.invert_x))
            &&& report.y == figures::byte(opposite_if(y * c.multiplier_y, c.invert_y))
            &&& c.multiplier_x > 0 && !c.invert_x ==> (report.x > 0 <==> x > 0) && (report.x < 0 <==> x < 0)
            &&& c.multiplier_x > 0 && c.invert_x ==> (report.x < 0 <==> x > 0) && (report.x > 0 <==> x < 0)
            &&& c.multiplier_y > 0 && !c.invert_y ==> (report.y > 0 <==> y > 0) && (report.y < 0 <==> y < 0)
            &&& c.multiplier_y > 0 && c.invert_y ==> (report.y < 0 <==> y > 0) && (report.y > 0 <==> y < 0)
            &&& c.multiplier_x == 1 && !c.invert_x && -128 <= x <= 127 ==> report.x == x
            &&& c.multiplier_y == 1 && !c.invert_y && -128 <= y <= 127 ==> report.y == y
        }),
{
    let c = p.current_mode->Cursor_0;
    let (x, y) = device_motion(p.config, event);
    lemma_product_has_sign(x, c.multiplier_x as int);
    lemma_product_has_sign(y, c.multiplier_y as int);
}

/// A product with a number that is not negative keeps the direction, and with one it is
/// the value itself.
proof fn lemma_product_has_sign(v: int, m: int)
    requires
        m >= 0,
    ensures
        m > 0 && v > 0 ==> v * m > 0,
        m > 0 && v < 0 ==> v * m < 0,
        v == 0 ==> v * m == 0,
        m == 1 ==> v * m == v,
{
    assert(m > 0 && v > 0 ==> v * m > 0) by (nonlinear_arith);
    assert(m > 0 && v < 0 ==> v * m < 0) by (nonlinear_arith);
    assert(v == 0 ==> v * m == 0) by (nonlinear_arith);
}

/// In scroll mode X pans and Y turns the wheel against the motion, unless the mode
/// reverses an axis: by the whole part of the scaled total of the axis, while the rest is
/// carried on. Nothing is sent while no whole step is due, and the cursor stays.
pub proof fn law_scroll_mode_pans_and_turns_the_wheel(p: PointingProcessor, event: PointingEvent, buttons: u8)
    requires
        p.accepts(event),
        serves(p.config, event.device_id),
        p.current_mode is Scroll,
    ensures
        ({
            let c = p.current_mode->Scroll_0;
            let (x, y) = device_motion(p.config, event);
            let tx = figures::word(p.accumulator.remainder_x + x * c.multiplier_x);
            let ty = figures::word(p.accumulator.remainder_y + y * c.multiplier_y);
            let sx = scaled_down(tx, c.divisor_x);
            let sy = scaled_down(ty, c.divisor_y);
            let (output, after) = processor::pointing_step(p, event, buttons);
            &&& after.remainder_x == rest_of(tx, c.divisor_x)
            &&& after.remainder_y == rest_of(ty, c.divisor_y)
            &&& sx == 0 && sy == 0 ==> output == PointerOutput::Nothing
            &&& sx != 0 || sy != 0 ==> {
                &&& output matches PointerOutput::Mouse(report)
                &&& report.buttons == buttons
                &&& report.x == 0 && report.y == 0
                &&& report.pan == figures::byte(opposite_if(sx, c.invert_x))
                &&& report.wheel == figures::byte(opposite_if(sy, !c.invert_y))
            }
        }),
{
    let c = p.current_mode->Scroll_0;
    let (x, y) = device_motion(p.config, event);
    let tx = figures::word(p.accumulator.remainder_x + x * c.multiplier_x);
    let ty = figures::word(p.accumulator.remainder_y + y * c.multiplier_y);
    if c.divisor_x != 0 {
        num::lemma_trunc_div(tx, c.divisor_x as int);
    }
    if c.divisor_y != 0 {
        num::lemma_trunc_div(ty, c.divisor_y as int);
    }
}

/// In sniper mode the cursor moves by the whole part of the scaled total of each axis, in
/// its direction unless the mode reverses it, while the rest is carried on. Nothing is
/// sent while no whole step is due, and nothing scrolls.
pub proof fn law_sniper_mode_scales_motion_down(p: PointingProcessor, event: PointingEvent, buttons: u8)
    requires
        p.accepts(event),
        serves(p.config, event.device_id),
        p.current_mode is Sniper,
    ensures
        ({
            let c = p.current_mode->Sniper_0;
            let (x, y) = device_motion(p.config, event);
            let tx = figures::word(p.accumulator.remainder_x + x * c.multiplier);
            let ty = figures::word(p.accumulator.remainder_y + y * c.multiplier);
            let sx = scaled_down(tx, c.divisor);
            let sy = scaled_down(ty, c.divisor);
            let (output, after) = processor::pointing_step(p, event, buttons);
            &&& after.remainder_x == rest_of(tx, c.divisor)
            &&& after.remainder_y == rest_of(ty, c.divisor)
            &&& sx == 0 && sy == 0 ==> output == PointerOutput::Nothing
            &&& sx != 0 || sy != 0 ==> {
                &&& output matches PointerOutput::Mouse(report)
                &&& report.buttons == buttons
                &&& report.wheel == 0 && report.pan == 0
                &&& report.x == figures::byte(opposite_if(sx, c.invert_x))
                &&& report.y == figures::byte(opposite_if(sy, c.invert_y))
            }
        }),
{
    let c = p.current_mode->Sniper_0;
    let (x, y) = device_motion(p.config, event);
    let tx = figures::word(p.accumulator.remainder_x + x * c.multiplier);
    let ty = figures::word(p.accumulator.remainder_y + y * c.multiplier);
    if c.divisor != 0 {
        num::lemma_trunc_div(tx, c.divisor as int);
        num::lemma_trunc_div(ty, c.divisor as int);
    }
}

/// Key for motion toward a direction, exchanged for the opposite one where the axis is
/// reversed.
pub open spec fn key_toward(forward: bool, reversed: bool, key: HidKeyCode, opposite: HidKeyCode) -> HidKeyCode {
    if forward && !reversed || !forward && reversed {
        key
    } else {
        opposite
    }
}

/// Whether `taps` of a key were due for a total, of which each tap used up one threshold
/// against its direction until no more than one was left, or 255 taps were due.
pub open spec fn spends(total: int, threshold: int, taps: int, left: int) -> bool {
    let size = if total < 0 {
        -total
    } else {
        total
    };
    &&& 1 <= taps <= 255
    &&& total > 0 ==> left == total - taps * threshold
    &&& total < 0 ==> left == total + taps * threshold
    &&& taps > 1 ==> size - (taps - 1) * threshold > threshold
    &&& taps < 255 ==> -threshold <= left <= threshold
}

/// The taps of a total spend it.
proof fn lemma_taps_spend(total: int, other: int, threshold: i16)
    requires
        threshold > 0,
        num::magnitude(other) <= num::magnitude(total) <= 32767,
        caret::caret_fires(total, other, threshold),
    ensures
        spends(
            total,
            threshold as int,
            caret::caret_tap_count(total, threshold),
            caret::caret_spent(total, caret::caret_tap_count(total, threshold), threshold),
        ),
{
    caret::law_taps_spend_the_dominant_total(total, other, threshold);
    let a = num::magnitude(total);
    let t = threshold as int;
    let count = caret::caret_tap_count(total, threshold);
    let taps = (a - 1) / t;
    if count > 1 {
        assert(taps * t <= a - 1) by (nonlinear_arith)
            requires
                taps == (a - 1) / t,
                t > 0,
        ;
        assert((count - 1) * t + t == count * t) by (nonlinear_arith);
        assert(count * t <= taps * t) by (nonlinear_arith)
            requires
                count <= taps,
                t > 0,
        ;
    }
}

/// Caret mode adds motion up, without the axes that are disabled, and taps a key once
/// both totals together exceed the threshold: the key of the direction in which the
/// larger total points, X where they are the same, exchanged where the axis is reversed.
/// Each tap uses up one threshold of that total, until no more than one is left or 255
/// taps are due, and the other total is dropped. Below the threshold the totals are kept.
pub proof fn law_caret_motion_taps_keys(mx: i16, my: i16, acc: MotionAccumulator, c: CaretConfig)
    requires
        caret::caret_accepts(mx, my, acc, c),
    ensures
        ({
            let x = if c.disable_x {
                0
            } else {
                figures::word(acc.remainder_x + mx)
            };
            let y = if c.disable_y {
                0
            } else {
                figures::word(acc.remainder_y + my)
            };
            let wide = if x < 0 {
                -x
            } else {
                x
            };
            let high = if y < 0 {
                -y
            } else {
                y
            };
            let t = c.threshold as int;
            let (taps, after) = caret::caret_step(mx, my, acc, c);
            &&& taps is None <==> wide + high <= t
            &&& taps is None ==> after.remainder_x == x && after.remainder_y == y
            &&& taps is Some && wide >= high ==> {
                &&& taps.unwrap().0 == key_toward(x > 0, c.invert_x, c.keycode_right, c.keycode_left)
                &&& after.remainder_y == 0
                &&& t > 0 ==> spends(x, t, taps.unwrap().1 as int, after.remainder_x as int)
            }
            &&& taps is Some && high > wide ==> {
                &&& taps.unwrap().0 == key_toward(y > 0, c.invert_y, c.keycode_down, c.keycode_up)
                &&& after.remainder_x == 0
                &&& t > 0 ==> spends(y, t, taps.unwrap().1 as int, after.remainder_y as int)
            }
            &&& taps is Some && t <= 0 ==> taps.unwrap().1 == 255
            &&& taps is Some && t <= 0 && wide >= high ==> after.remainder_x == (if c.disable_x {
                0
            } else if x > 0 {
                figures::word(x - 255 * t)
            } else {
                figures::word(x + 255 * t)
            })
            &&& taps is Some && t <= 0 && high > wide ==> after.remainder_y == (if y > 0 {
                figures::word(y - 255 * t)
            } else {
                figures::word(y + 255 * t)
            })
        }),
{
    let x = caret::caret_total(acc.remainder_x, mx, c.disable_x);
    let y = caret::caret_total(acc.remainder_y, my, c.disable_y);
    if c.threshold > 0 && caret::caret_fires(x, y, c.threshold) {
        if caret::caret_x_dominates(x, y) {
            lemma_taps_spend(x, y, c.threshold);
        } else {
            lemma_taps_spend(y, x, c.threshold);
        }
    }
}

/// Caret mode sends the taps of the device's motion and nothing else.
pub proof fn law_caret_mode_taps_keys(p: PointingProcessor, event: PointingEvent, buttons: u8)
    requires
        p.accepts(event),
        serves(p.config, event.device_id),
        p.current_mode is Caret,
    ensures
        ({
            let c = p.current_mode->Caret_0;
            let (x, y) = device_motion(p.config, event);
            let (taps, left) = caret::caret_step(x as i16, y as i16, p.accumulator, c);
            let (output, after) = processor::pointing_step(p, event, buttons);
            &&& x as i16 == x && y as i16 == y
            &&& after == left
            &&& taps is None ==> output == PointerOutput::Nothing
            &&& taps matches Some((keycode, count)) ==> output == (PointerOutput::Taps { keycode, count })
        }),
{
}

/// A request for another mode changes the mode of the processors that serve the device,
/// and the motion that was collected is dropped; a request for the mode that is in force,
/// or for another device, changes nothing.
pub proof fn law_mode_requests_change_modes(p: PointingProcessor, event: PointingProcessorEvent)
    ensures
        ({
            let (mode, acc) = processor::mode_requested(p, event);
            &&& serves(p.config, event.device_id) ==> mode == event.mode
            &&& mode != p.current_mode ==> acc.remainder_x == 0 && acc.remainder_y == 0
            &&& mode == p.current_mode ==> acc == p.accumulator
            &&& !serves(p.config, event.device_id) ==> mode == p.current_mode
        }),
        ({
            let (mode, acc) = processor::mode_set(p, event.mode);
            &&& mode == event.mode
            &&& mode != p.current_mode ==> acc.remainder_x == 0 && acc.remainder_y == 0
            &&& mode == p.current_mode ==> acc == p.accumulator
        }),
{
}

/// A processor handles every event whose values a 16-bit number can hold on their way:
/// reversed, scaled and added to what is carried. In caret mode, with a threshold that is
/// not negative, both totals together have to fit too. Events of other devices are
/// always handled.
pub proof fn law_ordinary_motion_is_handled(p: PointingProcessor, event: PointingEvent)
    ensures
        !serves(p.config, event.device_id) ==> p.accepts(event),
        ({
            let (x, y) = device_motion(p.config, event);
            let fits = |v: int| -32767 <= v <= 32767;
            &&& fits(x) && fits(y) ==> match p.current_mode {
                PointingMode::Cursor(c) => fits(x * c.multiplier_x) && fits(y * c.multiplier_y) ==> p.accepts(event),
                PointingMode::Scroll(c) => fits(x * c.multiplier_x) && fits(y * c.multiplier_y) && fits(
                    p.accumulator.remainder_x + x * c.multiplier_x,
                ) && fits(p.accumulator.remainder_y + y * c.multiplier_y) ==> p.accepts(event),
                PointingMode::Sniper(c) => fits(x * c.multiplier) && fits(y * c.multiplier) && fits(
                    p.accumulator.remainder_x + x * c.multiplier,
                ) && fits(p.accumulator.remainder_y + y * c.multiplier) ==> p.accepts(event),
                PointingMode::Caret(c) => {
                    let wide = num::magnitude(p.accumulator.remainder_x + x);
                    let high = num::magnitude(p.accumulator.remainder_y + y);
                    wide + high <= 32767 && c.threshold >= 0 ==> p.accepts(event)
                },
            }
            &&& !p.config.invert_x && !p.config.invert_y && p.current_mode is Cursor && !p.current_mode->Cursor_0.invert_x
                && !p.current_mode->Cursor_0.invert_y ==> p.accepts(event)
        }),
{
    let (x, y) = device_motion(p.config, event);
    match p.current_mode {
        PointingMode::Scroll(c) => {
            if c.divisor_x != 0 {
                num::lemma_trunc_div(figures::word(p.accumulator.remainder_x + x * c.multiplier_x), c.divisor_x as int);
            }
            if c.divisor_y != 0 {
                num::lemma_trunc_div(figures::word(p.accumulator.remainder_y + y * c.multiplier_y), c.divisor_y as int);
            }
        },
        PointingMode::Sniper(c) => {
            if c.divisor != 0 {
                num::lemma_trunc_div(figures::word(p.accumulator.remainder_x + x * c.multiplier), c.divisor as int);
                num::lemma_trunc_div(figures::word(p.accumulator.remainder_y + y * c.multiplier), c.divisor as int);
            }
        },
        _ => {},
    }
}

/// A processor without modes handles every event of which no value that it reverses is
/// the lowest one of 16 bits.
pub proof fn law_simple_processors_handle_motion(p: SimplePointingProcessor, event: PointingEvent)
    ensures
        p.accepts(event) <==> {
            ||| !serves(p.config, event.device_id)
            ||| {
                &&& p.config.invert_x ==> event::axis_value(event.axes@, Axis::X) != -32768
                &&& p.config.invert_y ==> event::axis_value(event.axes@, Axis::Y) != -32768
            }
        },
{
}

} // verus!
