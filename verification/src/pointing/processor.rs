//! Processors that turn pointing events into HID reports.

use vstd::prelude::*;

use crate::event;
use crate::event::{Axis, HidKeyCode, MouseReport, PointingEvent};
use crate::num;
use crate::pointing::accumulator;
use crate::pointing::accumulator::MotionAccumulator;
use crate::pointing::caret;
use crate::pointing::config;
use crate::pointing::config::{
    CursorConfig, PointingMode, PointingProcessorConfig, ScrollConfig, SniperConfig, ALL_POINTING_DEVICES,
};

verus! {

/// Minimal pointing processor for dongles without a local keymap context.
#[derive(Clone, Copy, Debug)]
pub struct SimplePointingProcessor {
    pub config: PointingProcessorConfig,
}

/// Pointing processor that converts motion events to mouse reports or key taps.
#[derive(Clone, Copy, Debug)]
pub struct PointingProcessor {
    pub config: PointingProcessorConfig,
    /// Motion accumulator for scroll, sniper and caret modes
    pub accumulator: MotionAccumulator,
    /// current active mode
    pub current_mode: PointingMode,
}

/// A request to change the mode of the processor of one pointing device.
#[derive(Clone, Copy, Debug, PartialEq, Eq, Structural)]
pub struct PointingProcessorEvent {
    pub device_id: u8,
    pub mode: PointingMode,
}

/// What a pointing processor sends to the host.
#[derive(Clone, Copy, Debug, PartialEq, Eq, Structural)]
pub enum PointerOutput {
    Nothing,
    Mouse(MouseReport),
    /// Tap `keycode` `count` times.
    Taps { keycode: HidKeyCode, count: u8 },
}

/// Whether a processor handles the events of a device.
pub open spec fn handles_device(config: PointingProcessorConfig, device_id: u8) -> bool {
    config.device_id == ALL_POINTING_DEVICES || config.device_id == device_id
}

/// `v`, negated where `invert` holds.
pub open spec fn flip(v: int, invert: bool) -> int {
    if invert {
        -v
    } else {
        v
    }
}

/// Motion of an event on the logical axes: inverted first, then swapped.
pub open spec fn logical_motion(config: PointingProcessorConfig, event: PointingEvent) -> (int, int) {
    let x = flip(event::axis_value(event.axes@, Axis::X) as int, config.invert_x);
    let y = flip(event::axis_value(event.axes@, Axis::Y) as int, config.invert_y);
    if config.swap_xy {
        (y, x)
    } else {
        (x, y)
    }
}

/// Whether the motion of an event can be inverted as configured: the lowest value
/// of `i16` has no opposite.
pub open spec fn invertible(config: PointingProcessorConfig, event: PointingEvent) -> bool {
    let m = logical_motion(config, event);
    num::fits_i16(m.0) && num::fits_i16(m.1)
}

/// Motion of an event on the logical axes.
fn read_logical_motion(config: &PointingProcessorConfig, event: &PointingEvent) -> (motion: (i16, i16))
    requires
        invertible(*config, *event),
    ensures
        (motion.0 as int, motion.1 as int) == logical_motion(*config, *event),
{
    let mut x: i16 = event.axis(Axis::X);
    let mut y: i16 = event.axis(Axis::Y);
    if config.invert_x {
        x = -x;
    }
    if config.invert_y {
        y = -y;
    }
    if config.swap_xy {
        (y, x)
    } else {
        (x, y)
    }
}

/// Whether the motion of an event can be inverted as configured.
fn can_invert(config: &PointingProcessorConfig, event: &PointingEvent) -> (ok: bool)
    ensures
        ok == invertible(*config, *event),
{
    !(config.invert_x && event.axis(Axis::X) == -32768) && !(config.invert_y && event.axis(Axis::Y) == -32768)
}

/// Report of a processor without modes.
pub open spec fn simple_report(config: PointingProcessorConfig, event: PointingEvent) -> Option<MouseReport> {
    if handles_device(config, event.device_id) {
        let m = logical_motion(config, event);
        Some(
            event::mouse_report_of(
                0,
                m.0,
                m.1,
                event::axis_value(event.axes@, Axis::V) as int,
                event::axis_value(event.axes@, Axis::H) as int,
            ),
        )
    } else {
        None
    }
}

impl SimplePointingProcessor {
    pub fn new(config: PointingProcessorConfig) -> (processor: Self)
        ensures
            processor.config == config,
    {
        SimplePointingProcessor { config }
    }

    /// Whether this processor can handle `event`.
    pub open spec fn accepts(&self, event: PointingEvent) -> bool {
        handles_device(self.config, event.device_id) ==> invertible(self.config, event)
    }

    /// Whether [`on_pointing_event`](Self::on_pointing_event) can handle `event`.
    pub fn can_handle(&self, event: &PointingEvent) -> (ok: bool)
        ensures
            ok == self.accepts(*event),
    {
        (self.config.device_id != ALL_POINTING_DEVICES && event.device_id != self.config.device_id) || can_invert(
            &self.config,
            event,
        )
    }

    /// Mouse report of an event; `None` where the event is of another device.
    pub fn on_pointing_event(&self, event: &PointingEvent) -> (report: Option<MouseReport>)
        requires
            self.accepts(*event),
        ensures
            report == simple_report(self.config, *event),
    {
        if self.config.device_id != ALL_POINTING_DEVICES && event.device_id != self.config.device_id {
            return None;
        }
        let (x, y): (i16, i16) = read_logical_motion(&self.config, event);
        let wheel: i16 = event.axis(Axis::V);
        let pan: i16 = event.axis(Axis::H);
        Some(event::mouse_report(0, x, y, wheel, pan))
    }
}

/// Report of cursor mode.
pub open spec fn cursor_report(c: CursorConfig, buttons: u8, x: int, y: int) -> MouseReport {
    event::mouse_report_of(
        buttons,
        flip(num::clamp_i16(x * c.multiplier_x), c.invert_x),
        flip(num::clamp_i16(y * c.multiplier_y), c.invert_y),
        0,
        0,
    )
}

/// Report of scroll mode for the divided motion `(sx, sy)`: X becomes pan, and Y
/// becomes the wheel, where movement toward +Y scrolls with a negative wheel value
/// unless `invert_y` is set.
pub open spec fn scroll_report(c: ScrollConfig, buttons: u8, sx: int, sy: int) -> MouseReport {
    event::mouse_report_of(buttons, 0, 0, flip(sy, !c.invert_y), flip(sx, c.invert_x))
}

/// Report of sniper mode for the divided motion `(sx, sy)`.
pub open spec fn sniper_report(c: SniperConfig, buttons: u8, sx: int, sy: int) -> MouseReport {
    event::mouse_report_of(buttons, flip(sx, c.invert_x), flip(sy, c.invert_y), 0, 0)
}

/// Divided motion of scroll or sniper mode.
pub open spec fn divided_motion(
    acc: MotionAccumulator,
    x: i16,
    y: i16,
    ratio_x: (u8, u8),
    ratio_y: (u8, u8),
) -> (int, int) {
    (
        accumulator::axis_output(acc.remainder_x, x, ratio_x),
        accumulator::axis_output(acc.remainder_y, y, ratio_y),
    )
}

/// Accumulator after scroll or sniper mode divided a motion.
pub open spec fn divided_carry(
    acc: MotionAccumulator,
    x: i16,
    y: i16,
    ratio_x: (u8, u8),
    ratio_y: (u8, u8),
) -> MotionAccumulator {
    MotionAccumulator {
        remainder_x: accumulator::axis_carry(acc.remainder_x, x, ratio_x) as i16,
        remainder_y: accumulator::axis_carry(acc.remainder_y, y, ratio_y) as i16,
    }
}

/// Ratio of each axis in scroll mode.
pub open spec fn scroll_ratios(c: ScrollConfig) -> ((u8, u8), (u8, u8)) {
    ((c.multiplier_x, c.divisor_x), (c.multiplier_y, c.divisor_y))
}

/// Whether the divided motion `(sx, sy)` can be inverted as asked: it stays in the
/// range of `i16`, or nothing is sent.
pub open spec fn output_invertible(sx: int, sy: int, negate_x: bool, negate_y: bool) -> bool {
    (sx != 0 || sy != 0) ==> num::fits_i16(flip(sx, negate_x)) && num::fits_i16(flip(sy, negate_y))
}

/// Whether the motion `(x, y)` can be handled in `mode`: every intermediate value
/// is a value of `i16`.
pub open spec fn mode_accepts(mode: PointingMode, acc: MotionAccumulator, x: i16, y: i16) -> bool {
    match mode {
        PointingMode::Cursor(c) => {
            &&& num::fits_i16(flip(num::clamp_i16(x * c.multiplier_x), c.invert_x))
            &&& num::fits_i16(flip(num::clamp_i16(y * c.multiplier_y), c.invert_y))
        },
        PointingMode::Scroll(c) => {
            let (rx, ry) = scroll_ratios(c);
            let s = divided_motion(acc, x, y, rx, ry);
            &&& accumulator::scalable(x, rx)
            &&& accumulator::scalable(y, ry)
            &&& output_invertible(s.0, s.1, c.invert_x, !c.invert_y)
        },
        PointingMode::Sniper(c) => {
            let r = (c.multiplier, c.divisor);
            let s = divided_motion(acc, x, y, r, r);
            &&& accumulator::scalable(x, r)
            &&& accumulator::scalable(y, r)
            &&& output_invertible(s.0, s.1, c.invert_x, c.invert_y)
        },
        PointingMode::Caret(c) => caret::caret_accepts(x, y, acc, c),
    }
}

/// What `mode` makes of the motion `(x, y)`: the output and the accumulator after it.
/// In scroll and sniper mode a motion that stays below one unit sends nothing.
pub open spec fn mode_step(mode: PointingMode, acc: MotionAccumulator, buttons: u8, x: i16, y: i16) -> (
    PointerOutput,
    MotionAccumulator,
) {
    match mode {
        PointingMode::Cursor(c) => (PointerOutput::Mouse(cursor_report(c, buttons, x as int, y as int)), acc),
        PointingMode::Scroll(c) => {
            let (rx, ry) = scroll_ratios(c);
            let s = divided_motion(acc, x, y, rx, ry);
            let output = if s.0 == 0 && s.1 == 0 {
                PointerOutput::Nothing
            } else {
                PointerOutput::Mouse(scroll_report(c, buttons, s.0, s.1))
            };
            (output, divided_carry(acc, x, y, rx, ry))
        },
        PointingMode::Sniper(c) => {
            let r = (c.multiplier, c.divisor);
            let s = divided_motion(acc, x, y, r, r);
            let output = if s.0 == 0 && s.1 == 0 {
                PointerOutput::Nothing
            } else {
                PointerOutput::Mouse(sniper_report(c, buttons, s.0, s.1))
            };
            (output, divided_carry(acc, x, y, r, r))
        },
        PointingMode::Caret(c) => {
            let (taps, left) = caret::caret_step(x, y, acc, c);
            let output = match taps {
                Some((keycode, count)) => PointerOutput::Taps { keycode, count },
                None => PointerOutput::Nothing,
            };
            (output, left)
        },
    }
}

/// `v`, negated where `invert` holds.
fn flip_i16(v: i16, invert: bool) -> (r: i16)
    requires
        num::fits_i16(flip(v as int, invert)),
    ensures
        r == flip(v as int, invert),
{
    if invert {
        -v
    } else {
        v
    }
}

/// Whether a delta can be scaled by `ratio`.
fn can_scale(delta: i16, ratio: (u8, u8)) -> (ok: bool)
    ensures
        ok == accumulator::scalable(delta, ratio),
{
    proof {
        assert(-32768 * 255 <= delta * ratio.0 <= 32767 * 255) by (nonlinear_arith)
            requires
                -32768 <= delta <= 32767,
                0 <= ratio.0 <= 255,
        ;
    }
    let scaled: i32 = delta as i32 * ratio.0 as i32;
    ratio.1 == 0 || (-32768 <= scaled && scaled <= 32767)
}

/// Whether scroll or sniper mode can handle the motion `(x, y)`.
fn can_divide(
    acc: &MotionAccumulator,
    motion: (i16, i16),
    ratio_x: (u8, u8),
    ratio_y: (u8, u8),
    negate_x: bool,
    negate_y: bool,
) -> (ok: bool)
    ensures
        ok == ({
            let s = divided_motion(*acc, motion.0, motion.1, ratio_x, ratio_y);
            &&& accumulator::scalable(motion.0, ratio_x)
            &&& accumulator::scalable(motion.1, ratio_y)
            &&& output_invertible(s.0, s.1, negate_x, negate_y)
        }),
{
    if !can_scale(motion.0, ratio_x) || !can_scale(motion.1, ratio_y) {
        return false;
    }
    let mut trial: MotionAccumulator = *acc;
    let (sx, sy): (i16, i16) = trial.accumulate(motion.0, motion.1, ratio_x, ratio_y);
    !(negate_x && sx == -32768) && !(negate_y && sy == -32768)
}

/// What a processor makes of an event: the output and the accumulator after it.
pub open spec fn pointing_step(p: PointingProcessor, event: PointingEvent, buttons: u8) -> (
    PointerOutput,
    MotionAccumulator,
) {
    if handles_device(p.config, event.device_id) {
        let m = logical_motion(p.config, event);
        mode_step(p.current_mode, p.accumulator, buttons, m.0 as i16, m.1 as i16)
    } else {
        (PointerOutput::Nothing, p.accumulator)
    }
}

/// Mode and accumulator of a processor whose mode is set.
pub open spec fn mode_set(p: PointingProcessor, mode: PointingMode) -> (PointingMode, MotionAccumulator) {
    if p.current_mode == mode {
        (mode, p.accumulator)
    } else {
        (mode, MotionAccumulator { remainder_x: 0, remainder_y: 0 })
    }
}

/// Mode and accumulator of a processor after a request to change the mode.
pub open spec fn mode_requested(p: PointingProcessor, event: PointingProcessorEvent) -> (
    PointingMode,
    MotionAccumulator,
) {
    if handles_device(p.config, event.device_id) {
        mode_set(p, event.mode)
    } else {
        (p.current_mode, p.accumulator)
    }
}

impl PointingProcessor {
    /// Create a new pointing processor with default settings
    pub fn new(config: PointingProcessorConfig) -> (processor: Self)
        ensures
            processor.config == config,
            processor.accumulator.remainder_x == 0,
            processor.accumulator.remainder_y == 0,
            processor.current_mode == PointingMode::Cursor(config::plain_cursor()),
    {
        PointingProcessor {
            config,
            accumulator: MotionAccumulator::default(),
            current_mode: PointingMode::default(),
        }
    }

    /// Set the pointing mode. A change of mode drops the accumulated motion.
    pub fn set_pointing_mode(&mut self, mode: PointingMode) -> (this: &mut Self)
        ensures
            this.config == old(self).config,
            (this.current_mode, this.accumulator) == mode_set(*old(self), mode),
            *final(self) == *final(this),
    {
        if self.current_mode != mode {
            self.accumulator.reset();
            self.current_mode = mode;
        }
        self
    }

    /// Changes the mode where the request is for the device of this processor.
    pub fn on_pointing_processor_event(&mut self, event: PointingProcessorEvent)
        ensures
            final(self).config == old(self).config,
            (final(self).current_mode, final(self).accumulator) == mode_requested(*old(self), event),
    {
        if self.config.device_id == ALL_POINTING_DEVICES || self.config.device_id == event.device_id {
            self.set_pointing_mode(event.mode);
        }
    }

    /// Whether this processor can handle `event`.
    pub open spec fn accepts(&self, event: PointingEvent) -> bool {
        handles_device(self.config, event.device_id) ==> {
            let m = logical_motion(self.config, event);
            &&& invertible(self.config, event)
            &&& mode_accepts(self.current_mode, self.accumulator, m.0 as i16, m.1 as i16)
        }
    }

    /// Whether [`on_pointing_event`](Self::on_pointing_event) can handle `event`.
    pub fn can_handle(&self, event: &PointingEvent) -> (ok: bool)
        ensures
            ok == self.accepts(*event),
    {
        if self.config.device_id != ALL_POINTING_DEVICES && event.device_id != self.config.device_id {
            return true;
        }
        if !can_invert(&self.config, event) {
            return false;
        }
        let (x, y): (i16, i16) = read_logical_motion(&self.config, event);
        match self.current_mode {
            PointingMode::Cursor(c) => {
                let out_x: i16 = num::sat_mul_i16(x, c.multiplier_x as i16);
                let out_y: i16 = num::sat_mul_i16(y, c.multiplier_y as i16);
                !(c.invert_x && out_x == -32768) && !(c.invert_y && out_y == -32768)
            },
            PointingMode::Scroll(c) => can_divide(
                &self.accumulator,
                (x, y),
                (c.multiplier_x, c.divisor_x),
                (c.multiplier_y, c.divisor_y),
                c.invert_x,
                !c.invert_y,
            ),
            PointingMode::Sniper(c) => can_divide(
                &self.accumulator,
                (x, y),
                (c.multiplier, c.divisor),
                (c.multiplier, c.divisor),
                c.invert_x,
                c.invert_y,
            ),
            PointingMode::Caret(c) => caret::can_compute_caret_taps(x, y, &self.accumulator, &c),
        }
    }

    /// Handles a pointing event while the mouse buttons `buttons` are held.
    ///
    /// Inversion and swapping of the whole device come first; the inversion of a
    /// mode acts on the axes after the swap.
    pub fn on_pointing_event(&mut self, event: &PointingEvent, buttons: u8) -> (output: PointerOutput)
        requires
            old(self).accepts(*event),
        ensures
            final(self).config == old(self).config,
            final(self).current_mode == old(self).current_mode,
            (output, final(self).accumulator) == pointing_step(*old(self), *event, buttons),
    {
        if self.config.device_id != ALL_POINTING_DEVICES && event.device_id != self.config.device_id {
            return PointerOutput::Nothing;
        }
        let (x, y): (i16, i16) = read_logical_motion(&self.config, event);
        match self.current_mode {
            PointingMode::Cursor(c) => {
                let out_x: i16 = num::sat_mul_i16(x, c.multiplier_x as i16);
                let out_y: i16 = num::sat_mul_i16(y, c.multiplier_y as i16);
                PointerOutput::Mouse(
                    event::mouse_report(buttons, flip_i16(out_x, c.invert_x), flip_i16(out_y, c.invert_y), 0, 0),
                )
            },
            PointingMode::Scroll(c) => {
                let (sx, sy): (i16, i16) = self.accumulator.accumulate(
                    x,
                    y,
                    (c.multiplier_x, c.divisor_x),
                    (c.multiplier_y, c.divisor_y),
                );
                if sx == 0 && sy == 0 {
                    return PointerOutput::Nothing;
                }
                let wheel: i16 = flip_i16(sy, !c.invert_y);
                let pan: i16 = flip_i16(sx, c.invert_x);
                PointerOutput::Mouse(event::mouse_report(buttons, 0, 0, wheel, pan))
            },
            PointingMode::Sniper(c) => {
                let (sx, sy): (i16, i16) = self.accumulator.accumulate(
                    x,
                    y,
                    (c.multiplier, c.divisor),
                    (c.multiplier, c.divisor),
                );
                if sx == 0 && sy == 0 {
                    return PointerOutput::Nothing;
                }
                PointerOutput::Mouse(
                    event::mouse_report(buttons, flip_i16(sx, c.invert_x), flip_i16(sy, c.invert_y), 0, 0),
                )
            },
            PointingMode::Caret(c) => {
                match caret::compute_caret_taps(x, y, &mut self.accumulator, &c) {
                    Some((keycode, count)) => PointerOutput::Taps { keycode, count },
                    None => PointerOutput::Nothing,
                }
            },
        }
    }
}

/// A multiplier of zero disables its axis in cursor mode.
pub proof fn law_zero_multiplier_disables_cursor_axis(c: CursorConfig, buttons: u8, x: int, y: int)
    ensures
        c.multiplier_x == 0 ==> cursor_report(c, buttons, x, y).x == 0,
        c.multiplier_y == 0 ==> cursor_report(c, buttons, x, y).y == 0,
{
    assert(x * 0 == 0 && y * 0 == 0);
}

/// A divisor of zero disables its axis in scroll mode. So does a multiplier of zero: no
/// motion makes the axis leave zero once its accumulated fraction is below one unit, as
/// it is after every change of mode and every event of the mode.
pub proof fn law_zero_ratio_disables_scroll_axis(
    c: ScrollConfig,
    acc: MotionAccumulator,
    buttons: u8,
    x: i16,
    y: i16,
    output: MouseReport,
)
    requires
        mode_step(PointingMode::Scroll(c), acc, buttons, x, y).0 == PointerOutput::Mouse(output),
    ensures
        c.divisor_x == 0 ==> output.pan == 0,
        c.divisor_y == 0 ==> output.wheel == 0,
        c.multiplier_x == 0 && num::magnitude(acc.remainder_x as int) < c.divisor_x ==> output.pan == 0,
        c.multiplier_y == 0 && num::magnitude(acc.remainder_y as int) < c.divisor_y ==> output.wheel == 0,
{
    assert(x * 0 == 0 && y * 0 == 0);
    if num::magnitude(acc.remainder_x as int) < c.divisor_x {
        lemma_fraction_outputs_nothing(acc.remainder_x, c.divisor_x);
    }
    if num::magnitude(acc.remainder_y as int) < c.divisor_y {
        lemma_fraction_outputs_nothing(acc.remainder_y, c.divisor_y);
    }
}

proof fn lemma_fraction_outputs_nothing(remainder: i16, divisor: u8)
    requires
        num::magnitude(remainder as int) < divisor,
    ensures
        num::trunc_div(remainder as int, divisor as int) == 0,
{
    let a = num::magnitude(remainder as int);
    let d = divisor as int;
    assert(a / d == 0) by (nonlinear_arith)
        requires
            0 <= a < d,
    ;
}

/// The inversion of a mode acts after the swap: with swapped axes the wheel of
/// scroll mode follows the X axis of the device and the pan follows its Y axis.
pub proof fn law_mode_inversion_follows_swap(
    config: PointingProcessorConfig,
    event: PointingEvent,
    c: ScrollConfig,
    acc: MotionAccumulator,
)
    requires
        config.swap_xy,
        invertible(config, event),
    ensures
        ({
            let m = logical_motion(config, event);
            let (rx, ry) = scroll_ratios(c);
            let s = divided_motion(acc, m.0 as i16, m.1 as i16, rx, ry);
            &&& s.0 == accumulator::axis_output(
                acc.remainder_x,
                flip(event::axis_value(event.axes@, Axis::Y) as int, config.invert_y) as i16,
                rx,
            )
            &&& s.1 == accumulator::axis_output(
                acc.remainder_y,
                flip(event::axis_value(event.axes@, Axis::X) as int, config.invert_x) as i16,
                ry,
            )
        }),
{
}

} // verus!
