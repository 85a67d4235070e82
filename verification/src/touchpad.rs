//! Capacitive touchpad: decoding of its event block, pacing of polls and probes, and
//! the events that it publishes.
//!
//! Times are microseconds since boot; zero is the earliest time.

use vstd::prelude::*;

use crate::event::{Axis, AxisEvent, AxisValType, PointingEvent};
use crate::num;

verus! {

/// Bus address of the chip.
pub const IQS5XX_ADDR: u8 = 0x74;

pub const REG_PRODUCT_NUMBER: u16 = 0x0000;

pub const REG_PREVIOUS_CYCLE_TIME: u16 = 0x000c;

pub const REG_BOTTOM_BETA: u16 = 0x0637;

pub const REG_FILTER_SETTINGS: u16 = 0x0632;

pub const REG_STATIONARY_THRESH: u16 = 0x0672;

pub const REG_SYSTEM_CONTROL_0: u16 = 0x0431;

pub const REG_SYSTEM_CONTROL_1: u16 = 0x0432;

pub const REG_REPORT_RATE_ACTIVE: u16 = 0x057a;

pub const REG_REPORT_RATE_IDLE_TOUCH: u16 = 0x057c;

pub const REG_REPORT_RATE_IDLE: u16 = 0x057e;

pub const REG_REPORT_RATE_LP1: u16 = 0x0580;

pub const REG_REPORT_RATE_LP2: u16 = 0x0582;

pub const REG_ACTIVE_MODE_TIMEOUT: u16 = 0x0584;

pub const REG_IDLE_TOUCH_MODE_TIMEOUT: u16 = 0x0585;

pub const REG_IDLE_MODE_TIMEOUT: u16 = 0x0586;

pub const REG_LP1_MODE_TIMEOUT: u16 = 0x0587;

pub const REG_SYSTEM_CONFIG_0: u16 = 0x058e;

pub const REG_SYSTEM_CONFIG_1: u16 = 0x058f;

pub const REG_XY_CONFIG_0: u16 = 0x0669;

pub const REG_SINGLE_FINGER_GESTURES: u16 = 0x06b7;

pub const REG_MULTI_FINGER_GESTURES: u16 = 0x06b8;

pub const REG_HOLD_TIME: u16 = 0x06bd;

pub const REG_SCROLL_INITIAL_DISTANCE: u16 = 0x06c8;

pub const REG_END_COMMS: u16 = 0xeeee;

pub const REPORT_RATE_ACTIVE_MS: u16 = 8;

pub const REPORT_RATE_IDLE_TOUCH_MS: u16 = 8;

pub const REPORT_RATE_IDLE_MS: u16 = 40;

pub const REPORT_RATE_LP1_MS: u16 = 160;

/// The deepest mode keeps the cycle time of the one above it: the extra current is far
/// below the radio's share, while a longer cycle delays the first touch.
pub const REPORT_RATE_LP2_MS: u16 = 160;

pub const ACTIVE_MODE_TIMEOUT_SECS: u8 = 1;

pub const IDLE_TOUCH_MODE_TIMEOUT_SECS: u8 = 255;

pub const IDLE_MODE_TIMEOUT_SECS: u8 = 5;

pub const LP1_MODE_TIMEOUT_20_SECS: u8 = 1;

/// Idle time up to which the pad is polled at the active rate.
pub const TOUCH_ACTIVE_POLL_WINDOW: u64 = 1_000_000;

pub const TOUCH_IDLE_POLL_WINDOW: u64 = 6_000_000;

pub const TOUCH_LP1_POLL_WINDOW: u64 = 26_000_000;

/// Length of the event block.
pub const TOUCH_EVENT_BLOCK_LEN: usize = 10;

/// Time between probes for a pad that was lost a short while ago.
pub const TOUCH_FAST_PROBE_INTERVAL: u64 = 500_000;

/// Time between probes for a pad that is gone for longer.
pub const TOUCH_SLOW_PROBE_INTERVAL: u64 = 2_000_000;

pub const TOUCH_FAST_PROBE_WINDOW: u64 = 10_000_000;

/// Failed reads in a row after which the pad is initialised anew.
pub const TOUCH_READ_FAILURE_REINIT_THRESHOLD: u8 = 4;

/// Two-finger samples in a row after which a scroll is believed. The contact patch of
/// a finger that rests for long can read as a second finger for a moment.
pub const TOUCH_SCROLL_CONFIRM_SAMPLES: u8 = 3;

/// Most motion per axis that is kept for later reports.
pub const TOUCH_MOTION_ACCUM_LIMIT: i32 = 254;

/// Least time between two reports of motion.
pub const TOUCH_REPORT_INTERVAL: u64 = 8_000;

pub const SCROLL_DIVISOR: i16 = 8;

/// Pause before a pad that stopped answering is probed again.
pub const TOUCH_REINIT_PAUSE_MS: u64 = 50;

/// Pause after the pad was woken during initialisation.
pub const TOUCH_WAKE_PAUSE_MS: u64 = 100;

/// Pause before a transfer that was not acknowledged is repeated, in microseconds.
pub const TOUCH_READ_RETRY_PAUSE: u64 = 200;

pub const BUTTON_LEFT: u8 = 0x01;

pub const BUTTON_RIGHT: u8 = 0x02;

pub const GESTURE_0_SINGLE_TAP: u8 = 0x01;

pub const GESTURE_0_PRESS_AND_HOLD: u8 = 0x02;

pub const GESTURE_1_TWO_FINGER_TAP: u8 = 0x01;

pub const GESTURE_1_SCROLL: u8 = 0x02;

pub const SYSTEM_INFO_0_SHOW_RESET: u8 = 0x80;

pub const SYSTEM_INFO_0_CHARGING_MODE: u8 = 0x07;

pub const CHARGING_MODE_ACTIVE: u8 = 0x00;

pub const CHARGING_MODE_IDLE_TOUCH: u8 = 0x01;

/// The chip's calibration failed.
pub const SYSTEM_INFO_0_ATI_ERROR: u8 = 0x08;

/// The chip calibrated itself in this cycle.
pub const SYSTEM_INFO_0_REATI_OCCURRED: u8 = 0x10;

pub const SYSTEM_INFO_1_TP_MOVEMENT: u8 = 0x01;

pub const SYSTEM_CONTROL_0_ACK_RESET: u8 = 0x80;

pub const SYSTEM_CONTROL_1_WAKE: u8 = 0;

/// Filters: IIR, moving average and count.
pub const FILTERS: u8 = 0x0b;

/// What a read of the event block told.
#[derive(Clone, Copy, Debug, PartialEq, Eq, Structural)]
pub enum TouchReadResult {
    Motion { x: i16, y: i16 },
    Gesture { buttons: u8 },
    Scroll { h: i16, v: i16 },
    /// No movement; `touching` tells of a finger that rests on the pad.
    Idle { touching: bool },
    ReadFailed,
}

/// What has to be sent to the pad before the event block is decoded.
#[derive(Clone, Copy, Debug, PartialEq, Eq, Structural)]
pub enum BlockAction {
    /// The pad was reset: acknowledge it and end the session.
    AcknowledgeReset,
    EndSession,
}

/// A write to one register.
#[derive(Clone, Copy, Debug, PartialEq, Eq, Structural)]
pub enum RegisterWrite {
    Byte { reg: u16, val: u8 },
    Word { reg: u16, val: u16 },
}

/// An event that never comes: the touchpad listens to nothing.
#[derive(Clone, Copy, Debug, PartialEq, Eq, Structural)]
pub struct NeverEvent;

/// What a poll publishes, in this order, and the pause before the next one.
#[derive(Clone, Copy, Debug)]
pub struct TouchOutput {
    /// Gesture or scroll.
    pub pulse: Option<PointingEvent>,
    pub motion: Option<PointingEvent>,
    pub pause_ms: u64,
}

/// State of a touchpad.
#[derive(Clone, Copy, Debug, PartialEq, Eq, Structural)]
pub struct Touchpad {
    pub device_id: u8,
    pub side: u8,
    pub ready: bool,
    pub read_failures: u8,
    pub multi_finger_samples: u8,
    pub acc_x: i32,
    pub acc_y: i32,
    pub last_report: u64,
    pub last_activity: u64,
    pub next_probe: u64,
    pub next_poll: u64,
    pub poll_interval: u64,
    pub unavailable_since: Option<u64>,
}

/// Side of the keyboard that a device belongs to.
pub open spec fn side_of(device_id: u8) -> int {
    if device_id == 0 || device_id == 2 {
        0
    } else {
        1
    }
}

/// Side of the keyboard that a device belongs to.
pub fn side_for_device_id(device_id: u8) -> (side: u8)
    ensures
        side == side_of(device_id),
{
    match device_id {
        2 => 0,
        3 => 1,
        _ => if device_id < 1 {
            device_id
        } else {
            1
        },
    }
}

/// A movement on one axis.
pub fn relative_axis(axis: Axis, value: i16) -> (event: AxisEvent)
    ensures
        event == rel(axis, value as int),
{
    AxisEvent { typ: AxisValType::Rel, axis, value }
}

/// A movement on one axis.
pub open spec fn rel(axis: Axis, value: int) -> AxisEvent {
    AxisEvent { typ: AxisValType::Rel, axis, value: value as i16 }
}

/// Scroll of one sample: one direction only, horizontal motion first, and in whole steps.
pub open spec fn scroll_of(x: i16, y: i16) -> Option<(int, int)> {
    let h = num::trunc_div(x as int, SCROLL_DIVISOR as int);
    let v = num::trunc_div(y as int, SCROLL_DIVISOR as int);
    if x != 0 {
        if h != 0 {
            Some((h, 0))
        } else {
            None
        }
    } else if v != 0 {
        Some((0, v))
    } else {
        None
    }
}

/// Scroll of one sample: one direction only, horizontal motion first, and in whole steps.
pub fn scroll_delta(x: i16, y: i16) -> (scroll: Option<(i16, i16)>)
    ensures
        scroll is Some == scroll_of(x, y) is Some,
        scroll matches Some((h, v)) ==> scroll_of(x, y) == Some((h as int, v as int)),
{
    if x != 0 {
        let h: i16 = x / SCROLL_DIVISOR;
        if h != 0 {
            Some((h, 0))
        } else {
            None
        }
    } else {
        let v: i16 = y / SCROLL_DIVISOR;
        if v != 0 {
            Some((0, v))
        } else {
            None
        }
    }
}

/// Time between polls of a pad that was idle for so long.
pub open spec fn poll_interval_after(idle_for: int) -> u64 {
    if idle_for < TOUCH_ACTIVE_POLL_WINDOW {
        8_000
    } else if idle_for < TOUCH_IDLE_POLL_WINDOW {
        40_000
    } else {
        160_000
    }
}

/// Time between polls of a pad that was idle for so long.
pub fn touch_poll_interval(idle_for: u64) -> (interval: u64)
    ensures
        interval == poll_interval_after(idle_for as int),
{
    let interval_ms: u16 = if idle_for < TOUCH_ACTIVE_POLL_WINDOW {
        REPORT_RATE_ACTIVE_MS
    } else if idle_for < TOUCH_IDLE_POLL_WINDOW {
        REPORT_RATE_IDLE_MS
    } else if idle_for < TOUCH_LP1_POLL_WINDOW {
        REPORT_RATE_LP1_MS
    } else {
        REPORT_RATE_LP2_MS
    };
    interval_ms as u64 * 1_000
}

/// Motion limited to what is kept for later reports.
pub fn clamp_motion_accum(value: i32) -> (clamped: i32)
    ensures
        clamped == num::clamp(value as int, -TOUCH_MOTION_ACCUM_LIMIT as int, TOUCH_MOTION_ACCUM_LIMIT as int),
{
    if value < -TOUCH_MOTION_ACCUM_LIMIT {
        -TOUCH_MOTION_ACCUM_LIMIT
    } else if value > TOUCH_MOTION_ACCUM_LIMIT {
        TOUCH_MOTION_ACCUM_LIMIT
    } else {
        value
    }
}

/// Bytes of a 16-bit number, most significant first.
pub open spec fn be16(v: u16) -> Seq<u8> {
    seq![(v / 256) as u8, (v % 256) as u8]
}

/// Signed number of two bytes, most significant first.
pub open spec fn be_i16(high: u8, low: u8) -> int {
    let v = high * 256 + low;
    if v >= 0x8000 {
        v - 0x1_0000
    } else {
        v
    }
}

/// Bytes that write a register.
pub open spec fn frame_of(write: RegisterWrite) -> Seq<u8> {
    match write {
        RegisterWrite::Byte { reg, val } => be16(reg) + seq![val],
        RegisterWrite::Word { reg, val } => be16(reg) + be16(val),
    }
}

impl RegisterWrite {
    /// Bytes that write the register.
    pub fn frame(&self) -> (bytes: Vec<u8>)
        ensures
            bytes@ == frame_of(*self),
    {
        let mut bytes: Vec<u8> = Vec::new();
        match self {
            RegisterWrite::Byte { reg, val } => {
                bytes.push((*reg / 256) as u8);
                bytes.push((*reg % 256) as u8);
                bytes.push(*val);
            },
            RegisterWrite::Word { reg, val } => {
                bytes.push((*reg / 256) as u8);
                bytes.push((*reg % 256) as u8);
                bytes.push((*val / 256) as u8);
                bytes.push((*val % 256) as u8);
            },
        }
        assert(bytes@ =~= frame_of(*self));
        bytes
    }
}

/// The write that ends a session.
pub fn end_session() -> (write: RegisterWrite)
    ensures
        write == (RegisterWrite::Byte { reg: REG_END_COMMS, val: 0 }),
{
    RegisterWrite::Byte { reg: REG_END_COMMS, val: 0 }
}

/// The write that wakes the pad.
pub fn wake() -> (write: RegisterWrite)
    ensures
        write == (RegisterWrite::Byte { reg: REG_SYSTEM_CONTROL_1, val: SYSTEM_CONTROL_1_WAKE }),
{
    RegisterWrite::Byte { reg: REG_SYSTEM_CONTROL_1, val: SYSTEM_CONTROL_1_WAKE }
}

/// The write that acknowledges a reset of the pad.
pub fn acknowledge_reset() -> (write: RegisterWrite)
    ensures
        write == (RegisterWrite::Byte { reg: REG_SYSTEM_CONTROL_0, val: SYSTEM_CONTROL_0_ACK_RESET }),
{
    RegisterWrite::Byte { reg: REG_SYSTEM_CONTROL_0, val: SYSTEM_CONTROL_0_ACK_RESET }
}

/// Settings of the pad, in the order in which they are written. The end of the session
/// comes last.
pub open spec fn settings() -> Seq<RegisterWrite> {
    seq![
        RegisterWrite::Word { reg: REG_REPORT_RATE_ACTIVE, val: REPORT_RATE_ACTIVE_MS },
        RegisterWrite::Word { reg: REG_REPORT_RATE_IDLE_TOUCH, val: REPORT_RATE_IDLE_TOUCH_MS },
        RegisterWrite::Word { reg: REG_REPORT_RATE_IDLE, val: REPORT_RATE_IDLE_MS },
        RegisterWrite::Word { reg: REG_REPORT_RATE_LP1, val: REPORT_RATE_LP1_MS },
        RegisterWrite::Word { reg: REG_REPORT_RATE_LP2, val: REPORT_RATE_LP2_MS },
        RegisterWrite::Byte { reg: REG_ACTIVE_MODE_TIMEOUT, val: ACTIVE_MODE_TIMEOUT_SECS },
        RegisterWrite::Byte { reg: REG_IDLE_TOUCH_MODE_TIMEOUT, val: IDLE_TOUCH_MODE_TIMEOUT_SECS },
        RegisterWrite::Byte { reg: REG_IDLE_MODE_TIMEOUT, val: IDLE_MODE_TIMEOUT_SECS },
        RegisterWrite::Byte { reg: REG_LP1_MODE_TIMEOUT, val: LP1_MODE_TIMEOUT_20_SECS },
        RegisterWrite::Byte { reg: REG_SYSTEM_CONFIG_1, val: 0x46 },
        RegisterWrite::Byte { reg: REG_BOTTOM_BETA, val: 5 },
        RegisterWrite::Byte { reg: REG_STATIONARY_THRESH, val: 5 },
        RegisterWrite::Byte { reg: REG_FILTER_SETTINGS, val: FILTERS },
        RegisterWrite::Byte { reg: REG_XY_CONFIG_0, val: 0x05 },
        RegisterWrite::Byte { reg: REG_SINGLE_FINGER_GESTURES, val: 0x03 },
        RegisterWrite::Byte { reg: REG_MULTI_FINGER_GESTURES, val: 0x03 },
        RegisterWrite::Word { reg: REG_HOLD_TIME, val: 0x012c },
        RegisterWrite::Word { reg: REG_SCROLL_INITIAL_DISTANCE, val: 0x0001 },
        RegisterWrite::Byte { reg: REG_SYSTEM_CONFIG_0, val: 0x60 },
        RegisterWrite::Byte { reg: REG_END_COMMS, val: 0 },
    ]
}

/// Settings of the pad, in the order in which they are written.
pub fn init_writes() -> (writes: Vec<RegisterWrite>)
    ensures
        writes@ == settings(),
{
    let mut writes: Vec<RegisterWrite> = Vec::new();
    writes.push(RegisterWrite::Word { reg: REG_REPORT_RATE_ACTIVE, val: REPORT_RATE_ACTIVE_MS });
    writes.push(RegisterWrite::Word { reg: REG_REPORT_RATE_IDLE_TOUCH, val: REPORT_RATE_IDLE_TOUCH_MS });
    writes.push(RegisterWrite::Word { reg: REG_REPORT_RATE_IDLE, val: REPORT_RATE_IDLE_MS });
    writes.push(RegisterWrite::Word { reg: REG_REPORT_RATE_LP1, val: REPORT_RATE_LP1_MS });
    writes.push(RegisterWrite::Word { reg: REG_REPORT_RATE_LP2, val: REPORT_RATE_LP2_MS });
    writes.push(RegisterWrite::Byte { reg: REG_ACTIVE_MODE_TIMEOUT, val: ACTIVE_MODE_TIMEOUT_SECS });
    writes.push(RegisterWrite::Byte { reg: REG_IDLE_TOUCH_MODE_TIMEOUT, val: IDLE_TOUCH_MODE_TIMEOUT_SECS });
    writes.push(RegisterWrite::Byte { reg: REG_IDLE_MODE_TIMEOUT, val: IDLE_MODE_TIMEOUT_SECS });
    writes.push(RegisterWrite::Byte { reg: REG_LP1_MODE_TIMEOUT, val: LP1_MODE_TIMEOUT_20_SECS });
    writes.push(RegisterWrite::Byte { reg: REG_SYSTEM_CONFIG_1, val: 0x46 });
    writes.push(RegisterWrite::Byte { reg: REG_BOTTOM_BETA, val: 5 });
    writes.push(RegisterWrite::Byte { reg: REG_STATIONARY_THRESH, val: 5 });
    writes.push(RegisterWrite::Byte { reg: REG_FILTER_SETTINGS, val: FILTERS });
    writes.push(RegisterWrite::Byte { reg: REG_XY_CONFIG_0, val: 0x05 });
    writes.push(RegisterWrite::Byte { reg: REG_SINGLE_FINGER_GESTURES, val: 0x03 });
    writes.push(RegisterWrite::Byte { reg: REG_MULTI_FINGER_GESTURES, val: 0x03 });
    writes.push(RegisterWrite::Word { reg: REG_HOLD_TIME, val: 0x012c });
    writes.push(RegisterWrite::Word { reg: REG_SCROLL_INITIAL_DISTANCE, val: 0x0001 });
    writes.push(RegisterWrite::Byte { reg: REG_SYSTEM_CONFIG_0, val: 0x60 });
    writes.push(end_session());
    assert(writes@ =~= settings());
    writes
}

/// Whether a pad answered with its product number, which is never zero.
pub open spec fn names_product(answer: Option<[u8; 2]>) -> bool {
    answer matches Some(bytes) && !(bytes@[0] == 0 && bytes@[1] == 0)
}

/// Whether a pad answered with its product number, which is never zero.
pub fn product_found(answer: Option<[u8; 2]>) -> (found: bool)
    ensures
        found == names_product(answer),
{
    match answer {
        Some(bytes) => !(bytes[0] == 0 && bytes[1] == 0),
        None => false,
    }
}

/// What has to be sent before an event block is decoded.
pub open spec fn action_for(data: Seq<u8>) -> BlockAction {
    if data[3] & SYSTEM_INFO_0_SHOW_RESET != 0 {
        BlockAction::AcknowledgeReset
    } else {
        BlockAction::EndSession
    }
}

/// What has to be sent before an event block is decoded.
pub fn block_action(data: &[u8; 10]) -> (action: BlockAction)
    ensures
        action == action_for(data@),
{
    if data[3] & SYSTEM_INFO_0_SHOW_RESET != 0 {
        BlockAction::AcknowledgeReset
    } else {
        BlockAction::EndSession
    }
}

/// Whether the chip scanned for touches in the cycle of a block, and did not calibrate
/// itself: only then are fingers and movements a user's.
pub open spec fn is_trustworthy(data: Seq<u8>) -> bool {
    let mode = data[3] & SYSTEM_INFO_0_CHARGING_MODE;
    (mode == CHARGING_MODE_ACTIVE || mode == CHARGING_MODE_IDLE_TOUCH) && data[3] & 0x18 == 0
}

/// Movement in a block; `(0, 0)` unless the block says that there is one.
pub open spec fn movement(data: Seq<u8>) -> (int, int) {
    if data[4] & SYSTEM_INFO_1_TP_MOVEMENT != 0 || data[2] & GESTURE_1_SCROLL != 0 {
        (be_i16(data[6], data[7]), be_i16(data[8], data[9]))
    } else {
        (0, 0)
    }
}

/// Two-finger samples in a row after a block.
pub open spec fn fingers_after(samples: u8, data: Seq<u8>) -> u8 {
    if !is_trustworthy(data) || data[5] < 2 {
        0
    } else if samples == u8::MAX {
        u8::MAX
    } else {
        (samples + 1) as u8
    }
}

/// Meaning of a block, given the number of two-finger samples in a row.
pub open spec fn block_result(data: Seq<u8>, samples: u8, gestures_enabled: bool) -> TouchReadResult {
    let (x, y) = movement(data);
    let touching = data[5] > 0;
    if !is_trustworthy(data) {
        TouchReadResult::Idle { touching: false }
    } else if gestures_enabled && data[1] & 0x03 != 0 {
        TouchReadResult::Gesture { buttons: BUTTON_LEFT }
    } else if gestures_enabled && data[2] & GESTURE_1_TWO_FINGER_TAP != 0 && data[0] != 0 {
        TouchReadResult::Gesture { buttons: BUTTON_RIGHT }
    } else if gestures_enabled && samples >= TOUCH_SCROLL_CONFIRM_SAMPLES && (data[2] & GESTURE_1_SCROLL != 0 || x != 0
        || y != 0) {
        match scroll_of(x as i16, y as i16) {
            Some((h, v)) => TouchReadResult::Scroll { h: h as i16, v: v as i16 },
            None => TouchReadResult::Idle { touching },
        }
    } else if data[5] != 1 || (x == 0 && y == 0) {
        TouchReadResult::Idle { touching }
    } else {
        TouchReadResult::Motion { x: x as i16, y: num::clamp_i16(-y) as i16 }
    }
}

/// Meaning of a block, and the pad that counted its fingers.
pub open spec fn decoded_block(t: Touchpad, data: Seq<u8>, gestures_enabled: bool) -> (TouchReadResult, Touchpad) {
    let samples = fingers_after(t.multi_finger_samples, data);
    (block_result(data, samples, gestures_enabled), Touchpad { multi_finger_samples: samples, ..t })
}

/// Signed number of two bytes, most significant first.
fn signed_be(high: u8, low: u8) -> (v: i16)
    ensures
        v == be_i16(high, low),
{
    let v: i32 = high as i32 * 256 + low as i32;
    if v >= 0x8000 {
        (v - 0x1_0000) as i16
    } else {
        v as i16
    }
}

/// A pad that is not there or not initialised, with the next probe scheduled.
pub open spec fn probing(t: Touchpad, now: u64) -> Touchpad {
    let since = match t.unavailable_since {
        Some(since) => since,
        None => now,
    };
    Touchpad {
        unavailable_since: Some(since),
        next_probe: (now + (if now - since < TOUCH_FAST_PROBE_WINDOW {
            TOUCH_FAST_PROBE_INTERVAL
        } else {
            TOUCH_SLOW_PROBE_INTERVAL
        })) as u64,
        next_poll: 0,
        ..t
    }
}

/// A pad that is initialised anew.
pub open spec fn after_reset(t: Touchpad, now: u64) -> Touchpad {
    probing(Touchpad { ready: false, read_failures: 0, acc_x: 0, acc_y: 0, ..t }, now)
}

/// Motion that is kept after more of it came in.
pub open spec fn accumulated(acc: i32, delta: i16) -> i32 {
    num::clamp(acc + delta, -254, 254) as i32
}

/// A pad after a sample, before it reports.
pub open spec fn sampled(t: Touchpad, result: TouchReadResult, now: u64) -> Touchpad {
    let (x, y) = match result {
        TouchReadResult::Motion { x, y } => (x, y),
        _ => (0i16, 0i16),
    };
    let active = result != (TouchReadResult::Idle { touching: false });
    let last_activity = if active {
        now
    } else {
        t.last_activity
    };
    let interval = poll_interval_after(now - last_activity);
    Touchpad {
        read_failures: 0,
        acc_x: if result is Motion {
            accumulated(t.acc_x, x)
        } else {
            t.acc_x
        },
        acc_y: if result is Motion {
            accumulated(t.acc_y, y)
        } else {
            t.acc_y
        },
        last_activity,
        poll_interval: interval,
        next_poll: (now + interval) as u64,
        ..t
    }
}

/// A pad after a report that was due.
pub open spec fn reported(t: Touchpad, now: u64) -> Touchpad {
    Touchpad {
        acc_x: (t.acc_x - num::clamp_i8(t.acc_x as int)) as i32,
        acc_y: (t.acc_y - num::clamp_i8(t.acc_y as int)) as i32,
        last_report: now,
        ..t
    }
}

/// A pad after a read, and what becomes of failed ones.
pub open spec fn polled(t: Touchpad, result: TouchReadResult, now: u64) -> Touchpad {
    if result is ReadFailed {
        if t.read_failures + 1 >= TOUCH_READ_FAILURE_REINIT_THRESHOLD {
            after_reset(t, now)
        } else {
            Touchpad {
                read_failures: (t.read_failures + 1) as u8,
                next_poll: (now + t.poll_interval) as u64,
                ..t
            }
        }
    } else if now - t.last_report >= TOUCH_REPORT_INTERVAL {
        reported(sampled(t, result, now), now)
    } else {
        sampled(t, result, now)
    }
}

/// Axes of the event that a gesture or a scroll publishes.
pub open spec fn pulse_axes(result: TouchReadResult) -> Option<Seq<AxisEvent>> {
    match result {
        TouchReadResult::Gesture { buttons } => Some(
            seq![rel(Axis::X, 0), rel(Axis::Y, 0), rel(Axis::Z, buttons as int)],
        ),
        TouchReadResult::Scroll { h, v } => Some(
            seq![rel(Axis::H, h as int), rel(Axis::V, v as int), rel(Axis::Z, 0)],
        ),
        _ => None,
    }
}

/// Axes of the event that reports motion, if there is any.
pub open spec fn motion_axes(acc_x: i32, acc_y: i32) -> Option<Seq<AxisEvent>> {
    if acc_x == 0 && acc_y == 0 {
        None
    } else {
        Some(
            seq![
                rel(Axis::X, num::clamp_i8(acc_x as int)),
                rel(Axis::Y, num::clamp_i8(acc_y as int)),
                rel(Axis::Z, 0),
            ],
        )
    }
}

/// Whether an optional event of a device has these axes.
pub open spec fn is_event(event: Option<PointingEvent>, device_id: u8, axes: Option<Seq<AxisEvent>>) -> bool {
    match axes {
        Some(a) => event matches Some(e) && e.device_id == device_id && e.axes@ == a,
        None => event is None,
    }
}

/// Time of the next poll or probe.
pub open spec fn deadline_of(t: Touchpad) -> u64 {
    if t.ready {
        t.next_poll
    } else {
        t.next_probe
    }
}

/// Whether `output` and `after` are what a read leads to.
pub open spec fn read_result(
    t: Touchpad,
    result: TouchReadResult,
    now: u64,
    output: TouchOutput,
    after: Touchpad,
) -> bool {
    &&& after == polled(t, result, now)
    &&& is_event(output.pulse, t.device_id, pulse_axes(result))
    &&& is_event(
        output.motion,
        t.device_id,
        if !(result is ReadFailed) && now - t.last_report >= TOUCH_REPORT_INTERVAL {
            motion_axes(sampled(t, result, now).acc_x, sampled(t, result, now).acc_y)
        } else {
            None
        },
    )
    &&& output.pause_ms == (if result is ReadFailed && t.read_failures + 1 >= TOUCH_READ_FAILURE_REINIT_THRESHOLD {
        TOUCH_REINIT_PAUSE_MS
    } else {
        0
    })
}

/// A pad whose initialisation ended.
pub open spec fn init_ended(t: Touchpad, ok: bool, now: u64) -> Touchpad {
    if ok {
        Touchpad {
            ready: true,
            read_failures: 0,
            next_probe: 0,
            next_poll: (now + 8_000) as u64,
            poll_interval: 8_000,
            last_activity: now,
            last_report: now,
            unavailable_since: None,
            acc_x: 0,
            acc_y: 0,
            ..t
        }
    } else {
        probing(t, now)
    }
}

impl Touchpad {
    /// Whether no recorded time lies after `now` and every deadline can be told: clocks do
    /// not run backwards.
    pub open spec fn wf_at(&self, now: u64) -> bool {
        &&& self.last_report <= now
        &&& self.last_activity <= now
        &&& self.unavailable_since matches Some(since) ==> since <= now
        &&& -TOUCH_MOTION_ACCUM_LIMIT <= self.acc_x <= TOUCH_MOTION_ACCUM_LIMIT
        &&& -TOUCH_MOTION_ACCUM_LIMIT <= self.acc_y <= TOUCH_MOTION_ACCUM_LIMIT
        &&& self.poll_interval <= TOUCH_SLOW_PROBE_INTERVAL
        &&& now + TOUCH_SLOW_PROBE_INTERVAL <= u64::MAX
    }

    /// Whether `now` can be told to the pad.
    pub fn can_run(&self, now: u64) -> (can: bool)
        ensures
            can == self.wf_at(now),
    {
        let since_ok = match self.unavailable_since {
            Some(since) => since <= now,
            None => true,
        };
        since_ok && self.last_report <= now && self.last_activity <= now && -TOUCH_MOTION_ACCUM_LIMIT <= self.acc_x
            && self.acc_x <= TOUCH_MOTION_ACCUM_LIMIT && -TOUCH_MOTION_ACCUM_LIMIT <= self.acc_y && self.acc_y
            <= TOUCH_MOTION_ACCUM_LIMIT && self.poll_interval <= TOUCH_SLOW_PROBE_INTERVAL && now <= u64::MAX
            - TOUCH_SLOW_PROBE_INTERVAL
    }

    /// A pad that is to be probed at once.
    pub fn new(device_id: u8) -> (this: Self)
        ensures
            this == (Touchpad {
                device_id,
                side: this.side,
                ready: false,
                read_failures: 0,
                multi_finger_samples: 0,
                acc_x: 0,
                acc_y: 0,
                last_report: 0,
                last_activity: 0,
                next_probe: 0,
                next_poll: 0,
                poll_interval: 8_000,
                unavailable_since: None,
            }),
            this.side == side_of(device_id),
            forall|now: u64| now <= u64::MAX - TOUCH_SLOW_PROBE_INTERVAL ==> #[trigger] this.wf_at(now),
    {
        Touchpad {
            device_id,
            side: side_for_device_id(device_id),
            ready: false,
            read_failures: 0,
            multi_finger_samples: 0,
            acc_x: 0,
            acc_y: 0,
            last_report: 0,
            last_activity: 0,
            next_probe: 0,
            next_poll: 0,
            poll_interval: REPORT_RATE_ACTIVE_MS as u64 * 1_000,
            unavailable_since: None,
        }
    }

    /// Time of the next poll or probe.
    pub fn deadline(&self) -> (deadline: u64)
        ensures
            deadline == deadline_of(*self),
    {
        if self.ready {
            self.next_poll
        } else {
            self.next_probe
        }
    }

    /// Initialisation ended. A pad that took all settings is polled from now on; another
    /// one is probed again later.
    pub fn init_finished(&mut self, ok: bool, now: u64)
        requires
            old(self).wf_at(now),
        ensures
            *final(self) == init_ended(*old(self), ok, now),
            final(self).wf_at(now),
    {
        if ok {
            self.ready = true;
            self.read_failures = 0;
            self.next_probe = 0;
            self.next_poll = now + REPORT_RATE_ACTIVE_MS as u64 * 1_000;
            self.poll_interval = REPORT_RATE_ACTIVE_MS as u64 * 1_000;
            self.last_activity = now;
            self.unavailable_since = None;
            self.acc_x = 0;
            self.acc_y = 0;
            self.last_report = now;
        } else {
            self.schedule_next_probe(now);
        }
    }

    /// Decodes an event block after the session was ended, and counts two-finger samples.
    pub fn decode(&mut self, data: &[u8; 10], gestures_enabled: bool) -> (result: TouchReadResult)
        ensures
            (result, *final(self)) == decoded_block(*old(self), data@, gestures_enabled),
    {
        let previous_cycle_time: u8 = data[0];
        let gesture_0: u8 = data[1];
        let gesture_1: u8 = data[2];
        let system_info_0: u8 = data[3];
        let system_info_1: u8 = data[4];
        let number_of_fingers: u8 = data[5];
        let moves = system_info_1 & SYSTEM_INFO_1_TP_MOVEMENT != 0 || gesture_1 & GESTURE_1_SCROLL != 0;
        let x: i16 = if moves {
            signed_be(data[6], data[7])
        } else {
            0
        };
        let y: i16 = if moves {
            signed_be(data[8], data[9])
        } else {
            0
        };
        let charging_mode: u8 = system_info_0 & SYSTEM_INFO_0_CHARGING_MODE;
        let scanning_for_touch = charging_mode == CHARGING_MODE_ACTIVE || charging_mode == CHARGING_MODE_IDLE_TOUCH;
        assert(SYSTEM_INFO_0_ATI_ERROR | SYSTEM_INFO_0_REATI_OCCURRED == 0x18) by {
            assert(0x08u8 | 0x10u8 == 0x18u8) by (bit_vector);
        }
        assert(GESTURE_0_SINGLE_TAP | GESTURE_0_PRESS_AND_HOLD == 0x03) by {
            assert(0x01u8 | 0x02u8 == 0x03u8) by (bit_vector);
        }
        if !scanning_for_touch || system_info_0 & (SYSTEM_INFO_0_ATI_ERROR | SYSTEM_INFO_0_REATI_OCCURRED) != 0 {
            self.multi_finger_samples = 0;
            return TouchReadResult::Idle { touching: false };
        }
        self.multi_finger_samples = if number_of_fingers >= 2 {
            self.multi_finger_samples.saturating_add(1)
        } else {
            0
        };
        let settled = self.multi_finger_samples >= TOUCH_SCROLL_CONFIRM_SAMPLES;
        if gestures_enabled && gesture_0 & (GESTURE_0_SINGLE_TAP | GESTURE_0_PRESS_AND_HOLD) != 0 {
            return TouchReadResult::Gesture { buttons: BUTTON_LEFT };
        }
        if gestures_enabled && gesture_1 & GESTURE_1_TWO_FINGER_TAP != 0 && previous_cycle_time != 0 {
            return TouchReadResult::Gesture { buttons: BUTTON_RIGHT };
        }
        if gestures_enabled && settled && (gesture_1 & GESTURE_1_SCROLL != 0 || x != 0 || y != 0) {
            return match scroll_delta(x, y) {
                Some((h, v)) => TouchReadResult::Scroll { h, v },
                None => TouchReadResult::Idle { touching: number_of_fingers > 0 },
            };
        }
        if number_of_fingers != 1 || (x == 0 && y == 0) {
            return TouchReadResult::Idle { touching: number_of_fingers > 0 };
        }
        TouchReadResult::Motion { x, y: num::sat_neg_i16(y) }
    }

    /// The pad has to be initialised anew.
    pub fn reset(&mut self, now: u64)
        requires
            old(self).wf_at(now),
        ensures
            *final(self) == after_reset(*old(self), now),
            final(self).wf_at(now),
    {
        self.ready = false;
        self.read_failures = 0;
        self.acc_x = 0;
        self.acc_y = 0;
        self.schedule_next_probe(now);
    }

    /// Schedules the next probe for a pad that is not there: often at first, rarely later.
    pub fn schedule_next_probe(&mut self, now: u64)
        requires
            old(self).wf_at(now),
        ensures
            *final(self) == probing(*old(self), now),
            final(self).wf_at(now),
    {
        let since: u64 = match self.unavailable_since {
            Some(since) => since,
            None => now,
        };
        self.unavailable_since = Some(since);
        let interval: u64 = if now - since < TOUCH_FAST_PROBE_WINDOW {
            TOUCH_FAST_PROBE_INTERVAL
        } else {
            TOUCH_SLOW_PROBE_INTERVAL
        };
        self.next_probe = now + interval;
        self.next_poll = 0;
    }

    /// Event that presses buttons for a moment. Touch sources carry them on the Z axis.
    fn send_gesture(&self, buttons: u8) -> (event: PointingEvent)
        ensures
            is_event(Some(event), self.device_id, pulse_axes(TouchReadResult::Gesture { buttons })),
    {
        let axes = [
            relative_axis(Axis::X, 0),
            relative_axis(Axis::Y, 0),
            relative_axis(Axis::Z, buttons as i16),
        ];
        assert(axes@ =~= pulse_axes(TouchReadResult::Gesture { buttons })->0);
        PointingEvent { device_id: self.device_id, axes }
    }

    /// Event that scrolls.
    fn send_scroll(&self, h: i16, v: i16) -> (event: PointingEvent)
        ensures
            is_event(Some(event), self.device_id, pulse_axes(TouchReadResult::Scroll { h, v })),
    {
        let axes = [relative_axis(Axis::H, h), relative_axis(Axis::V, v), relative_axis(Axis::Z, 0)];
        assert(axes@ =~= pulse_axes(TouchReadResult::Scroll { h, v })->0);
        PointingEvent { device_id: self.device_id, axes }
    }

    /// Event that reports motion, as far as one report can hold it; the rest is kept.
    fn send_accumulated_motion(&mut self) -> (event: Option<PointingEvent>)
        requires
            -TOUCH_MOTION_ACCUM_LIMIT <= old(self).acc_x <= TOUCH_MOTION_ACCUM_LIMIT,
            -TOUCH_MOTION_ACCUM_LIMIT <= old(self).acc_y <= TOUCH_MOTION_ACCUM_LIMIT,
        ensures
            *final(self) == (Touchpad {
                acc_x: (old(self).acc_x - num::clamp_i8(old(self).acc_x as int)) as i32,
                acc_y: (old(self).acc_y - num::clamp_i8(old(self).acc_y as int)) as i32,
                ..*old(self)
            }),
            is_event(event, old(self).device_id, motion_axes(old(self).acc_x, old(self).acc_y)),
    {
        if self.acc_x == 0 && self.acc_y == 0 {
            return None;
        }
        let ghost (acc_x, acc_y) = (self.acc_x, self.acc_y);
        let report_x: i16 = num::narrow_i32_to_i8(self.acc_x) as i16;
        let report_y: i16 = num::narrow_i32_to_i8(self.acc_y) as i16;
        self.acc_x = self.acc_x - report_x as i32;
        self.acc_y = self.acc_y - report_y as i32;
        let axes = [
            relative_axis(Axis::X, report_x),
            relative_axis(Axis::Y, report_y),
            relative_axis(Axis::Z, 0),
        ];
        assert(axes@ =~= motion_axes(acc_x, acc_y)->0);
        Some(PointingEvent { device_id: self.device_id, axes })
    }

    /// Goes on after a read. Motion is given as the module's settings scale it.
    pub fn on_read(&mut self, result: TouchReadResult, now: u64) -> (output: TouchOutput)
        requires
            old(self).wf_at(now),
        ensures
            read_result(*old(self), result, now, output, *final(self)),
            final(self).wf_at(now),
    {
        let mut pulse: Option<PointingEvent> = None;
        let active_sample = match result {
            TouchReadResult::Motion { x, y } => {
                self.acc_x = clamp_motion_accum(num::sat_add_i32(self.acc_x, x as i32));
                self.acc_y = clamp_motion_accum(num::sat_add_i32(self.acc_y, y as i32));
                true
            },
            TouchReadResult::Gesture { buttons } => {
                pulse = Some(self.send_gesture(buttons));
                true
            },
            TouchReadResult::Scroll { h, v } => {
                pulse = Some(self.send_scroll(h, v));
                true
            },
            TouchReadResult::Idle { touching } => touching,
            TouchReadResult::ReadFailed => {
                let failures: u8 = self.read_failures.saturating_add(1);
                if failures >= TOUCH_READ_FAILURE_REINIT_THRESHOLD {
                    self.reset(now);
                    return TouchOutput { pulse: None, motion: None, pause_ms: TOUCH_REINIT_PAUSE_MS };
                }
                self.read_failures = failures;
                self.next_poll = now + self.poll_interval;
                return TouchOutput { pulse: None, motion: None, pause_ms: 0 };
            },
        };
        self.read_failures = 0;
        if active_sample {
            self.last_activity = now;
        }
        self.poll_interval = touch_poll_interval(now - self.last_activity);
        self.next_poll = now + self.poll_interval;
        let mut motion: Option<PointingEvent> = None;
        if now - self.last_report >= TOUCH_REPORT_INTERVAL {
            motion = self.send_accumulated_motion();
            self.last_report = now;
        }
        TouchOutput { pulse, motion, pause_ms: 0 }
    }
}

impl Touchpad {
    /// Goes on after a read that found the pad reset, once that was acknowledged.
    pub fn on_pad_reset(&mut self, now: u64) -> (output: TouchOutput)
        requires
            old(self).wf_at(now),
        ensures
            *final(self) == polled(after_reset(*old(self), now), TouchReadResult::Idle { touching: false }, now),
            final(self).wf_at(now),
            output.pulse is None,
            output.motion is None,
            output.pause_ms == 0,
    {
        self.reset(now);
        self.on_read(TouchReadResult::Idle { touching: false }, now)
    }
}

/// Motion that a report holds and motion that is kept add up to what was kept before, and
/// two reports send all of it.
pub proof fn law_reports_conserve_motion(t: Touchpad, now: u64)
    requires
        -TOUCH_MOTION_ACCUM_LIMIT <= t.acc_x <= TOUCH_MOTION_ACCUM_LIMIT,
        -TOUCH_MOTION_ACCUM_LIMIT <= t.acc_y <= TOUCH_MOTION_ACCUM_LIMIT,
    ensures
        reported(t, now).acc_x + num::clamp_i8(t.acc_x as int) == t.acc_x,
        reported(t, now).acc_y + num::clamp_i8(t.acc_y as int) == t.acc_y,
        reported(reported(t, now), now).acc_x == 0,
        reported(reported(t, now), now).acc_y == 0,
{
}

/// Nothing that the chip reports from a low-power mode, or while it calibrates itself,
/// moves or presses anything.
pub proof fn law_untrusted_cycles_are_idle(data: Seq<u8>, samples: u8, gestures_enabled: bool)
    requires
        !is_trustworthy(data),
    ensures
        block_result(data, samples, gestures_enabled) == (TouchReadResult::Idle { touching: false }),
        fingers_after(samples, data) == 0,
{
}

/// Number of two-finger samples in a row after a series of blocks.
pub open spec fn fingers_after_all(samples: u8, blocks: Seq<Seq<u8>>) -> u8
    decreases blocks.len(),
{
    if blocks.len() == 0 {
        samples
    } else {
        fingers_after(fingers_after_all(samples, blocks.drop_last()), blocks.last())
    }
}

/// A scroll is believed only when the last three samples were trustworthy and had two
/// fingers or more.
pub proof fn law_scroll_needs_three_samples(blocks: Seq<Seq<u8>>, gestures_enabled: bool)
    requires
        blocks.len() > 0,
        block_result(blocks.last(), fingers_after_all(0, blocks), gestures_enabled) is Scroll,
    ensures
        blocks.len() >= 3,
        forall|i: int|
            blocks.len() - 3 <= i < blocks.len() ==> is_trustworthy(#[trigger] blocks[i]) && blocks[i][5] >= 2,
{
    reveal_with_fuel(fingers_after_all, 4);
    let n = blocks.len() as int;
    let b1 = blocks.drop_last();
    let b2 = b1.drop_last();
    assert(fingers_after_all(0, blocks) >= 3);
    assert(b1.len() > 0);
    assert(fingers_after_all(0, b1) >= 2);
    assert(b2.len() > 0);
    assert(fingers_after_all(0, b2) >= 1);
    assert(b1.last() == blocks[n - 2]);
    assert(b2.last() == blocks[n - 3]);
}

/// The longer a pad is idle, the less often it is polled.
pub proof fn law_idle_pads_are_polled_less(idle_a: int, idle_b: int)
    requires
        idle_a <= idle_b,
    ensures
        poll_interval_after(idle_a) <= poll_interval_after(idle_b),
{
}

/// A scroll keeps the direction of the fingers and counts in steps of 8: horizontal
/// motion, where there is any, becomes horizontal steps and nothing else, vertical motion
/// vertical steps, and less than one step is nothing. The opposite motion scrolls the
/// opposite way.
pub proof fn law_scrolls_follow_the_fingers(x: i16, y: i16)
    ensures
        ({
            let along = if x != 0 {
                x as int
            } else {
                y as int
            };
            &&& scroll_of(x, y) is None <==> -8 < along < 8
            &&& scroll_of(x, y) matches Some((h, v)) ==> {
                let steps = if x != 0 {
                    h
                } else {
                    v
                };
                &&& x != 0 ==> v == 0
                &&& x == 0 ==> h == 0
                &&& along > 0 ==> steps > 0 && 8 * steps <= along < 8 * steps + 8
                &&& along < 0 ==> steps < 0 && 8 * steps - 8 < along <= 8 * steps
            }
        }),
        x > -32768 && y > -32768 ==> {
            let other = scroll_of((-x) as i16, (-y) as i16);
            &&& other is Some <==> scroll_of(x, y) is Some
            &&& scroll_of(x, y) matches Some((h, v)) ==> other == Some((-h, -v))
        },
{
    num::lemma_trunc_div(x as int, 8);
    num::lemma_trunc_div(y as int, 8);
}

/// Two bytes are a signed number in two's complement, the first byte the high one.
pub proof fn law_bytes_are_signed_numbers(high: u8, low: u8)
    ensures
        -32768 <= be_i16(high, low) <= 32767,
        (be_i16(high, low) - 256 * high - low) % 0x1_0000 == 0,
{
}

/// The bytes of a write are the register and the value, high bytes first.
pub proof fn law_frames_name_register_and_value(write: RegisterWrite)
    ensures
        match write {
            RegisterWrite::Byte { reg, val } => {
                &&& frame_of(write).len() == 3
                &&& frame_of(write)[0] * 256 + frame_of(write)[1] == reg
                &&& frame_of(write)[2] == val
            },
            RegisterWrite::Word { reg, val } => {
                &&& frame_of(write).len() == 4
                &&& frame_of(write)[0] * 256 + frame_of(write)[1] == reg
                &&& frame_of(write)[2] * 256 + frame_of(write)[3] == val
            },
        },
{
}

/// A block is believed only where its cycle scanned for touches and did not calibrate.
/// Then, with gestures on, a tap or a press is the left button and a two-finger tap the
/// right one; two fingers for three blocks in a row scroll; and one finger that moves
/// moves the cursor, to the right with X and up with Y. Anything else is idle, and tells
/// whether a finger rests on the pad.
pub proof fn law_blocks_mean_what_fingers_do(t: Touchpad, data: Seq<u8>, gestures_enabled: bool)
    requires
        data.len() == 10,
    ensures
        ({
            let (result, after) = decoded_block(t, data, gestures_enabled);
            let believed = (data[3] & 0x07 == 0 || data[3] & 0x07 == 1) && data[3] & 0x18 == 0;
            let moved = data[4] & 0x01 != 0 || data[2] & 0x02 != 0;
            let x = if moved {
                be_i16(data[6], data[7])
            } else {
                0
            };
            let y = if moved {
                be_i16(data[8], data[9])
            } else {
                0
            };
            let left = gestures_enabled && data[1] & 0x03 != 0;
            let right = gestures_enabled && data[2] & 0x01 != 0 && data[0] != 0;
            let fingers = after.multi_finger_samples;
            let scrolls = gestures_enabled && fingers >= 3 && (data[2] & 0x02 != 0 || x != 0 || y != 0);
            let idle = TouchReadResult::Idle { touching: data[5] != 0 };
            &&& after == (Touchpad { multi_finger_samples: fingers, ..t })
            &&& believed && data[5] >= 2 && t.multi_finger_samples < 255 ==> fingers == t.multi_finger_samples + 1
            &&& believed && data[5] >= 2 && t.multi_finger_samples == 255 ==> fingers == 255
            &&& !believed || data[5] < 2 ==> fingers == 0
            &&& !believed ==> result == (TouchReadResult::Idle { touching: false })
            &&& believed && left ==> result == (TouchReadResult::Gesture { buttons: 1 })
            &&& believed && !left && right ==> result == (TouchReadResult::Gesture { buttons: 2 })
            &&& believed && !left && !right && scrolls ==> match scroll_of(x as i16, y as i16) {
                Some((h, v)) => {
                    &&& result is Scroll
                    &&& result->h == h
                    &&& result->v == v
                },
                None => result == idle,
            }
            &&& believed && !left && !right && !scrolls && data[5] == 1 && (x != 0 || y != 0) ==> {
                &&& result is Motion
                &&& result->x == x
                &&& y > -32768 ==> result->y == -y
                &&& y == -32768 ==> result->y == 32767
            }
            &&& believed && !left && !right && !scrolls && (data[5] != 1 || (x == 0 && y == 0)) ==> result == idle
        }),
{
    assert(be_i16(data[6], data[7]) as i16 == be_i16(data[6], data[7]));
    assert(be_i16(data[8], data[9]) as i16 == be_i16(data[8], data[9]));
    let samples = fingers_after(t.multi_finger_samples, data);
    let (x, y) = movement(data);
    num::lemma_trunc_div(x, 8);
    num::lemma_trunc_div(y, 8);
    assert(scroll_of(x as i16, y as i16) matches Some((h, v)) ==> h as i16 == h && v as i16 == v);
}

/// Motion of one axis that is kept: at most 254 in either direction.
pub open spec fn kept(v: int) -> int {
    if v > 254 {
        254
    } else if v < -254 {
        -254
    } else {
        v
    }
}

/// Part of the motion that is kept that one report carries.
pub open spec fn reportable(v: int) -> int {
    if v > 127 {
        127
    } else if v < -128 {
        -128
    } else {
        v
    }
}

/// A gesture and a scroll are published at once, a gesture as buttons and a scroll on its
/// own axes; nothing else is.
pub proof fn law_gestures_and_scrolls_are_published(
    t: Touchpad,
    result: TouchReadResult,
    now: u64,
    output: TouchOutput,
    after: Touchpad,
)
    requires
        t.wf_at(now),
        read_result(t, result, now, output, after),
    ensures
        output.pulse is Some <==> result is Gesture || result is Scroll,
        output.pulse matches Some(e) ==> {
            &&& e.device_id == t.device_id
            &&& e.axes[0].typ == AxisValType::Rel && e.axes[1].typ == AxisValType::Rel && e.axes[2].typ
                == AxisValType::Rel
            &&& result matches TouchReadResult::Gesture { buttons } ==> {
                &&& e.axes[0].axis == Axis::X && e.axes[0].value == 0
                &&& e.axes[1].axis == Axis::Y && e.axes[1].value == 0
                &&& e.axes[2].axis == Axis::Z && e.axes[2].value == buttons
            }
            &&& result matches TouchReadResult::Scroll { h, v } ==> {
                &&& e.axes[0].axis == Axis::H && e.axes[0].value == h
                &&& e.axes[1].axis == Axis::V && e.axes[1].value == v
                &&& e.axes[2].axis == Axis::Z && e.axes[2].value == 0
            }
        },
{
    if let Some(e) = output.pulse {
        assert(e.axes@[0] == e.axes[0] && e.axes@[1] == e.axes[1] && e.axes@[2] == e.axes[2]);
    }
}

/// Motion adds up, at most 254 along each axis, and is reported every 8 ms at most, X
/// along X and Y along Y; what one report cannot carry is kept for the next.
pub proof fn law_motion_is_reported(
    t: Touchpad,
    result: TouchReadResult,
    now: u64,
    output: TouchOutput,
    after: Touchpad,
)
    requires
        t.wf_at(now),
        !(result is ReadFailed),
        read_result(t, result, now, output, after),
    ensures
        ({
            let x = if result is Motion {
                kept(t.acc_x + result->x)
            } else {
                t.acc_x as int
            };
            let y = if result is Motion {
                kept(t.acc_y + result->y)
            } else {
                t.acc_y as int
            };
            let due = now >= t.last_report + 8_000;
            &&& output.motion is Some <==> due && (x != 0 || y != 0)
            &&& output.motion matches Some(e) ==> {
                &&& e.device_id == t.device_id
                &&& e.axes[0].typ == AxisValType::Rel && e.axes[1].typ == AxisValType::Rel
                &&& e.axes[0].axis == Axis::X && e.axes[0].value == reportable(x)
                &&& e.axes[1].axis == Axis::Y && e.axes[1].value == reportable(y)
                &&& e.axes[2].axis == Axis::Z && e.axes[2].value == 0
            }
            &&& due ==> after.acc_x == x - reportable(x) && after.acc_y == y - reportable(y)
            &&& !due ==> after.acc_x == x && after.acc_y == y
            &&& after.last_report == (if due {
                now
            } else {
                t.last_report
            })
        }),
{
    if let Some(e) = output.motion {
        assert(e.axes@[0] == e.axes[0] && e.axes@[1] == e.axes[1] && e.axes@[2] == e.axes[2]);
    }
}

/// A pad is polled every 8 ms while it is in use and for a second after, every 40 ms for
/// five seconds more, and every 160 ms then. A finger that rests on it uses it.
pub proof fn law_polls_follow_the_use(
    t: Touchpad,
    result: TouchReadResult,
    now: u64,
    output: TouchOutput,
    after: Touchpad,
)
    requires
        t.wf_at(now),
        !(result is ReadFailed),
        read_result(t, result, now, output, after),
    ensures
        after.last_activity == (if result == (TouchReadResult::Idle { touching: false }) {
            t.last_activity
        } else {
            now
        }),
        ({
            let unused = now - after.last_activity;
            &&& unused < 1_000_000 ==> after.poll_interval == 8_000
            &&& 1_000_000 <= unused < 6_000_000 ==> after.poll_interval == 40_000
            &&& unused >= 6_000_000 ==> after.poll_interval == 160_000
        }),
        after.next_poll == now + after.poll_interval,
        after.read_failures == 0,
        after.ready == t.ready,
        output.pause_ms == 0,
{
}

/// Failed reads publish nothing. The first three in a row are polled again after the
/// usual time; the fourth one has the pad probed and initialised anew after a pause of
/// 50 ms, and its motion is dropped.
pub proof fn law_failed_reads_are_survived(
    t: Touchpad,
    now: u64,
    output: TouchOutput,
    after: Touchpad,
)
    requires
        t.wf_at(now),
        read_result(t, TouchReadResult::ReadFailed, now, output, after),
    ensures
        output.pulse is None && output.motion is None,
        t.read_failures < 3 ==> {
            &&& after == (Touchpad { read_failures: after.read_failures, next_poll: after.next_poll, ..t })
            &&& after.read_failures == t.read_failures + 1
            &&& after.next_poll == now + t.poll_interval
            &&& output.pause_ms == 0
        },
        t.read_failures >= 3 ==> {
            &&& !after.ready
            &&& after.read_failures == 0
            &&& after.acc_x == 0 && after.acc_y == 0
            &&& after.next_probe > now
            &&& output.pause_ms == 50
        },
{
}

/// A pad that is not there is probed every half a second for ten seconds after it was
/// lost, and every two seconds then.
pub proof fn law_lost_pads_are_probed(t: Touchpad, now: u64)
    requires
        t.wf_at(now),
    ensures
        ({
            let after = probing(t, now);
            let lost_at = if t.unavailable_since is Some {
                t.unavailable_since->0
            } else {
                now
            };
            &&& after.unavailable_since == Some(lost_at)
            &&& now < lost_at + 10_000_000 ==> after.next_probe == now + 500_000
            &&& now >= lost_at + 10_000_000 ==> after.next_probe == now + 2_000_000
            &&& after.ready == t.ready
            &&& after.next_poll == 0
            &&& after_reset(t, now) == (Touchpad {
                ready: false,
                read_failures: 0,
                acc_x: 0,
                acc_y: 0,
                ..after
            })
        }),
        ({
            let after = init_ended(t, true, now);
            &&& after.ready
            &&& after.next_poll == now + 8_000 && after.poll_interval == 8_000
            &&& after.last_activity == now && after.last_report == now
            &&& after.acc_x == 0 && after.acc_y == 0 && after.read_failures == 0
            &&& after.unavailable_since is None
            &&& after.device_id == t.device_id && after.side == t.side
        }),
        init_ended(t, false, now) == probing(t, now),
{
}

/// The even ones of the four devices are on the left side and the odd ones on the right.
pub proof fn law_devices_alternate_sides(device_id: u8)
    ensures
        device_id <= 3 ==> side_of(device_id) == device_id % 2,
        device_id > 3 ==> side_of(device_id) == 1,
{
}

/// A pad is there if its product number came and is not zero.
pub proof fn law_product_numbers_are_not_zero(bytes: [u8; 2])
    ensures
        !names_product(None),
        names_product(Some(bytes)) <==> bytes[0] * 256 + bytes[1] > 0,
{
    assert(bytes@[0] == bytes[0] && bytes@[1] == bytes[1]);
}

/// A block is acknowledged as a reset if and only if the high bit of its first system
/// byte is set.
pub proof fn law_resets_are_acknowledged(data: Seq<u8>)
    ensures
        action_for(data) == BlockAction::AcknowledgeReset <==> data[3] >= 0x80,
        action_for(data) == BlockAction::EndSession <==> data[3] < 0x80,
{
    let b = data[3];
    assert(b & 0x80 != 0 <==> b >= 0x80) by (bit_vector);
}

/// The settings are written in one session that is ended last. They let the pad report
/// every 8 ms while it is touched, every 40 ms while it idles and every 160 ms in its low
/// power modes, leave these modes after 1 s, never, 5 s and 20 s, and set the filters, the
/// axes, the gestures and the system configuration.
pub proof fn law_settings_pace_the_pad()
    ensures
        settings() == seq![
            RegisterWrite::Word { reg: 0x057a, val: 8 },
            RegisterWrite::Word { reg: 0x057c, val: 8 },
            RegisterWrite::Word { reg: 0x057e, val: 40 },
            RegisterWrite::Word { reg: 0x0580, val: 160 },
            RegisterWrite::Word { reg: 0x0582, val: 160 },
            RegisterWrite::Byte { reg: 0x0584, val: 1 },
            RegisterWrite::Byte { reg: 0x0585, val: 255 },
            RegisterWrite::Byte { reg: 0x0586, val: 5 },
            RegisterWrite::Byte { reg: 0x0587, val: 1 },
            RegisterWrite::Byte { reg: 0x058f, val: 0x46 },
            RegisterWrite::Byte { reg: 0x0637, val: 5 },
            RegisterWrite::Byte { reg: 0x0672, val: 5 },
            RegisterWrite::Byte { reg: 0x0632, val: 0x0b },
            RegisterWrite::Byte { reg: 0x0669, val: 0x05 },
            RegisterWrite::Byte { reg: 0x06b7, val: 0x03 },
            RegisterWrite::Byte { reg: 0x06b8, val: 0x03 },
            RegisterWrite::Word { reg: 0x06bd, val: 300 },
            RegisterWrite::Word { reg: 0x06c8, val: 1 },
            RegisterWrite::Byte { reg: 0x058e, val: 0x60 },
            RegisterWrite::Byte { reg: 0xeeee, val: 0 },
        ],
        forall|i: int|
            0 <= i < 19 ==> #[trigger] settings()[i] != (RegisterWrite::Byte { reg: 0xeeee, val: 0 }),
{
}

/// A pad that is ready waits for its next poll and another one for its next probe, and
/// either can be told any later time that leaves room for a deadline.
pub proof fn law_pads_wait_for_their_deadline(t: Touchpad, now: u64, later: u64)
    ensures
        t.ready ==> deadline_of(t) == t.next_poll,
        !t.ready ==> deadline_of(t) == t.next_probe,
        t.wf_at(now) && now <= later <= u64::MAX - 2_000_000 ==> t.wf_at(later),
{
}

} // verus!
