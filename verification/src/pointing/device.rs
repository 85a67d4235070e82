//! Sampling of a motion sensor: initialisation with retries, accumulation of
//! motion between reports, and the pacing of polls and reports.
//!
//! Times are microseconds since boot; zero stands for "not yet".

use vstd::prelude::*;

use crate::event::{Axis, AxisEvent, AxisValType, PointingEvent, PointingSetCpiEvent};
use crate::num;

verus! {

/// Attempts to initialise the sensor before the device is given up.
pub const MAX_INIT_RETRIES: u8 = 3;

/// Pause after a failed attempt to initialise the sensor.
pub const INIT_RETRY_DELAY_MS: u64 = 100;

/// Motion data from the sensor
#[derive(Clone, Copy, Debug, PartialEq, Eq, Structural)]
pub struct MotionData {
    pub dx: i16,
    pub dy: i16,
}

impl Default for MotionData {
    fn default() -> (motion: Self)
        ensures
            motion == (MotionData { dx: 0, dy: 0 }),
    {
        MotionData { dx: 0, dy: 0 }
    }
}

/// Errors of pointing devices
#[derive(Clone, Copy, Debug, PartialEq, Eq)]
pub enum PointingDriverError {
    /// SPI communication error
    Spi,
    /// Invalid product ID detected
    InvalidProductId(u8),
    /// Initialization failed
    InitFailed,
    /// Invalid CPI value
    InvalidCpi,
    /// Invalid firmware signature detected
    InvalidFwSignature((u8, u8)),
    /// Invalid rotational transform angle
    InvalidRotTransAngle,
    /// Not implemented
    NotImplementedError,
}

/// Initialization state for the device
#[derive(Clone, Copy, Debug, PartialEq, Eq, Structural)]
pub enum InitState {
    Pending,
    /// Initialisation goes on; holds the number of attempts that failed.
    Initializing(u8),
    Ready,
    Failed,
}

/// State of a pointing device beside its sensor.
#[derive(Clone, Copy, Debug, PartialEq, Eq, Structural)]
pub struct PointingDevice {
    pub init_state: InitState,
    pub poll_interval: u64,
    pub id: u8,
    pub report_interval: u64,
    pub last_poll: u64,
    pub last_report: u64,
    pub accumulated_x: i32,
    pub accumulated_y: i32,
}

/// How an attempt to initialise the sensor starts.
#[derive(Clone, Copy, Debug, PartialEq, Eq, Structural)]
pub enum InitStep {
    /// Nothing to do: the device is ready (`true`) or was given up (`false`).
    Settled(bool),
    /// The sensor's own initialisation is to be run.
    RunSensorInit,
}

/// State with which an initialisation attempt starts.
pub open spec fn init_begun(state: InitState) -> InitState {
    match state {
        InitState::Pending => InitState::Initializing(0),
        other => other,
    }
}

/// How an initialisation attempt starts.
pub open spec fn init_step(state: InitState) -> InitStep {
    match state {
        InitState::Ready => InitStep::Settled(true),
        InitState::Failed => InitStep::Settled(false),
        _ => InitStep::RunSensorInit,
    }
}

/// State after an initialisation attempt that started in `state` and whose sensor
/// initialisation succeeded (`ok`) or failed.
pub open spec fn init_finished(state: InitState, ok: bool) -> InitState {
    if state !is Initializing {
        state
    } else if ok {
        InitState::Ready
    } else if state->0 + 1 >= MAX_INIT_RETRIES {
        InitState::Failed
    } else {
        InitState::Initializing((state->0 + 1) as u8)
    }
}

/// Accumulated motion of one axis after a movement by `delta`.
pub open spec fn motion_added(accumulated: i32, delta: i16) -> i32 {
    num::clamp_i32(accumulated + delta) as i32
}

/// Motion that is waiting to be reported.
pub open spec fn has_motion(device: PointingDevice) -> bool {
    device.accumulated_x != 0 || device.accumulated_y != 0
}

/// Event that reports the accumulated motion `(x, y)` of device `id`.
pub open spec fn motion_axes(x: int, y: int) -> Seq<AxisEvent> {
    seq![
        AxisEvent { typ: AxisValType::Rel, axis: Axis::X, value: num::clamp_i16(x) as i16 },
        AxisEvent { typ: AxisValType::Rel, axis: Axis::Y, value: num::clamp_i16(y) as i16 },
        AxisEvent { typ: AxisValType::Rel, axis: Axis::Z, value: 0 },
    ]
}

/// Time that is left of `interval` when `elapsed` has passed.
pub open spec fn time_left(interval: u64, elapsed: int) -> int {
    if interval >= elapsed {
        interval - elapsed
    } else {
        0
    }
}

/// Whether a poll reads the sensor.
pub open spec fn reads_sample(device: PointingDevice, motion_pending: bool) -> bool {
    device.init_state == InitState::Ready && motion_pending
}

/// Device after its sensor was read.
pub open spec fn after_read(device: PointingDevice, read: Result<MotionData, PointingDriverError>) -> PointingDevice {
    match read {
        Ok(motion) => PointingDevice {
            accumulated_x: motion_added(device.accumulated_x, motion.dx),
            accumulated_y: motion_added(device.accumulated_y, motion.dy),
            ..device
        },
        Err(_) => device,
    }
}

/// Whether `event` and `after` are what taking the motion that is waiting leads to.
pub open spec fn takes_report(device: PointingDevice, event: Option<PointingEvent>, after: PointingDevice) -> bool {
    &&& event is Some <==> has_motion(device)
    &&& event matches Some(e) ==> e.device_id == device.id && e.axes@ == motion_axes(
        device.accumulated_x as int,
        device.accumulated_y as int,
    )
    &&& after == (PointingDevice { accumulated_x: 0, accumulated_y: 0, ..device })
}

/// Whether `event` and `after` are what a report that is due leads to.
pub open spec fn reports_due(
    device: PointingDevice,
    now: u64,
    event: Option<PointingEvent>,
    after: PointingDevice,
) -> bool {
    &&& event is Some <==> has_motion(device)
    &&& event matches Some(e) ==> e.device_id == device.id && e.axes@ == motion_axes(
        device.accumulated_x as int,
        device.accumulated_y as int,
    )
    &&& after == (PointingDevice {
        accumulated_x: 0,
        accumulated_y: 0,
        last_report: if has_motion(device) {
            now
        } else {
            device.last_report
        },
        ..device
    })
}

/// Resolution that a request asks a device to take.
pub open spec fn requested_cpi(device: PointingDevice, e: PointingSetCpiEvent) -> Option<u16> {
    if e.device_id == device.id {
        Some(e.cpi)
    } else {
        None
    }
}

/// Device whose clocks run.
pub open spec fn clocks_started(device: PointingDevice, now: u64) -> PointingDevice {
    PointingDevice {
        last_poll: if device.last_poll == 0 {
            now
        } else {
            device.last_poll
        },
        last_report: if device.last_report == 0 {
            now
        } else {
            device.last_report
        },
        ..device
    }
}

/// Time until the next poll.
pub open spec fn poll_delay_at(device: PointingDevice, now: u64) -> int {
    time_left(device.poll_interval, now - device.last_poll)
}

/// Time until the next report, if there is motion to report.
pub open spec fn report_delay_at(device: PointingDevice, now: u64) -> Option<int> {
    if has_motion(device) {
        Some(time_left(device.report_interval, now - device.last_report))
    } else {
        None
    }
}

impl PointingDevice {
    /// Start of an initialisation attempt. A pending device becomes an
    /// initialising one; a ready or failed device stays as it is.
    pub fn begin_init(&mut self) -> (step: InitStep)
        ensures
            step == init_step(old(self).init_state),
            *final(self) == (PointingDevice {
                init_state: init_begun(old(self).init_state),
                ..*old(self)
            }),
    {
        match self.init_state {
            InitState::Ready => {
                return InitStep::Settled(true);
            },
            InitState::Failed => {
                return InitStep::Settled(false);
            },
            InitState::Pending => {
                self.init_state = InitState::Initializing(0);
            },
            InitState::Initializing(_) => {},
        }
        InitStep::RunSensorInit
    }

    /// End of an initialisation attempt whose sensor initialisation succeeded
    /// (`ok`) or failed. Returns whether the device is ready. The device is given
    /// up with the last attempt; after an earlier failure the caller pauses for
    /// [`INIT_RETRY_DELAY_MS`].
    pub fn finish_init(&mut self, ok: bool) -> (ready: bool)
        requires
            old(self).init_state matches InitState::Initializing(failed) && failed < 255,
        ensures
            ready == ok,
            *final(self) == (PointingDevice {
                init_state: init_finished(old(self).init_state, ok),
                ..*old(self)
            }),
    {
        if let InitState::Initializing(retry_count) = self.init_state {
            if ok {
                self.init_state = InitState::Ready;
                return true;
            }
            if retry_count + 1 >= MAX_INIT_RETRIES {
                self.init_state = InitState::Failed;
                return false;
            }
            self.init_state = InitState::Initializing(retry_count + 1);
        }
        false
    }

    /// Whether a poll reads the sensor: it is ready and has a sample.
    pub fn reads_motion(&self, motion_pending: bool) -> (reads: bool)
        ensures
            reads == reads_sample(*self, motion_pending),
    {
        self.init_state == InitState::Ready && motion_pending
    }

    /// Adds what the sensor read to the motion that is waiting to be reported. A
    /// failed read changes nothing.
    pub fn apply_motion(&mut self, read: Result<MotionData, PointingDriverError>)
        ensures
            *final(self) == after_read(*old(self), read),
    {
        if let Ok(motion) = read {
            self.accumulated_x = num::sat_add_i32(self.accumulated_x, motion.dx as i32);
            self.accumulated_y = num::sat_add_i32(self.accumulated_y, motion.dy as i32);
        }
    }

    /// Takes the motion that is waiting, as an event.
    pub fn take_report_event(&mut self) -> (event: Option<PointingEvent>)
        ensures
            takes_report(*old(self), event, *final(self)),
    {
        if self.accumulated_x == 0 && self.accumulated_y == 0 {
            return None;
        }
        let dx: i16 = num::narrow_i32_to_i16(self.accumulated_x);
        let dy: i16 = num::narrow_i32_to_i16(self.accumulated_y);
        self.accumulated_x = 0;
        self.accumulated_y = 0;
        Some(
            PointingEvent {
                device_id: self.id,
                axes: [
                    AxisEvent { typ: AxisValType::Rel, axis: Axis::X, value: dx },
                    AxisEvent { typ: AxisValType::Rel, axis: Axis::Y, value: dy },
                    AxisEvent { typ: AxisValType::Rel, axis: Axis::Z, value: 0 },
                ],
            },
        )
    }

    /// Resolution that a request asks this device's sensor to take, if the request
    /// is for this device.
    pub fn on_pointing_set_cpi_event(&self, e: PointingSetCpiEvent) -> (cpi: Option<u16>)
        ensures
            cpi == requested_cpi(*self, e),
    {
        if e.device_id == self.id {
            Some(e.cpi)
        } else {
            None
        }
    }

    /// Starts both clocks that have not been started yet.
    pub fn start_clocks(&mut self, now: u64)
        ensures
            *final(self) == clocks_started(*old(self), now),
    {
        if self.last_poll == 0 {
            self.last_poll = now;
        }
        if self.last_report == 0 {
            self.last_report = now;
        }
    }

    /// Time until the next poll of a sensor without a motion pin.
    pub fn poll_delay(&self, now: u64) -> (delay: u64)
        requires
            self.last_poll <= now,
        ensures
            delay == poll_delay_at(*self, now),
    {
        self.poll_interval.saturating_sub(now - self.last_poll)
    }

    /// Time until the next report; `None` while there is no motion to report.
    pub fn report_delay(&self, now: u64) -> (delay: Option<u64>)
        requires
            has_motion(*self) ==> self.last_report <= now,
        ensures
            delay is Some <==> report_delay_at(*self, now) is Some,
            delay matches Some(d) ==> report_delay_at(*self, now) == Some(d as int),
    {
        if self.accumulated_x != 0 || self.accumulated_y != 0 {
            Some(self.report_interval.saturating_sub(now - self.last_report))
        } else {
            None
        }
    }

    /// Notes that the sensor was polled.
    pub fn polled(&mut self, now: u64)
        ensures
            *final(self) == (PointingDevice { last_poll: now, ..*old(self) }),
    {
        self.last_poll = now;
    }

    /// A report is due: takes the motion that is waiting and notes the time of the
    /// report, if there is one.
    pub fn report_due(&mut self, now: u64) -> (event: Option<PointingEvent>)
        ensures
            reports_due(*old(self), now, event, *final(self)),
    {
        let event = self.take_report_event();
        if event.is_some() {
            self.last_report = now;
        }
        event
    }
}

/// State after `answers.len()` initialisation attempts.
pub open spec fn init_attempts(state: InitState, answers: Seq<bool>) -> InitState
    decreases answers.len(),
{
    if answers.len() == 0 {
        state
    } else {
        init_finished(init_begun(init_attempts(state, answers.drop_last())), answers.last())
    }
}

/// Initialisation settles: a pending device whose sensor is asked at most
/// [`MAX_INIT_RETRIES`] times ends ready exactly when one of those answers was a
/// success, and it is given up exactly when all of them were failures.
pub proof fn law_initialisation_settles(answers: Seq<bool>)
    requires
        answers.len() >= MAX_INIT_RETRIES,
    ensures
        init_attempts(InitState::Pending, answers) == (if answers[0] || answers[1] || answers[2] {
            InitState::Ready
        } else {
            InitState::Failed
        }),
    decreases answers.len(),
{
    if answers.len() == 3 {
        let a2 = answers.drop_last();
        let a1 = a2.drop_last();
        let a0 = a1.drop_last();
        assert(a0.len() == 0 && a1.len() == 1 && a2.len() == 2);
        assert(init_attempts(InitState::Pending, a0) == InitState::Pending);
        let s1 = init_finished(init_begun(InitState::Pending), answers[0]);
        assert(init_attempts(InitState::Pending, a1) == s1);
        assert(init_attempts(InitState::Pending, a2) == init_finished(init_begun(s1), answers[1]));
    } else {
        law_initialisation_settles(answers.drop_last());
    }
}

/// Sum of the movements of `motions` on the X axis (`on_x`) or the Y axis.
pub open spec fn motion_sum(motions: Seq<MotionData>, on_x: bool) -> int
    decreases motions.len(),
{
    if motions.len() == 0 {
        0
    } else {
        motion_sum(motions.drop_last(), on_x) + (if on_x {
            motions.last().dx
        } else {
            motions.last().dy
        })
    }
}

/// Accumulated motion of one axis after `motions` were read.
pub open spec fn accumulated_after(start: i32, motions: Seq<MotionData>, on_x: bool) -> i32
    decreases motions.len(),
{
    if motions.len() == 0 {
        start
    } else {
        motion_added(
            accumulated_after(start, motions.drop_last(), on_x),
            if on_x {
                motions.last().dx
            } else {
                motions.last().dy
            },
        )
    }
}

/// Motion between two reports adds up: after up to 65535 reads since the last
/// report, the accumulator holds the exact sum of what was read.
pub proof fn law_motion_adds_up(motions: Seq<MotionData>, on_x: bool)
    requires
        motions.len() <= 65535,
    ensures
        accumulated_after(0, motions, on_x) == motion_sum(motions, on_x),
        num::magnitude(motion_sum(motions, on_x)) <= 32768 * motions.len(),
    decreases motions.len(),
{
    if motions.len() > 0 {
        law_motion_adds_up(motions.drop_last(), on_x);
    }
}

/// A successful read adds its movement to the motion that waits, each axis to its own and
/// limited to 32 bits, and changes nothing else; a failed one changes nothing.
pub proof fn law_reads_add_to_their_axis(device: PointingDevice, read: Result<MotionData, PointingDriverError>)
    ensures
        ({
            let after = after_read(device, read);
            let limited = |v: int|
                if v > 0x7fff_ffff {
                    0x7fff_ffff
                } else if v < -0x8000_0000 {
                    -0x8000_0000
                } else {
                    v
                };
            &&& read is Err ==> after == device
            &&& read matches Ok(motion) ==> {
                &&& after.accumulated_x == limited(device.accumulated_x + motion.dx)
                &&& after.accumulated_y == limited(device.accumulated_y + motion.dy)
            }
            &&& after.id == device.id && after.init_state == device.init_state
            &&& after.last_poll == device.last_poll && after.last_report == device.last_report
            &&& after.poll_interval == device.poll_interval && after.report_interval == device.report_interval
        }),
{
}

/// A report carries all motion that waits, X as a movement along X and Y along Y, under
/// the device's own number and as far as 16 bits hold it; afterwards none waits. Without
/// motion there is no report. A report starts the time to the next one.
pub proof fn law_reports_carry_the_waiting_motion(
    device: PointingDevice,
    now: u64,
    event: Option<PointingEvent>,
    after: PointingDevice,
)
    requires
        reports_due(device, now, event, after) || (takes_report(device, event, after) && now == device.last_report),
    ensures
        event is None <==> device.accumulated_x == 0 && device.accumulated_y == 0,
        event matches Some(e) ==> {
            let limited = |v: int|
                if v > 32767 {
                    32767
                } else if v < -32768 {
                    -32768
                } else {
                    v
                };
            &&& e.device_id == device.id
            &&& e.axes[0].axis == Axis::X && e.axes[0].value == limited(device.accumulated_x as int)
            &&& e.axes[1].axis == Axis::Y && e.axes[1].value == limited(device.accumulated_y as int)
            &&& e.axes[2].axis == Axis::Z && e.axes[2].value == 0
            &&& e.axes[0].typ == AxisValType::Rel && e.axes[1].typ == AxisValType::Rel
        },
        after.accumulated_x == 0 && after.accumulated_y == 0,
        after.last_report == (if event is Some {
            now
        } else {
            device.last_report
        }),
        after.last_poll == device.last_poll && after.id == device.id && after.init_state == device.init_state,
        after.poll_interval == device.poll_interval && after.report_interval == device.report_interval,
{
    if let Some(e) = event {
        assert(e.axes@[0] == e.axes[0] && e.axes@[1] == e.axes[1] && e.axes@[2] == e.axes[2]);
    }
}

/// Polls and reports keep their pace: a wait ends exactly one interval after the last
/// poll or report, or at once where that is over, and nobody waits for a report without
/// motion. A clock that was never started starts now.
pub proof fn law_polls_and_reports_keep_their_pace(device: PointingDevice, now: u64)
    requires
        device.last_poll <= now,
        device.last_report <= now,
    ensures
        poll_delay_at(device, now) >= 0,
        device.last_poll + device.poll_interval >= now ==> now + poll_delay_at(device, now) == device.last_poll
            + device.poll_interval,
        device.last_poll + device.poll_interval < now ==> poll_delay_at(device, now) == 0,
        report_delay_at(device, now) is None <==> device.accumulated_x == 0 && device.accumulated_y == 0,
        report_delay_at(device, now) matches Some(delay) ==> {
            &&& delay >= 0
            &&& device.last_report + device.report_interval >= now ==> now + delay == device.last_report
                + device.report_interval
            &&& device.last_report + device.report_interval < now ==> delay == 0
        },
        clocks_started(device, now).last_poll == (if device.last_poll == 0 {
            now
        } else {
            device.last_poll
        }),
        clocks_started(device, now).last_report == (if device.last_report == 0 {
            now
        } else {
            device.last_report
        }),
{
}

/// A device takes the resolution that is asked of it, and none that is asked of another.
pub proof fn law_resolutions_reach_their_device(device: PointingDevice, e: PointingSetCpiEvent, cpi: u16)
    ensures
        requested_cpi(device, e) == Some(cpi) <==> e.device_id == device.id && e.cpi == cpi,
        requested_cpi(device, e) is None <==> e.device_id != device.id,
{
}

/// An attempt asks the sensor unless the device is ready or was given up, and tells which
/// of them it is; a success makes the device ready, a failure counts, and the third one
/// in a row gives it up.
pub proof fn law_attempts_are_counted(state: InitState, failed: u8)
    ensures
        init_step(state) == InitStep::Settled(true) <==> state == InitState::Ready,
        init_step(state) == InitStep::Settled(false) <==> state == InitState::Failed,
        init_begun(InitState::Pending) == InitState::Initializing(0),
        state != InitState::Pending ==> init_begun(state) == state,
        init_finished(InitState::Initializing(failed), true) == InitState::Ready,
        failed < 2 ==> init_finished(InitState::Initializing(failed), false) == InitState::Initializing(
            (failed + 1) as u8,
        ),
        failed >= 2 ==> init_finished(InitState::Initializing(failed), false) == InitState::Failed,
{
}

/// A poll reads a sensor that is ready and has a sample, and no other one.
pub proof fn law_polls_read_ready_sensors(device: PointingDevice)
    ensures
        !reads_sample(device, false),
        reads_sample(device, true) <==> device.init_state is Ready,
{
}

} // verus!
