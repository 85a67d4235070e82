//! Writing of reports to the host, with queued mouse motion coalesced.
//!
//! The writer is a state machine: the caller performs the action that a step asks
//! for and hands the outcome back as the next event.

use vstd::prelude::*;

use crate::ble::motion;
use crate::ble::motion::BleMouseMotion;
use crate::event::Report;
use crate::num;

verus! {

/// Time that a zero-latency link gives further motion to join a run.
///
/// A HID notification can enter the BLE stack much faster than the radio can put it
/// on air. One sample period of a 125 Hz pointing source lets the link receive one
/// fresh summed delta instead of replaying increasingly stale ones.
pub const BLE_MOUSE_COALESCE_WINDOW_MS: u64 = 8;

/// Properties of the link and of the report queue.
#[derive(Clone, Copy, Debug, PartialEq, Eq, Structural)]
pub struct WriterConfig {
    /// Whether the link runs without peripheral latency, so that motion is held back
    /// for [`BLE_MOUSE_COALESCE_WINDOW_MS`] before it is sent.
    pub zero_latency: bool,
    /// Most reports that one run may hold.
    pub channel_size: usize,
}

/// State of the writer.
#[derive(Clone, Copy, Debug)]
pub enum WriterState {
    /// Waiting for a report.
    Idle,
    /// A report is being written as it came.
    Single,
    /// Motion that arrives before the deadline joins the run.
    Window { motion: BleMouseMotion, batch: usize },
    /// Motion that is queued already joins the run.
    Draining { motion: BleMouseMotion, batch: usize },
    /// A run is being written; `pending` comes next.
    Sending { motion: BleMouseMotion, pending: Option<Report> },
}

/// What the caller is to do next.
#[derive(Clone, Copy, Debug)]
pub enum WriterAction {
    /// Wait for a report.
    Receive,
    /// Wait for a report until the window of the run closes.
    ReceiveBeforeDeadline,
    /// Take a report if one is queued.
    TryReceive,
    /// Write a report to the host.
    Write(Report),
}

/// Outcome of an action.
#[derive(Clone, Copy, Debug)]
pub enum WriterEvent {
    Received(Report),
    DeadlineReached,
    QueueEmpty,
    /// A report was written, successfully or not.
    Written(bool),
}

/// Whether an event can be the outcome of what the writer asked for.
pub open spec fn expects(state: WriterState, event: WriterEvent) -> bool {
    match state {
        WriterState::Idle => event is Received,
        WriterState::Single => event is Written,
        WriterState::Window { .. } => event is Received || event is DeadlineReached,
        WriterState::Draining { .. } => event is Received || event is QueueEmpty,
        WriterState::Sending { .. } => event is Written,
    }
}

/// Whether a state can be reached: a run that collects holds fewer reports than it
/// may and is not spent.
pub open spec fn writer_wf(state: WriterState, config: WriterConfig) -> bool {
    match state {
        WriterState::Window { motion, batch } => batch < config.channel_size && !motion::is_spent(motion),
        WriterState::Draining { motion, batch } => batch < config.channel_size && !motion::is_spent(motion),
        _ => true,
    }
}

/// Sends what is left of a run, and goes on with `pending` when nothing is left.
pub open spec fn sending(m: BleMouseMotion, pending: Option<Report>, config: WriterConfig) -> (
    WriterState,
    WriterAction,
) {
    if motion::is_spent(m) {
        next_report(pending, config)
    } else {
        (
            WriterState::Sending { motion: motion::after_head(m), pending },
            WriterAction::Write(Report::MouseReport(motion::head_report(m))),
        )
    }
}

/// Goes on with a report that is pending, or waits for one.
pub open spec fn next_report(pending: Option<Report>, config: WriterConfig) -> (WriterState, WriterAction) {
    match pending {
        Some(report) => begin(report, config),
        None => (WriterState::Idle, WriterAction::Receive),
    }
}

/// Starts with a report: plain motion opens a run, anything else is written as it is.
pub open spec fn begin(report: Report, config: WriterConfig) -> (WriterState, WriterAction) {
    match report {
        Report::MouseReport(mouse) if motion::is_motion(mouse) => {
            let m = BleMouseMotion { buttons: mouse.buttons, x: mouse.x as i32, y: mouse.y as i32 };
            if config.channel_size <= 1 {
                (
                    WriterState::Sending { motion: motion::after_head(m), pending: None },
                    WriterAction::Write(Report::MouseReport(motion::head_report(m))),
                )
            } else if config.zero_latency {
                (WriterState::Window { motion: m, batch: 1 }, WriterAction::ReceiveBeforeDeadline)
            } else {
                (WriterState::Draining { motion: m, batch: 1 }, WriterAction::TryReceive)
            }
        },
        _ => (WriterState::Single, WriterAction::Write(report)),
    }
}

/// A report arrived while a run collects. A report that joins extends the run until
/// the run is full; any other report ends it and comes next.
pub open spec fn collect(m: BleMouseMotion, batch: usize, report: Report, in_window: bool, config: WriterConfig) -> (
    WriterState,
    WriterAction,
) {
    match report {
        Report::MouseReport(mouse) if motion::joins(m, mouse) => {
            let run = motion::joined(m, mouse);
            if batch + 1 >= config.channel_size {
                sending(run, None, config)
            } else if in_window {
                (
                    WriterState::Window { motion: run, batch: (batch + 1) as usize },
                    WriterAction::ReceiveBeforeDeadline,
                )
            } else {
                (WriterState::Draining { motion: run, batch: (batch + 1) as usize }, WriterAction::TryReceive)
            }
        },
        _ => sending(m, Some(report), config),
    }
}

/// Step of the writer. A failed write of a run drops the rest of the run.
pub open spec fn writer_step(state: WriterState, event: WriterEvent, config: WriterConfig) -> (
    WriterState,
    WriterAction,
) {
    match (state, event) {
        (WriterState::Window { motion, batch }, WriterEvent::Received(report)) => collect(
            motion,
            batch,
            report,
            true,
            config,
        ),
        (WriterState::Draining { motion, batch }, WriterEvent::Received(report)) => collect(
            motion,
            batch,
            report,
            false,
            config,
        ),
        (_, WriterEvent::Received(report)) => begin(report, config),
        (WriterState::Window { motion, batch }, _) => (
            WriterState::Draining { motion, batch },
            WriterAction::TryReceive,
        ),
        (WriterState::Draining { motion, .. }, _) => sending(motion, None, config),
        (WriterState::Sending { motion, pending }, WriterEvent::Written(true)) => sending(motion, pending, config),
        (WriterState::Sending { pending, .. }, _) => next_report(pending, config),
        (_, _) => (WriterState::Idle, WriterAction::Receive),
    }
}

/// Starts with a report.
fn begin_with(report: Report, config: &WriterConfig) -> (r: (WriterState, WriterAction))
    ensures
        r == begin(report, *config),
        writer_wf(r.0, *config),
{
    if let Report::MouseReport(mouse) = report {
        if let Some(first) = BleMouseMotion::new(&mouse) {
            let mut m = first;
            if config.channel_size > 1 {
                return if config.zero_latency {
                    (WriterState::Window { motion: m, batch: 1 }, WriterAction::ReceiveBeforeDeadline)
                } else {
                    (WriterState::Draining { motion: m, batch: 1 }, WriterAction::TryReceive)
                };
            }
            if let Some(head) = m.next_report() {
                return (
                    WriterState::Sending { motion: m, pending: None },
                    WriterAction::Write(Report::MouseReport(head)),
                );
            }
        }
    }
    (WriterState::Single, WriterAction::Write(report))
}

/// Sends what is left of a run.
fn send_run(motion: BleMouseMotion, pending: Option<Report>, config: &WriterConfig) -> (r: (
    WriterState,
    WriterAction,
))
    ensures
        r == sending(motion, pending, *config),
        writer_wf(r.0, *config),
{
    let mut m = motion;
    match m.next_report() {
        Some(head) => (
            WriterState::Sending { motion: m, pending },
            WriterAction::Write(Report::MouseReport(head)),
        ),
        None => go_on(pending, config),
    }
}

/// Goes on with a report that is pending, or waits for one.
fn go_on(pending: Option<Report>, config: &WriterConfig) -> (r: (WriterState, WriterAction))
    ensures
        r == next_report(pending, *config),
        writer_wf(r.0, *config),
{
    match pending {
        Some(report) => begin_with(report, config),
        None => (WriterState::Idle, WriterAction::Receive),
    }
}

/// A report arrived while a run collects.
fn collect_report(motion: BleMouseMotion, batch: usize, report: Report, in_window: bool, config: &WriterConfig) -> (r:
    (WriterState, WriterAction))
    requires
        batch < config.channel_size,
    ensures
        r == collect(motion, batch, report, in_window, *config),
        writer_wf(r.0, *config),
{
    if let Report::MouseReport(mouse) = report {
        let mut run = motion;
        if run.try_merge(&mouse) {
            proof {
                motion::law_joining_keeps_direction(motion, mouse);
            }
            if batch + 1 >= config.channel_size {
                return send_run(run, None, config);
            }
            return if in_window {
                (WriterState::Window { motion: run, batch: batch + 1 }, WriterAction::ReceiveBeforeDeadline)
            } else {
                (WriterState::Draining { motion: run, batch: batch + 1 }, WriterAction::TryReceive)
            };
        }
    }
    send_run(motion, Some(report), config)
}

/// First action of a writer.
pub fn start() -> (r: (WriterState, WriterAction))
    ensures
        r == (WriterState::Idle, WriterAction::Receive),
{
    (WriterState::Idle, WriterAction::Receive)
}

/// Step of the writer after the outcome `event` of its last action.
pub fn step(state: WriterState, event: WriterEvent, config: &WriterConfig) -> (r: (WriterState, WriterAction))
    requires
        expects(state, event),
        writer_wf(state, *config),
    ensures
        r == writer_step(state, event, *config),
        writer_wf(r.0, *config),
{
    match (state, event) {
        (WriterState::Window { motion, batch }, WriterEvent::Received(report)) => collect_report(
            motion,
            batch,
            report,
            true,
            config,
        ),
        (WriterState::Draining { motion, batch }, WriterEvent::Received(report)) => collect_report(
            motion,
            batch,
            report,
            false,
            config,
        ),
        (_, WriterEvent::Received(report)) => begin_with(report, config),
        (WriterState::Window { motion, batch }, _) => (
            WriterState::Draining { motion, batch },
            WriterAction::TryReceive,
        ),
        (WriterState::Draining { motion, .. }, _) => send_run(motion, None, config),
        (WriterState::Sending { motion, pending }, WriterEvent::Written(true)) => send_run(motion, pending, config),
        (WriterState::Sending { pending, .. }, _) => go_on(pending, config),
        (_, _) => (WriterState::Idle, WriterAction::Receive),
    }
}

/// Cursor motion of a report.
pub open spec fn motion_of(report: Report) -> (int, int) {
    match report {
        Report::MouseReport(mouse) => (mouse.x as int, mouse.y as int),
        _ => (0, 0),
    }
}

/// Cursor motion that the writer still has to send.
pub open spec fn owed(state: WriterState) -> (int, int) {
    match state {
        WriterState::Window { motion, .. } => (motion.x as int, motion.y as int),
        WriterState::Draining { motion, .. } => (motion.x as int, motion.y as int),
        WriterState::Sending { motion, pending } => {
            let p = match pending {
                Some(report) => motion_of(report),
                None => (0, 0),
            };
            (motion.x + p.0, motion.y + p.1)
        },
        _ => (0, 0),
    }
}

/// Cursor motion that an event brings in.
pub open spec fn brought(event: WriterEvent) -> (int, int) {
    match event {
        WriterEvent::Received(report) => motion_of(report),
        _ => (0, 0),
    }
}

/// Cursor motion that an action sends.
pub open spec fn sent(action: WriterAction) -> (int, int) {
    match action {
        WriterAction::Write(report) => motion_of(report),
        _ => (0, 0),
    }
}

/// Run that a state holds.
pub open spec fn held_run(state: WriterState) -> BleMouseMotion {
    match state {
        WriterState::Window { motion, .. } => motion,
        WriterState::Draining { motion, .. } => motion,
        WriterState::Sending { motion, .. } => motion,
        _ => BleMouseMotion { buttons: 0, x: 0, y: 0 },
    }
}

/// Starting with a report accounts for its motion.
proof fn lemma_begin_conserves(report: Report, config: WriterConfig)
    ensures
        ({
            let (after, action) = begin(report, config);
            &&& owed(after).0 + sent(action).0 == motion_of(report).0
            &&& owed(after).1 + sent(action).1 == motion_of(report).1
        }),
{
}

/// Sending accounts for the motion of the run and of the pending report.
proof fn lemma_sending_conserves(m: BleMouseMotion, pending: Option<Report>, config: WriterConfig)
    ensures
        ({
            let (after, action) = sending(m, pending, config);
            let p = match pending {
                Some(report) => motion_of(report),
                None => (0, 0),
            };
            &&& owed(after).0 + sent(action).0 == m.x + p.0
            &&& owed(after).1 + sent(action).1 == m.y + p.1
        }),
{
    if let Some(report) = pending {
        lemma_begin_conserves(report, config);
    }
}

/// Collecting accounts for the motion of the run and of the report.
proof fn lemma_collect_conserves(
    m: BleMouseMotion,
    batch: usize,
    report: Report,
    in_window: bool,
    config: WriterConfig,
)
    requires
        report matches Report::MouseReport(mouse) ==> motion::joins(m, mouse) ==> num::fits_i32(m.x + mouse.x)
            && num::fits_i32(m.y + mouse.y),
    ensures
        ({
            let (after, action) = collect(m, batch, report, in_window, config);
            &&& owed(after).0 + sent(action).0 == m.x + motion_of(report).0
            &&& owed(after).1 + sent(action).1 == m.y + motion_of(report).1
        }),
{
    lemma_sending_conserves(m, Some(report), config);
    if let Report::MouseReport(mouse) = report {
        lemma_sending_conserves(motion::joined(m, mouse), None, config);
    }
}

/// The writer conserves motion: in every step what it owed and what came in equals
/// what it sends and what it owes afterwards, unless a write fails or a run with the
/// report that joins it leaves the range of `i32`.
pub proof fn law_writer_conserves_motion(state: WriterState, event: WriterEvent, config: WriterConfig)
    requires
        expects(state, event),
        writer_wf(state, config),
        event != WriterEvent::Written(false),
        event matches WriterEvent::Received(Report::MouseReport(mouse)) ==> motion::joins(held_run(state), mouse)
            ==> num::fits_i32(held_run(state).x + mouse.x) && num::fits_i32(held_run(state).y + mouse.y),
    ensures
        ({
            let (after, action) = writer_step(state, event, config);
            &&& owed(state).0 + brought(event).0 == owed(after).0 + sent(action).0
            &&& owed(state).1 + brought(event).1 == owed(after).1 + sent(action).1
        }),
{
    match (state, event) {
        (WriterState::Window { motion, batch }, WriterEvent::Received(report)) => {
            lemma_collect_conserves(motion, batch, report, true, config);
        },
        (WriterState::Draining { motion, batch }, WriterEvent::Received(report)) => {
            lemma_collect_conserves(motion, batch, report, false, config);
        },
        (WriterState::Idle, WriterEvent::Received(report)) => {
            lemma_begin_conserves(report, config);
        },
        (WriterState::Draining { motion, .. }, _) => {
            lemma_sending_conserves(motion, None, config);
        },
        (WriterState::Sending { motion, pending }, _) => {
            lemma_sending_conserves(motion, pending, config);
        },
        (_, _) => {},
    }
}

/// Ordering barriers hold: a report that is no plain motion, or that cannot join the
/// run, is written as the next report after the run and unchanged, and nothing that
/// comes later overtakes it.
pub proof fn law_barriers_come_next(m: BleMouseMotion, batch: usize, report: Report, in_window: bool, config: WriterConfig)
    requires
        !motion::is_spent(m),
        !(report matches Report::MouseReport(mouse) && motion::joins(m, mouse)),
    ensures
        ({
            let (after, action) = collect(m, batch, report, in_window, config);
            &&& action == WriterAction::Write(Report::MouseReport(motion::head_report(m)))
            &&& after == (WriterState::Sending { motion: motion::after_head(m), pending: Some(report) })
            &&& forall|left: BleMouseMotion|
                motion::is_spent(left) ==> #[trigger] sending(left, Some(report), config) == begin(report, config)
        }),
{
}

/// Whether a report moves the cursor and does nothing else.
pub open spec fn is_plain_motion(report: Report) -> bool {
    report matches Report::MouseReport(mouse) && mouse.wheel == 0 && mouse.pan == 0 && (mouse.x != 0 || mouse.y != 0)
}

/// A report that comes while the writer waits is written at once and unchanged, unless it
/// is plain motion. Plain motion opens a run of its own, which further motion can join:
/// on a link without latency until the window closes, on another one as far as it is
/// queued already, and not at all where a run may hold one report only.
pub proof fn law_reports_are_taken_up(report: Report, config: WriterConfig)
    ensures
        ({
            let (after, action) = writer_step(WriterState::Idle, WriterEvent::Received(report), config);
            &&& !is_plain_motion(report) ==> action == WriterAction::Write(report) && after is Single
            &&& is_plain_motion(report) ==> {
                let mouse = report->MouseReport_0;
                let run = BleMouseMotion { buttons: mouse.buttons, x: mouse.x as i32, y: mouse.y as i32 };
                &&& config.channel_size <= 1 ==> action == WriterAction::Write(report) && after
                    == (WriterState::Sending { motion: BleMouseMotion { buttons: mouse.buttons, x: 0, y: 0 }, pending: None })
                &&& config.channel_size > 1 && config.zero_latency ==> action is ReceiveBeforeDeadline && after
                    == (WriterState::Window { motion: run, batch: 1 })
                &&& config.channel_size > 1 && !config.zero_latency ==> action is TryReceive && after
                    == (WriterState::Draining { motion: run, batch: 1 })
            }
        }),
{
}

/// A run collects until it is full, its window has closed and the queue is empty, or a
/// report comes that cannot join; then it is sent, and that report comes next. A report
/// that joins is no longer written by itself.
pub proof fn law_runs_collect_and_are_sent(
    m: BleMouseMotion,
    batch: usize,
    in_window: bool,
    event: WriterEvent,
    config: WriterConfig,
)
    requires
        batch < config.channel_size,
        m.x != 0 || m.y != 0,
        event is Received || (event is DeadlineReached && in_window) || (event is QueueEmpty && !in_window),
    ensures
        ({
            let state = if in_window {
                WriterState::Window { motion: m, batch }
            } else {
                WriterState::Draining { motion: m, batch }
            };
            let (after, action) = writer_step(state, event, config);
            let head = WriterAction::Write(Report::MouseReport(motion::head_report(m)));
            let rest = motion::after_head(m);
            &&& event is DeadlineReached ==> action is TryReceive && after == (WriterState::Draining {
                motion: m,
                batch,
            })
            &&& event is QueueEmpty ==> action == head && after == (WriterState::Sending { motion: rest, pending: None })
            &&& event matches WriterEvent::Received(report) ==> {
                let joining = report is MouseReport && motion::joins(m, report->MouseReport_0);
                let more = motion::joined(m, report->MouseReport_0);
                &&& !joining ==> action == head && after == (WriterState::Sending {
                    motion: rest,
                    pending: Some(report),
                })
                &&& joining && batch + 1 < config.channel_size && in_window ==> action is ReceiveBeforeDeadline
                    && after == (WriterState::Window { motion: more, batch: (batch + 1) as usize })
                &&& joining && batch + 1 < config.channel_size && !in_window ==> action is TryReceive && after
                    == (WriterState::Draining { motion: more, batch: (batch + 1) as usize })
                &&& joining && batch + 1 == config.channel_size ==> action == WriterAction::Write(
                    Report::MouseReport(motion::head_report(more)),
                ) && after == (WriterState::Sending { motion: motion::after_head(more), pending: None })
            }
        }),
{
    if let WriterEvent::Received(Report::MouseReport(mouse)) = event {
        if motion::joins(m, mouse) {
            motion::law_joining_keeps_direction(m, mouse);
        }
    }
}

/// A run that is being sent goes on until nothing is left of it; then the report that is
/// pending is taken up as if it came just now, and without one the writer waits. A failed
/// write drops the rest of the run, but not the report that is pending. A single report
/// is written once, whatever comes of it.
pub proof fn law_runs_are_sent_to_their_end(
    m: BleMouseMotion,
    pending: Option<Report>,
    written: bool,
    config: WriterConfig,
)
    ensures
        ({
            let (after, action) = writer_step(
                WriterState::Sending { motion: m, pending },
                WriterEvent::Written(written),
                config,
            );
            let goes_on = written && (m.x != 0 || m.y != 0);
            &&& goes_on ==> action == WriterAction::Write(Report::MouseReport(motion::head_report(m))) && after
                == (WriterState::Sending { motion: motion::after_head(m), pending })
            &&& !goes_on && pending is None ==> action is Receive && after is Idle
            &&& !goes_on ==> (pending matches Some(report) ==> (after, action) == writer_step(
                WriterState::Idle,
                WriterEvent::Received(report),
                config,
            ))
        }),
        ({
            let (after, action) = writer_step(WriterState::Single, WriterEvent::Written(written), config);
            action is Receive && after is Idle
        }),
{
}

/// State of a writer that started with nothing to do, after a series of events.
pub open spec fn state_after(events: Seq<WriterEvent>, config: WriterConfig) -> WriterState
    decreases events.len(),
{
    if events.len() == 0 {
        WriterState::Idle
    } else {
        writer_step(state_after(events.drop_last(), config), events.last(), config).0
    }
}

/// Whether each event of a series is the outcome of what the writer asked for.
pub open spec fn is_series(events: Seq<WriterEvent>, config: WriterConfig) -> bool
    decreases events.len(),
{
    events.len() == 0 || (is_series(events.drop_last(), config) && expects(
        state_after(events.drop_last(), config),
        events.last(),
    ))
}

/// One report, unless it is plain motion.
pub open spec fn barrier(report: Report) -> Seq<Report> {
    if is_plain_motion(report) {
        Seq::empty()
    } else {
        seq![report]
    }
}

/// Reports that were received in a series of events, in order and without plain motion.
pub open spec fn barriers_received(events: Seq<WriterEvent>) -> Seq<Report>
    decreases events.len(),
{
    if events.len() == 0 {
        Seq::empty()
    } else {
        barriers_received(events.drop_last()) + (match events.last() {
            WriterEvent::Received(report) => barrier(report),
            _ => Seq::empty(),
        })
    }
}

/// Reports that were written in a series of events, in order and without plain motion.
pub open spec fn barriers_written(events: Seq<WriterEvent>, config: WriterConfig) -> Seq<Report>
    decreases events.len(),
{
    if events.len() == 0 {
        Seq::empty()
    } else {
        barriers_written(events.drop_last(), config) + (match writer_step(
            state_after(events.drop_last(), config),
            events.last(),
            config,
        ).1 {
            WriterAction::Write(report) => barrier(report),
            _ => Seq::empty(),
        })
    }
}

/// The report that comes next, unless it is plain motion or there is none.
pub open spec fn barrier_pending(state: WriterState) -> Seq<Report> {
    match state {
        WriterState::Sending { pending: Some(report), .. } => barrier(report),
        _ => Seq::empty(),
    }
}

/// In one step a barrier is written or stays pending, in its turn.
proof fn lemma_step_keeps_barriers(state: WriterState, event: WriterEvent, config: WriterConfig)
    requires
        expects(state, event),
    ensures
        ({
            let (after, action) = writer_step(state, event, config);
            barrier_pending(state) + (match event {
                WriterEvent::Received(report) => barrier(report),
                _ => Seq::empty(),
            }) == (match action {
                WriterAction::Write(report) => barrier(report),
                _ => Seq::empty(),
            }) + barrier_pending(after)
        }),
{
    let (after, action) = writer_step(state, event, config);
    let before = barrier_pending(state) + (match event {
        WriterEvent::Received(report) => barrier(report),
        _ => Seq::empty(),
    });
    let then = (match action {
        WriterAction::Write(report) => barrier(report),
        _ => Seq::empty(),
    }) + barrier_pending(after);
    assert(before =~= then);
}

/// Every report that is received and is no plain motion is written once, unchanged and in
/// order: at any time those that were written, followed by the one that comes next, are
/// those that were received.
pub proof fn law_barriers_are_written_in_order(events: Seq<WriterEvent>, config: WriterConfig)
    requires
        is_series(events, config),
    ensures
        barriers_written(events, config) + barrier_pending(state_after(events, config)) == barriers_received(events),
    decreases events.len(),
{
    if events.len() == 0 {
        assert(barriers_written(events, config) + barrier_pending(state_after(events, config)) =~= Seq::empty());
    } else {
        let past = events.drop_last();
        law_barriers_are_written_in_order(past, config);
        let state = state_after(past, config);
        lemma_step_keeps_barriers(state, events.last(), config);
        let written = match writer_step(state, events.last(), config).1 {
            WriterAction::Write(report) => barrier(report),
            _ => Seq::empty(),
        };
        let received = match events.last() {
            WriterEvent::Received(report) => barrier(report),
            _ => Seq::empty(),
        };
        assert(barriers_written(past, config) + written + barrier_pending(state_after(events, config))
            =~= barriers_written(past, config) + (written + barrier_pending(state_after(events, config))));
        assert(barriers_written(past, config) + barrier_pending(state) + received =~= barriers_written(past, config) + (
        barrier_pending(state) + received));
    }
}

/// Nothing overtakes motion: a report that is no plain motion is written only when no
/// motion is left to be sent before it.
pub proof fn law_motion_is_not_overtaken(state: WriterState, event: WriterEvent, config: WriterConfig)
    requires
        expects(state, event),
        event != WriterEvent::Written(false),
    ensures
        ({
            let (after, action) = writer_step(state, event, config);
            action matches WriterAction::Write(report) ==> {
                &&& !is_plain_motion(report) ==> held_run(state).x == 0 && held_run(state).y == 0 && after is Single
                &&& is_plain_motion(report) ==> after is Sending
            }
        }),
{
}

/// Whatever comes of what the writer asks for, it can go on: it takes any report where it
/// waits, the end of a window and an empty queue where it asks for them, and the outcome
/// of a write, and it never waits for anything else.
pub proof fn law_every_outcome_is_taken(
    state: WriterState,
    event: WriterEvent,
    config: WriterConfig,
    report: Report,
    written: bool,
)
    requires
        expects(state, event),
        writer_wf(state, config),
    ensures
        ({
            let (after, action) = writer_step(state, event, config);
            &&& action is Receive ==> expects(after, WriterEvent::Received(report)) && after is Idle
            &&& action is ReceiveBeforeDeadline ==> expects(after, WriterEvent::Received(report)) && expects(
                after,
                WriterEvent::DeadlineReached,
            )
            &&& action is TryReceive ==> expects(after, WriterEvent::Received(report)) && expects(
                after,
                WriterEvent::QueueEmpty,
            )
            &&& action is Write ==> expects(after, WriterEvent::Written(written))
        }),
        expects(WriterState::Idle, WriterEvent::Received(report)),
{
}

} // verus!
