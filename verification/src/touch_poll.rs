//! One poll of the touchpad, from the first transfer to the events that it publishes.
//!
//! A poll is a state machine: the caller performs the action that a turn asks for and
//! hands the outcome back as the next event.

use vstd::prelude::*;

use crate::event::PointingEvent;
use crate::touchpad;
use crate::touchpad::{
    RegisterWrite, TouchReadResult, Touchpad, REG_PRODUCT_NUMBER, TOUCH_REPORT_INTERVAL, TOUCH_WAKE_PAUSE_MS,
};

verus! {

/// Number of the settings that a pad is initialised with.
pub const SETTINGS_LEN: usize = 20;

/// Where a poll stands: the action whose outcome comes next.
#[derive(Clone, Copy, Debug)]
pub enum PollState {
    /// Asking for the product number.
    ProbeProduct,
    Wake,
    EndWake,
    WakePause,
    /// Asking for the product number again, now that the pad is awake.
    ConfirmProduct,
    /// Writing a setting; `ok` tells whether the pad took all settings before it.
    Configure { index: usize, ok: bool },
    ReadBlock,
    AckReset,
    EndReset,
    /// Ending the session in which `data` was read.
    EndBlock { data: [u8; 10] },
    /// Having the module's settings scale a movement.
    Scale,
    /// Waiting before a lost pad is probed.
    Settle,
    Finished,
}

/// What the caller is to do next.
#[derive(Clone, Copy, Debug, PartialEq, Eq, Structural)]
pub enum PollAction {
    Write(RegisterWrite),
    /// Read two bytes from a register.
    ReadWord(u16),
    /// Read the event block.
    ReadBlock,
    Pause(u64),
    Scale { x: i16, y: i16 },
    /// The poll is over.
    Done,
}

/// Outcome of an action.
#[derive(Clone, Copy, Debug)]
pub enum PollEvent {
    Wrote(bool),
    Word(Option<[u8; 2]>),
    Block(Option<[u8; 10]>),
    PauseElapsed,
    Scaled { x: i16, y: i16 },
}

/// Next state and action, and what the poll publishes with them.
#[derive(Clone, Copy, Debug)]
pub struct PollTurn {
    pub state: PollState,
    pub action: PollAction,
    pub pulse: Option<PointingEvent>,
    pub motion: Option<PointingEvent>,
}

/// Whether an event can be the outcome of what a poll asked for.
pub open spec fn expects(state: PollState, event: PollEvent) -> bool {
    match state {
        PollState::ProbeProduct | PollState::ConfirmProduct => event is Word,
        PollState::Wake | PollState::EndWake | PollState::AckReset | PollState::EndReset => event is Wrote,
        PollState::Configure { index, .. } => index < SETTINGS_LEN && event is Wrote,
        PollState::EndBlock { .. } => event is Wrote,
        PollState::WakePause | PollState::Settle => event is PauseElapsed,
        PollState::ReadBlock => event is Block,
        PollState::Scale => event is Scaled,
        PollState::Finished => false,
    }
}

/// Whether a pad answered with its product number.
pub open spec fn answered(word: Option<[u8; 2]>) -> bool {
    touchpad::names_product(word)
}

/// The write that ends a session.
pub open spec fn end_write() -> RegisterWrite {
    RegisterWrite::Byte { reg: touchpad::REG_END_COMMS, val: 0 }
}

/// How a turn concludes or goes on.
pub enum Conclusion {
    /// The poll goes on.
    Continue { state: PollState, action: PollAction },
    /// Initialisation succeeded and the event block is read.
    Initialised,
    /// The pad is not there.
    Unavailable,
    /// The pad was reset.
    PadReset,
    /// A sample was decoded; a movement is scaled before it counts.
    Sampled(TouchReadResult),
    /// A sample counts.
    Counted(TouchReadResult),
}

/// How an event lets a poll go on.
pub open spec fn conclusion(pad: Touchpad, state: PollState, event: PollEvent, gestures_enabled: bool) -> Conclusion {
    match (state, event) {
        (PollState::ProbeProduct, PollEvent::Word(word)) => if answered(word) {
            Conclusion::Continue {
                state: PollState::Wake,
                action: PollAction::Write(
                    RegisterWrite::Byte {
                        reg: touchpad::REG_SYSTEM_CONTROL_1,
                        val: touchpad::SYSTEM_CONTROL_1_WAKE,
                    },
                ),
            }
        } else {
            Conclusion::Unavailable
        },
        (PollState::Wake, _) => Conclusion::Continue {
            state: PollState::EndWake,
            action: PollAction::Write(end_write()),
        },
        (PollState::EndWake, _) => Conclusion::Continue {
            state: PollState::WakePause,
            action: PollAction::Pause(TOUCH_WAKE_PAUSE_MS),
        },
        (PollState::WakePause, _) => Conclusion::Continue {
            state: PollState::ConfirmProduct,
            action: PollAction::ReadWord(REG_PRODUCT_NUMBER),
        },
        (PollState::ConfirmProduct, PollEvent::Word(word)) => if answered(word) {
            Conclusion::Continue {
                state: PollState::Configure { index: 0, ok: true },
                action: PollAction::Write(touchpad::settings()[0]),
            }
        } else {
            Conclusion::Unavailable
        },
        (PollState::Configure { index, ok }, PollEvent::Wrote(wrote)) => if index + 1 < SETTINGS_LEN {
            Conclusion::Continue {
                state: PollState::Configure { index: (index + 1) as usize, ok: ok && wrote },
                action: PollAction::Write(touchpad::settings()[index + 1]),
            }
        } else if ok && wrote {
            Conclusion::Initialised
        } else {
            Conclusion::Unavailable
        },
        (PollState::ReadBlock, PollEvent::Block(block)) => match block {
            None => Conclusion::Counted(TouchReadResult::ReadFailed),
            Some(data) => if data@[3] & touchpad::SYSTEM_INFO_0_SHOW_RESET != 0 {
                Conclusion::Continue {
                    state: PollState::AckReset,
                    action: PollAction::Write(
                        RegisterWrite::Byte {
                            reg: touchpad::REG_SYSTEM_CONTROL_0,
                            val: touchpad::SYSTEM_CONTROL_0_ACK_RESET,
                        },
                    ),
                }
            } else {
                Conclusion::Continue {
                    state: PollState::EndBlock { data },
                    action: PollAction::Write(end_write()),
                }
            },
        },
        (PollState::AckReset, _) => Conclusion::Continue {
            state: PollState::EndReset,
            action: PollAction::Write(end_write()),
        },
        (PollState::EndReset, _) => Conclusion::PadReset,
        (PollState::EndBlock { data }, PollEvent::Wrote(wrote)) => if wrote {
            Conclusion::Sampled(
                touchpad::block_result(
                    data@,
                    touchpad::fingers_after(pad.multi_finger_samples, data@),
                    gestures_enabled,
                ),
            )
        } else {
            Conclusion::Counted(TouchReadResult::ReadFailed)
        },
        (PollState::Scale, PollEvent::Scaled { x, y }) => Conclusion::Counted(TouchReadResult::Motion { x, y }),
        _ => Conclusion::Continue { state: PollState::Finished, action: PollAction::Done },
    }
}

/// Pad when a sample starts to be counted: two-finger samples are counted when the block
/// is decoded.
pub open spec fn decoded(pad: Touchpad, state: PollState) -> Touchpad {
    match state {
        PollState::EndBlock { data } => Touchpad {
            multi_finger_samples: touchpad::fingers_after(pad.multi_finger_samples, data@),
            ..pad
        },
        _ => pad,
    }
}

/// Whether `turn` and `after` are what counting a sample leads to.
pub open spec fn counts(pad: Touchpad, result: TouchReadResult, now: u64, turn: PollTurn, after: Touchpad) -> bool {
    let lost = result is ReadFailed && pad.read_failures + 1 >= touchpad::TOUCH_READ_FAILURE_REINIT_THRESHOLD;
    &&& after == touchpad::polled(pad, result, now)
    &&& touchpad::is_event(turn.pulse, pad.device_id, touchpad::pulse_axes(result))
    &&& touchpad::is_event(
        turn.motion,
        pad.device_id,
        if !(result is ReadFailed) && now - pad.last_report >= TOUCH_REPORT_INTERVAL {
            let s = touchpad::sampled(pad, result, now);
            touchpad::motion_axes(s.acc_x, s.acc_y)
        } else {
            None
        },
    )
    &&& turn.state == (if lost {
        PollState::Settle
    } else {
        PollState::Finished
    })
    &&& turn.action == (if lost {
        PollAction::Pause(touchpad::TOUCH_REINIT_PAUSE_MS)
    } else {
        PollAction::Done
    })
}

/// Whether a turn publishes nothing.
pub open spec fn is_silent(turn: PollTurn) -> bool {
    turn.pulse is None && turn.motion is None
}

/// Pad that was initialised.
pub open spec fn initialised(pad: Touchpad, now: u64) -> Touchpad {
    Touchpad {
        ready: true,
        read_failures: 0,
        next_probe: 0,
        next_poll: (now + 8_000) as u64,
        poll_interval: 8_000,
        last_activity: now,
        last_report: now,
        unavailable_since: None,
        acc_x: 0,
        acc_y: 0,
        ..pad
    }
}

/// Whether `turn` and `after` are what an event leads to.
pub open spec fn polls(
    pad: Touchpad,
    state: PollState,
    event: PollEvent,
    gestures_enabled: bool,
    now: u64,
    turn: PollTurn,
    after: Touchpad,
) -> bool {
    match conclusion(pad, state, event, gestures_enabled) {
        Conclusion::Continue { state: next, action } => {
            &&& after == pad
            &&& turn.state == next
            &&& turn.action == action
            &&& is_silent(turn)
        },
        Conclusion::Initialised => {
            &&& after == initialised(pad, now)
            &&& turn.state == PollState::ReadBlock
            &&& turn.action == PollAction::ReadBlock
            &&& is_silent(turn)
        },
        Conclusion::Unavailable => {
            &&& after == touchpad::probing(pad, now)
            &&& turn.state == PollState::Finished
            &&& turn.action == PollAction::Done
            &&& is_silent(turn)
        },
        Conclusion::PadReset => {
            &&& after == touchpad::polled(
                touchpad::after_reset(pad, now),
                TouchReadResult::Idle { touching: false },
                now,
            )
            &&& turn.state == PollState::Finished
            &&& turn.action == PollAction::Done
            &&& is_silent(turn)
        },
        Conclusion::Sampled(TouchReadResult::Motion { x, y }) => {
            &&& after == decoded(pad, state)
            &&& turn.state == PollState::Scale
            &&& turn.action == (PollAction::Scale { x, y })
            &&& is_silent(turn)
        },
        Conclusion::Sampled(result) => counts(decoded(pad, state), result, now, turn, after),
        Conclusion::Counted(result) => counts(pad, result, now, turn, after),
    }
}

/// Start of a poll.
pub open spec fn first_action(pad: Touchpad) -> (PollState, PollAction) {
    if pad.ready {
        (PollState::ReadBlock, PollAction::ReadBlock)
    } else {
        (PollState::ProbeProduct, PollAction::ReadWord(REG_PRODUCT_NUMBER))
    }
}

/// A turn that goes on without publishing anything.
fn go_on(state: PollState, action: PollAction) -> (turn: PollTurn)
    ensures
        turn.state == state,
        turn.action == action,
        is_silent(turn),
{
    PollTurn { state, action, pulse: None, motion: None }
}

/// Counts a sample.
fn count(pad: &mut Touchpad, result: TouchReadResult, now: u64) -> (turn: PollTurn)
    requires
        old(pad).wf_at(now),
    ensures
        counts(*old(pad), result, now, turn, *final(pad)),
        final(pad).wf_at(now),
{
    let output = pad.on_read(result, now);
    if output.pause_ms > 0 {
        PollTurn {
            state: PollState::Settle,
            action: PollAction::Pause(output.pause_ms),
            pulse: output.pulse,
            motion: output.motion,
        }
    } else {
        PollTurn { state: PollState::Finished, action: PollAction::Done, pulse: output.pulse, motion: output.motion }
    }
}

/// The write of one setting.
fn setting(index: usize) -> (write: RegisterWrite)
    requires
        index < SETTINGS_LEN,
    ensures
        write == touchpad::settings()[index as int],
{
    let writes = touchpad::init_writes();
    writes[index]
}

impl Touchpad {
    /// Starts a poll: a pad that is not ready is initialised first.
    pub fn begin_poll(&self) -> (first: (PollState, PollAction))
        ensures
            first == first_action(*self),
    {
        if self.ready {
            (PollState::ReadBlock, PollAction::ReadBlock)
        } else {
            (PollState::ProbeProduct, PollAction::ReadWord(REG_PRODUCT_NUMBER))
        }
    }

    /// Goes on with a poll. Initialisation writes every setting, whether or not the pad
    /// took the ones before, and succeeds if it took all of them.
    pub fn poll_step(&mut self, state: PollState, event: PollEvent, gestures_enabled: bool, now: u64) -> (turn: PollTurn)
        requires
            old(self).wf_at(now),
            expects(state, event),
        ensures
            polls(*old(self), state, event, gestures_enabled, now, turn, *final(self)),
            final(self).wf_at(now),
            turn.state matches PollState::Configure { index, .. } ==> index < SETTINGS_LEN,
    {
        match (state, event) {
            (PollState::ProbeProduct, PollEvent::Word(word)) => {
                if touchpad::product_found(word) {
                    go_on(PollState::Wake, PollAction::Write(touchpad::wake()))
                } else {
                    self.init_finished(false, now);
                    go_on(PollState::Finished, PollAction::Done)
                }
            },
            (PollState::Wake, PollEvent::Wrote(_)) => go_on(
                PollState::EndWake,
                PollAction::Write(touchpad::end_session()),
            ),
            (PollState::EndWake, PollEvent::Wrote(_)) => go_on(
                PollState::WakePause,
                PollAction::Pause(TOUCH_WAKE_PAUSE_MS),
            ),
            (PollState::WakePause, PollEvent::PauseElapsed) => go_on(
                PollState::ConfirmProduct,
                PollAction::ReadWord(REG_PRODUCT_NUMBER),
            ),
            (PollState::ConfirmProduct, PollEvent::Word(word)) => {
                if touchpad::product_found(word) {
                    go_on(PollState::Configure { index: 0, ok: true }, PollAction::Write(setting(0)))
                } else {
                    self.init_finished(false, now);
                    go_on(PollState::Finished, PollAction::Done)
                }
            },
            (PollState::Configure { index, ok }, PollEvent::Wrote(wrote)) => {
                if index + 1 < SETTINGS_LEN {
                    go_on(
                        PollState::Configure { index: index + 1, ok: ok && wrote },
                        PollAction::Write(setting(index + 1)),
                    )
                } else if ok && wrote {
                    self.init_finished(true, now);
                    go_on(PollState::ReadBlock, PollAction::ReadBlock)
                } else {
                    self.init_finished(false, now);
                    go_on(PollState::Finished, PollAction::Done)
                }
            },
            (PollState::ReadBlock, PollEvent::Block(block)) => {
                match block {
                    None => count(self, TouchReadResult::ReadFailed, now),
                    Some(data) => match touchpad::block_action(&data) {
                        touchpad::BlockAction::AcknowledgeReset => go_on(
                            PollState::AckReset,
                            PollAction::Write(touchpad::acknowledge_reset()),
                        ),
                        touchpad::BlockAction::EndSession => go_on(
                            PollState::EndBlock { data },
                            PollAction::Write(touchpad::end_session()),
                        ),
                    },
                }
            },
            (PollState::AckReset, PollEvent::Wrote(_)) => go_on(
                PollState::EndReset,
                PollAction::Write(touchpad::end_session()),
            ),
            (PollState::EndReset, PollEvent::Wrote(_)) => {
                let _ = self.on_pad_reset(now);
                go_on(PollState::Finished, PollAction::Done)
            },
            (PollState::EndBlock { data }, PollEvent::Wrote(wrote)) => {
                if !wrote {
                    return count(self, TouchReadResult::ReadFailed, now);
                }
                match self.decode(&data, gestures_enabled) {
                    TouchReadResult::Motion { x, y } => go_on(PollState::Scale, PollAction::Scale { x, y }),
                    result => count(self, result, now),
                }
            },
            (PollState::Scale, PollEvent::Scaled { x, y }) => count(self, TouchReadResult::Motion { x, y }, now),
            _ => go_on(PollState::Finished, PollAction::Done),
        }
    }
}

/// Actions that are left at most, not counting the current one.
pub open spec fn actions_left(state: PollState) -> int {
    match state {
        PollState::ProbeProduct => 29,
        PollState::Wake => 28,
        PollState::EndWake => 27,
        PollState::WakePause => 26,
        PollState::ConfirmProduct => 25,
        PollState::Configure { index, .. } => 24 - index,
        PollState::ReadBlock => 4,
        PollState::AckReset => 3,
        PollState::EndReset => 2,
        PollState::EndBlock { .. } => 3,
        PollState::Scale => 2,
        PollState::Settle => 1,
        PollState::Finished => 0,
    }
}

/// Every turn brings a poll closer to its end, so that a poll takes at most thirty
/// actions.
pub proof fn law_polls_end(
    pad: Touchpad,
    state: PollState,
    event: PollEvent,
    gestures_enabled: bool,
    now: u64,
    turn: PollTurn,
    after: Touchpad,
)
    requires
        expects(state, event),
        polls(pad, state, event, gestures_enabled, now, turn, after),
    ensures
        0 <= actions_left(turn.state) < actions_left(state),
        turn.state == PollState::Finished <==> turn.action == PollAction::Done,
{
}

/// A poll makes a pad ready only if the pad took the last setting and all before it.
pub proof fn law_ready_pads_took_all_settings(
    pad: Touchpad,
    state: PollState,
    event: PollEvent,
    gestures_enabled: bool,
    now: u64,
    turn: PollTurn,
    after: Touchpad,
)
    requires
        expects(state, event),
        polls(pad, state, event, gestures_enabled, now, turn, after),
        !pad.ready,
        after.ready,
    ensures
        state == (PollState::Configure { index: (SETTINGS_LEN - 1) as usize, ok: true }),
        event == PollEvent::Wrote(true),
        turn.state == PollState::ReadBlock,
{
}

/// A poll reads the block of a pad that is ready, and asks any other one for its product
/// number first.
pub proof fn law_polls_start_where_the_pad_is(pad: Touchpad)
    ensures
        pad.ready ==> first_action(pad) == (PollState::ReadBlock, PollAction::ReadBlock),
        !pad.ready ==> first_action(pad) == (PollState::ProbeProduct, PollAction::ReadWord(0)),
{
}

/// A pad is initialised in order: it names its product, is woken and left alone for
/// 100 ms, names its product again, and is sent one setting after the other. It is ready
/// when it took all of them, and its first block is then read; in any other case it is
/// probed again later.
pub proof fn law_pads_are_initialised_in_order(
    pad: Touchpad,
    state: PollState,
    event: PollEvent,
    gestures_enabled: bool,
    now: u64,
    turn: PollTurn,
    after: Touchpad,
)
    requires
        expects(state, event),
        polls(pad, state, event, gestures_enabled, now, turn, after),
    ensures
        ({
            let gives_up = turn.state == PollState::Finished && turn.action == PollAction::Done && after
                == touchpad::probing(pad, now);
            let goes_on = |next: PollState, action: PollAction|
                turn.state == next && turn.action == action && after == pad;
            let close = PollAction::Write(RegisterWrite::Byte { reg: 0xeeee, val: 0 });
            &&& state == PollState::ProbeProduct ==> if touchpad::names_product(event->Word_0) {
                goes_on(PollState::Wake, PollAction::Write(RegisterWrite::Byte { reg: 0x0432, val: 0 }))
            } else {
                gives_up
            }
            &&& state == PollState::Wake ==> goes_on(PollState::EndWake, close)
            &&& state == PollState::EndWake ==> goes_on(PollState::WakePause, PollAction::Pause(100))
            &&& state == PollState::WakePause ==> goes_on(PollState::ConfirmProduct, PollAction::ReadWord(0))
            &&& state == PollState::ConfirmProduct ==> if touchpad::names_product(event->Word_0) {
                goes_on(PollState::Configure { index: 0, ok: true }, PollAction::Write(touchpad::settings()[0]))
            } else {
                gives_up
            }
            &&& state matches PollState::Configure { index, ok } ==> {
                let took = ok && event->Wrote_0;
                if index < 19 {
                    goes_on(
                        PollState::Configure { index: (index + 1) as usize, ok: took },
                        PollAction::Write(touchpad::settings()[index + 1]),
                    )
                } else if took {
                    &&& turn.state == PollState::ReadBlock && turn.action == PollAction::ReadBlock
                    &&& after == touchpad::init_ended(pad, true, now)
                } else {
                    gives_up
                }
            }
            &&& state is ProbeProduct || state is ConfirmProduct || state is Configure ==> turn.pulse is None
                && turn.motion is None
        }),
{
}

/// A block ends its session before it counts: a pad that was reset is acknowledged and
/// has to be initialised anew; a block whose session could not be ended counts as a
/// failed read; a movement is scaled by the module's settings before it counts, and any
/// other result counts as it is.
pub proof fn law_blocks_are_closed_before_they_count(
    pad: Touchpad,
    state: PollState,
    event: PollEvent,
    gestures_enabled: bool,
    now: u64,
    turn: PollTurn,
    after: Touchpad,
)
    requires
        pad.wf_at(now),
        expects(state, event),
        polls(pad, state, event, gestures_enabled, now, turn, after),
    ensures
        ({
            let goes_on = |next: PollState, action: PollAction|
                turn.state == next && turn.action == action && after == pad && turn.pulse is None && turn.motion
                    is None;
            let close = PollAction::Write(RegisterWrite::Byte { reg: 0xeeee, val: 0 });
            &&& state == PollState::ReadBlock ==> match event->Block_0 {
                None => counts_as(pad, TouchReadResult::ReadFailed, now, turn, after),
                Some(data) => if touchpad::action_for(data@) == touchpad::BlockAction::AcknowledgeReset {
                    goes_on(PollState::AckReset, PollAction::Write(RegisterWrite::Byte { reg: 0x0431, val: 0x80 }))
                } else {
                    goes_on(PollState::EndBlock { data }, close)
                },
            }
            &&& state == PollState::AckReset ==> goes_on(PollState::EndReset, close)
            &&& state == PollState::EndReset ==> {
                &&& !after.ready
                &&& after.acc_x == 0 && after.acc_y == 0 && after.read_failures == 0
                &&& after.next_probe > now
                &&& after.last_activity == pad.last_activity
                &&& turn.state == PollState::Finished && turn.action == PollAction::Done
                &&& turn.pulse is None && turn.motion is None
            }
            &&& state matches PollState::EndBlock { data } ==> {
                let (result, counted) = touchpad::decoded_block(pad, data@, gestures_enabled);
                if !event->Wrote_0 {
                    counts_as(pad, TouchReadResult::ReadFailed, now, turn, after)
                } else if result is Motion {
                    &&& turn.state == PollState::Scale
                    &&& turn.action == (PollAction::Scale { x: result->x, y: result->y })
                    &&& after == counted
                    &&& turn.pulse is None && turn.motion is None
                } else {
                    counts_as(counted, result, now, turn, after)
                }
            }
            &&& state == PollState::Scale ==> counts_as(
                pad,
                TouchReadResult::Motion { x: event->x, y: event->y },
                now,
                turn,
                after,
            )
        }),
{
}

/// Whether a turn ends a poll with a result that the pad took: where the pad has to be
/// initialised anew, after a pause.
pub open spec fn counts_as(pad: Touchpad, result: TouchReadResult, now: u64, turn: PollTurn, after: Touchpad) -> bool {
    let pause_ms = if turn.action is Pause {
        turn.action->Pause_0
    } else {
        0
    };
    let output = touchpad::TouchOutput { pulse: turn.pulse, motion: turn.motion, pause_ms };
    &&& touchpad::read_result(pad, result, now, output, after)
    &&& pause_ms != 0 ==> turn.state == PollState::Settle
    &&& pause_ms == 0 ==> turn.state == PollState::Finished && turn.action == PollAction::Done
}

/// Whatever comes of what a poll asks for, it can go on.
pub proof fn law_every_outcome_is_taken(
    pad: Touchpad,
    state: PollState,
    event: PollEvent,
    gestures_enabled: bool,
    now: u64,
    turn: PollTurn,
    after: Touchpad,
    outcome: PollEvent,
)
    requires
        expects(state, event),
        polls(pad, state, event, gestures_enabled, now, turn, after),
    ensures
        match turn.action {
            PollAction::Write(_) => outcome is Wrote,
            PollAction::ReadWord(_) => outcome is Word,
            PollAction::ReadBlock => outcome is Block,
            PollAction::Pause(_) => outcome is PauseElapsed,
            PollAction::Scale { .. } => outcome is Scaled,
            PollAction::Done => false,
        } ==> expects(turn.state, outcome),
        expects(PollState::ReadBlock, outcome) <==> outcome is Block,
        expects(PollState::ProbeProduct, outcome) <==> outcome is Word,
{
}

} // verus!
