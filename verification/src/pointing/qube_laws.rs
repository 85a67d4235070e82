//! What the K:04 Qube does with motion, keys and time, stated on its inputs and results.

use vstd::prelude::*;

use crate::event;
use crate::event::{Action, ActionEvent, Axis, HidKeyCode, KeyboardEvent, PointingEvent};
use crate::num;
use crate::pointing::figures;
use crate::pointing::processor::PointerOutput;
use crate::pointing::qube;
use crate::pointing::qube::QubePointingSideState;
use crate::pointing::qube_processor;
use crate::pointing::qube_processor::{LayerChange, QubePointingModeProcessor};
use crate::pointing::qube_settings;
use crate::pointing::qube_settings::{QubePointingMode, QubePointingSettings};

verus! {

/// Whether the module that sent an event is the selected one of half `side`. Devices 0
/// and 1 are the balls of the left and the right half, 2 and 3 the touchpads; two bits
/// per half select the ball by 2 and the touchpad by 3.
pub open spec fn from_selected_module(settings: QubePointingSettings, event: PointingEvent, side: int) -> bool {
    &&& event.device_id <= 3
    &&& side == event.device_id as int % 2
    &&& settings.module_select as int / (if side == 0 {
        1int
    } else {
        4
    }) % 4 == (if event.device_id < 2 {
        2int
    } else {
        3
    })
}

/// Whether an event moves half `side`: it comes from the selected module, moves along X
/// or Y, and does not scroll.
pub open spec fn moves_half(settings: QubePointingSettings, event: PointingEvent, side: int) -> bool {
    &&& from_selected_module(settings, event, side)
    &&& event::axis_value(event.axes@, Axis::V) == 0
    &&& event::axis_value(event.axes@, Axis::H) == 0
    &&& event::axis_value(event.axes@, Axis::X) != 0 || event::axis_value(event.axes@, Axis::Y) != 0
}

/// Motion that half `side` gets from an event: each quarter turn of the module's
/// orientation takes the axes (x, y) to (y, -x), and an accelerated half doubles what is
/// faster than 10, except for a finger that drags with a button held.
pub open spec fn motion_for_half(settings: QubePointingSettings, event: PointingEvent, buttons: u8, side: int) -> (
    int,
    int,
) {
    let x = event::axis_value(event.axes@, Axis::X) as int;
    let y = event::axis_value(event.axes@, Axis::Y) as int;
    let turns = if event.device_id < 2 {
        settings.ball_axis[side]
    } else {
        settings.touch_axis[side]
    };
    let turned = if turns == 0 {
        (x, y)
    } else if turns == 1 {
        (y, figures::word(-x))
    } else if turns == 2 {
        (figures::word(-x), figures::word(-y))
    } else {
        (figures::word(-y), x)
    };
    let accelerated = settings.flags & (if side == 0 {
        0x10u8
    } else {
        0x20u8
    }) != 0 && !(event.device_id >= 2 && buttons != 0);
    let faster = |v: int|
        if accelerated && (v > 10 || v < -10) {
            figures::word(v + v)
        } else {
            v
        };
    (faster(turned.0), faster(turned.1))
}

/// Mode of half `side`: that of a mode key, or else the configured one.
pub open spec fn mode_of_half(p: QubePointingModeProcessor, side: int) -> QubePointingMode {
    if p.sides[side].mode_override is Some {
        p.sides[side].mode_override->0
    } else {
        p.settings.mode[side]
    }
}

/// Motion that a half carries over outside of text mode: what text mode collected is
/// dropped.
pub open spec fn carried(s: QubePointingSideState) -> (int, int) {
    if s.text_last_motion_ms != 0 {
        (0, 0)
    } else {
        (s.remainder_x as int, s.remainder_y as int)
    }
}

/// Whether an output is a mouse report of this movement, or nothing where nothing moves
/// and no button is held.
pub open spec fn reports(output: PointerOutput, buttons: u8, x: int, y: int, wheel: int, pan: int) -> bool {
    if buttons == 0 && x == 0 && y == 0 && wheel == 0 && pan == 0 {
        output == PointerOutput::Nothing
    } else {
        &&& output matches PointerOutput::Mouse(report)
        &&& report.buttons == buttons
        &&& report.x == figures::byte(x)
        &&& report.y == figures::byte(y)
        &&& report.wheel == figures::byte(wheel)
        &&& report.pan == figures::byte(pan)
    }
}

/// Half `side` of `after` carries this motion over and is otherwise as it was, outside of
/// text mode; the other half is as it was.
pub open spec fn carries_over(
    p: QubePointingModeProcessor,
    after: QubePointingModeProcessor,
    side: int,
    x: int,
    y: int,
) -> bool {
    &&& after.sides[1 - side] == p.sides[1 - side]
    &&& after.sides[side].remainder_x == x
    &&& after.sides[side].remainder_y == y
    &&& after.sides[side].text_last_motion_ms == 0
    &&& after.sides[side].mode_override == p.sides[side].mode_override
    &&& after.sides[side].mode_key_prev_override == p.sides[side].mode_key_prev_override
    &&& after.sides[side].mode_key_pressed_at_ms == p.sides[side].mode_key_pressed_at_ms
}

/// The selected module of a half, and it alone, moves that half: with its motion turned
/// and accelerated as the settings of the half say, in the mode of the half, and as a
/// drag where a finger moves with a button held.
pub proof fn law_halves_get_the_motion_of_their_module(p: QubePointingModeProcessor, event: PointingEvent, buttons: u8, side: int)
    requires
        qube_processor::processor_wf(p),
        moves_half(p.settings, event, side),
    ensures
        qube_processor::moves(p, event),
        qube::source_of(event.device_id) is Some,
        qube::source_of(event.device_id)->0.side == side,
        qube_processor::touch_drag(qube::source_of(event.device_id)->0, buttons) == (event.device_id >= 2 && buttons
            != 0),
        qube_processor::event_motion(p, qube::source_of(event.device_id)->0, event, buttons) == motion_for_half(
            p.settings,
            event,
            buttons,
            side,
        ),
        qube_processor::mode_in_force(p, side) == mode_of_half(p, side),
        num::fits_i16(motion_for_half(p.settings, event, buttons, side).0),
        num::fits_i16(motion_for_half(p.settings, event, buttons, side).1),
{
    assert(p.settings.ball_axis[side] <= 3 && p.settings.touch_axis[side] <= 3);
}

/// In normal mode the cursor moves as the half does: X along X and Y along Y, and nothing
/// scrolls. Motion that was collected in another mode stays where it is.
pub proof fn law_normal_mode_moves_the_cursor(
    p: QubePointingModeProcessor,
    event: PointingEvent,
    buttons: u8,
    now: u32,
    r: (PointerOutput, LayerChange),
    after: QubePointingModeProcessor,
    side: int,
)
    requires
        qube_processor::processor_wf(p),
        qube_processor::pointing_result(p, event, buttons, now, r, after),
        moves_half(p.settings, event, side),
        mode_of_half(p, side) == QubePointingMode::Normal,
    ensures
        ({
            let (x, y) = motion_for_half(p.settings, event, buttons, side);
            &&& reports(r.0, buttons, x, y, 0, 0)
            &&& carries_over(p, after, side, carried(p.sides[side]).0, carried(p.sides[side]).1)
        }),
{
    law_halves_get_the_motion_of_their_module(p, event, buttons, side);
    assert(after.sides@[1 - side] == after.sides[1 - side]);
    assert(after.sides@[side] == after.sides[side]);
}

/// In sniper mode the cursor moves by the motion divided by the sensitivity of the half:
/// X from X alone and Y from Y alone, without their fractions, and nothing scrolls. The
/// fractions are carried over to the next motion.
pub proof fn law_sniper_mode_slows_the_cursor(
    p: QubePointingModeProcessor,
    event: PointingEvent,
    buttons: u8,
    now: u32,
    r: (PointerOutput, LayerChange),
    after: QubePointingModeProcessor,
    side: int,
)
    requires
        qube_processor::processor_wf(p),
        qube_processor::pointing_result(p, event, buttons, now, r, after),
        moves_half(p.settings, event, side),
        mode_of_half(p, side) == QubePointingMode::Sniper,
    ensures
        ({
            let d = p.settings.sniper_sens[side] as int;
            let (x, y) = motion_for_half(p.settings, event, buttons, side);
            let x = carried(p.sides[side]).0 + x;
            let y = carried(p.sides[side]).1 + y;
            &&& reports(r.0, buttons, figures::byte(figures::whole(x, d)), figures::byte(figures::whole(y, d)), 0, 0)
            &&& carries_over(p, after, side, x - figures::whole(x, d) * d, y - figures::whole(y, d) * d)
        }),
{
    law_halves_get_the_motion_of_their_module(p, event, buttons, side);
    assert(1 <= p.settings.sniper_sens[side] <= 255);
    let d = p.settings.sniper_sens[side] as int;
    let (x, y) = motion_for_half(p.settings, event, buttons, side);
    num::lemma_trunc_div(carried(p.sides[side]).0 + x, d);
    num::lemma_trunc_div(carried(p.sides[side]).1 + y, d);
    assert(after.sides@[1 - side] == after.sides[1 - side]);
    assert(after.sides@[side] == after.sides[side]);
}

/// In scroll mode X pans and Y turns the wheel, each divided by the sensitivity of the
/// half without its fraction and reversed where the settings of the half say so, and the
/// cursor stays. The fractions are carried over.
pub proof fn law_scroll_mode_scrolls(
    p: QubePointingModeProcessor,
    event: PointingEvent,
    buttons: u8,
    now: u32,
    r: (PointerOutput, LayerChange),
    after: QubePointingModeProcessor,
    side: int,
)
    requires
        qube_processor::processor_wf(p),
        qube_processor::pointing_result(p, event, buttons, now, r, after),
        moves_half(p.settings, event, side),
        mode_of_half(p, side) == QubePointingMode::Scroll,
    ensures
        ({
            let d = p.settings.scroll_sens[side] as int;
            let bit = if side == 0 {
                0x01u8
            } else {
                0x02u8
            };
            let (mx, my) = motion_for_half(p.settings, event, buttons, side);
            let x = carried(p.sides[side]).0 + (if p.settings.axis_flags & bit != 0 {
                figures::word(-mx)
            } else {
                mx
            });
            let y = carried(p.sides[side]).1 + (if p.settings.flags & bit != 0 {
                figures::word(-my)
            } else {
                my
            });
            &&& reports(r.0, buttons, 0, 0, figures::byte(figures::whole(y, d)), figures::byte(figures::whole(x, d)))
            &&& carries_over(p, after, side, x - figures::whole(x, d) * d, y - figures::whole(y, d) * d)
        }),
{
    law_halves_get_the_motion_of_their_module(p, event, buttons, side);
    assert(1 <= p.settings.scroll_sens[side] <= 255);
    let d = p.settings.scroll_sens[side] as int;
    let bit = if side == 0 {
        0x01u8
    } else {
        0x02u8
    };
    let (mx, my) = motion_for_half(p.settings, event, buttons, side);
    let x = if p.settings.axis_flags & bit != 0 {
        figures::word(-mx)
    } else {
        mx
    };
    let y = if p.settings.flags & bit != 0 {
        figures::word(-my)
    } else {
        my
    };
    num::lemma_trunc_div(carried(p.sides[side]).0 + x, d);
    num::lemma_trunc_div(carried(p.sides[side]).1 + y, d);
    assert(after.sides@[1 - side] == after.sides[1 - side]);
    assert(after.sides@[side] == after.sides[side]);
}

/// In text mode motion adds up, unless it paused for more than 220 ms, until the larger
/// total reaches the sensitivity of the half. Then one arrow key is tapped, for the
/// direction of that total, and both totals start over. X wins where both are the same.
pub proof fn law_text_mode_taps_arrow_keys(
    p: QubePointingModeProcessor,
    event: PointingEvent,
    buttons: u8,
    now: u32,
    r: (PointerOutput, LayerChange),
    after: QubePointingModeProcessor,
    side: int,
)
    requires
        qube_processor::processor_wf(p),
        qube_processor::pointing_result(p, event, buttons, now, r, after),
        moves_half(p.settings, event, side),
        mode_of_half(p, side) == QubePointingMode::Text,
    ensures
        ({
            let d = p.settings.text_sens[side] as int;
            let bit = if side == 0 {
                0x04u8
            } else {
                0x08u8
            };
            let half = p.sides[side];
            let paused = half.text_last_motion_ms != 0 && (now - half.text_last_motion_ms) % 0x1_0000_0000 > 220;
            let (mx, my) = motion_for_half(p.settings, event, buttons, side);
            let x = (if paused {
                0
            } else {
                half.remainder_x as int
            }) + (if p.settings.axis_flags & bit != 0 {
                figures::word(-mx)
            } else {
                mx
            });
            let y = (if paused {
                0
            } else {
                half.remainder_y as int
            }) + (if p.settings.flags & bit != 0 {
                figures::word(-my)
            } else {
                my
            });
            let tap = |keycode: HidKeyCode| PointerOutput::Taps { keycode, count: 1 };
            &&& -d < x < d && -d < y < d ==> {
                &&& r.0 == PointerOutput::Nothing
                &&& after.sides[side].remainder_x == x
                &&& after.sides[side].remainder_y == y
            }
            &&& x >= d && -x <= y <= x ==> r.0 == tap(HidKeyCode::Right)
            &&& x <= -d && x <= y <= -x ==> r.0 == tap(HidKeyCode::Left)
            &&& y >= d && -y < x < y ==> r.0 == tap(HidKeyCode::Down)
            &&& y <= -d && y < x < -y ==> r.0 == tap(HidKeyCode::Up)
            &&& !(-d < x < d && -d < y < d) ==> {
                &&& after.sides[side].remainder_x == 0
                &&& after.sides[side].remainder_y == 0
            }
            &&& after.sides[side].text_last_motion_ms == now
            &&& after.sides[side].mode_override == half.mode_override
            &&& after.sides[1 - side] == p.sides[1 - side]
        }),
{
    law_halves_get_the_motion_of_their_module(p, event, buttons, side);
    assert(1 <= p.settings.text_sens[side] <= 255);
    num::law_elapsed_time_leads_to_now(now, p.sides[side].text_last_motion_ms);
    assert((now - p.sides[side].text_last_motion_ms) % 0x1_0000_0000 == num::wrapping_elapsed(
        now,
        p.sides[side].text_last_motion_ms,
    ));
    assert(after.sides@[1 - side] == after.sides[1 - side]);
    assert(after.sides@[side] == after.sides[side]);
}

/// Scroll values of the selected module pass through as they are: the vertical one turns
/// the wheel and the horizontal one pans, the cursor stays, and nothing is changed or
/// collected.
pub proof fn law_scroll_values_pass_through(
    p: QubePointingModeProcessor,
    event: PointingEvent,
    buttons: u8,
    now: u32,
    r: (PointerOutput, LayerChange),
    after: QubePointingModeProcessor,
    side: int,
)
    requires
        qube_processor::processor_wf(p),
        qube_processor::pointing_result(p, event, buttons, now, r, after),
        from_selected_module(p.settings, event, side),
        event::axis_value(event.axes@, Axis::V) != 0 || event::axis_value(event.axes@, Axis::H) != 0,
    ensures
        reports(
            r.0,
            buttons,
            0,
            0,
            event::axis_value(event.axes@, Axis::V) as int,
            event::axis_value(event.axes@, Axis::H) as int,
        ),
        r.1.deactivate is None && r.1.activate is None,
        after == p,
{
}

/// A module that is not the selected one of its half does nothing, nor does an unknown
/// device or an event without motion.
pub proof fn law_other_modules_are_ignored(
    p: QubePointingModeProcessor,
    event: PointingEvent,
    buttons: u8,
    now: u32,
    r: (PointerOutput, LayerChange),
    after: QubePointingModeProcessor,
)
    requires
        qube_processor::processor_wf(p),
        qube_processor::pointing_result(p, event, buttons, now, r, after),
        !from_selected_module(p.settings, event, event.device_id as int % 2) || forall|axis: Axis|
            event::axis_value(event.axes@, axis) == 0,
    ensures
        r.0 == PointerOutput::Nothing,
        r.1.deactivate is None && r.1.activate is None,
        after == p,
{
}

/// Motion switches the automatic layer on where its mode asks for it and a layer is set,
/// and off where not; the layer that was on before is left in the keymap. A finger that
/// drags with a button held leaves the layer alone.
pub proof fn law_motion_drives_the_automatic_layer(
    p: QubePointingModeProcessor,
    event: PointingEvent,
    buttons: u8,
    now: u32,
    r: (PointerOutput, LayerChange),
    after: QubePointingModeProcessor,
    side: int,
)
    requires
        qube_processor::processor_wf(p),
        qube_processor::pointing_result(p, event, buttons, now, r, after),
        moves_half(p.settings, event, side),
    ensures
        ({
            let drags = event.device_id >= 2 && buttons != 0;
            let bit = match mode_of_half(p, side) {
                QubePointingMode::Normal => 0x01u8,
                QubePointingMode::Sniper => 0x02u8,
                QubePointingMode::Scroll => 0x04u8,
                QubePointingMode::Text => 0x08u8,
            };
            let wanted = p.settings.auto_flags & bit != 0 && p.settings.auto_layer != 0;
            let left = if p.active_auto_layer == 0 || p.active_auto_layer == 255 {
                None
            } else {
                Some(p.active_auto_layer)
            };
            &&& drags ==> {
                &&& after.active_auto_layer == p.active_auto_layer
                &&& after.auto_layer_held_keys == p.auto_layer_held_keys
                &&& after.last_auto_motion_ms == p.last_auto_motion_ms
                &&& r.1 == (LayerChange { deactivate: None, activate: None })
            }
            &&& !drags && !wanted ==> {
                &&& after.active_auto_layer == 255
                &&& after.auto_layer_held_keys == 0
                &&& r.1 == (LayerChange { deactivate: left, activate: None })
            }
            &&& !drags && wanted ==> {
                &&& after.active_auto_layer == p.settings.auto_layer
                &&& after.last_auto_motion_ms == now
            }
            &&& !drags && wanted && p.active_auto_layer == p.settings.auto_layer ==> {
                &&& after.auto_layer_held_keys == p.auto_layer_held_keys
                &&& r.1 == (LayerChange { deactivate: None, activate: None })
            }
            &&& !drags && wanted && p.active_auto_layer != p.settings.auto_layer ==> {
                &&& after.auto_layer_held_keys == 0
                &&& r.1 == (LayerChange { deactivate: left, activate: Some(p.settings.auto_layer) })
            }
        }),
{
    law_halves_get_the_motion_of_their_module(p, event, buttons, side);
    let auto = qube_processor::auto_of(after);
    assert(auto.active == after.active_auto_layer && auto.held_keys == after.auto_layer_held_keys && auto.last_motion_ms
        == after.last_auto_motion_ms);
}

/// Mode that a user key switches to on half `side`: the keys 28 to 30 switch both halves,
/// 31 to 33 the left one and 34 to 36 the right one, each three to sniper, scroll and
/// text mode.
pub open spec fn mode_for_key(action: Action, side: int) -> Option<QubePointingMode> {
    if action matches Action::User(id) && (28 <= id <= 30 || (31 <= id <= 33 && side == 0) || (34 <= id <= 36 && side
        == 1)) {
        let id = action->User_0;
        Some(
            if id == 28 || id == 31 || id == 34 {
                QubePointingMode::Sniper
            } else if id == 29 || id == 32 || id == 35 {
                QubePointingMode::Scroll
            } else {
                QubePointingMode::Text
            },
        )
    } else {
        None
    }
}

/// A mode key puts its mode in force on its halves while it is held and gives back what
/// was there before. On a half with sticky keys, a press of at most 220 ms switches the
/// mode on for good, or off where it was on. Either way the motion collected so far is
/// dropped. Any other key changes nothing.
pub proof fn law_mode_keys_choose_modes(
    p: QubePointingModeProcessor,
    event: ActionEvent,
    now: u32,
    after: QubePointingModeProcessor,
    side: int,
)
    requires
        qube_processor::action_result(p, event, now, after),
        side == 0 || side == 1,
    ensures
        after.settings == p.settings,
        after.active_auto_layer == p.active_auto_layer,
        after.auto_layer_held_keys == p.auto_layer_held_keys,
        after.last_auto_motion_ms == p.last_auto_motion_ms,
        ({
            let before = p.sides[side];
            let half = after.sides[side];
            let sticky = p.settings.flags & (if side == 0 {
                0x40u8
            } else {
                0x80u8
            }) != 0;
            let tapped = (now - before.mode_key_pressed_at_ms) % 0x1_0000_0000 <= 220;
            match mode_for_key(event.action, side) {
                None => half == before,
                Some(mode) => {
                    &&& half.remainder_x == 0 && half.remainder_y == 0
                    &&& half.text_last_motion_ms == before.text_last_motion_ms
                    &&& event.keyboard_event.pressed ==> {
                        &&& half.mode_override == Some(mode)
                        &&& half.mode_key_prev_override == before.mode_override
                        &&& half.mode_key_pressed_at_ms == now
                    }
                    &&& !event.keyboard_event.pressed ==> {
                        &&& half.mode_key_prev_override == before.mode_key_prev_override
                        &&& half.mode_key_pressed_at_ms == before.mode_key_pressed_at_ms
                        &&& !(sticky && tapped) ==> half.mode_override == before.mode_key_prev_override
                        &&& sticky && tapped && before.mode_key_prev_override == Some(mode) ==> half.mode_override
                            is None
                        &&& sticky && tapped && before.mode_key_prev_override != Some(mode) ==> half.mode_override
                            == Some(mode)
                    }
                },
            }
        }),
{
    num::law_elapsed_time_leads_to_now(now, p.sides[side].mode_key_pressed_at_ms);
    assert((now - p.sides[side].mode_key_pressed_at_ms) % 0x1_0000_0000 == num::wrapping_elapsed(
        now,
        p.sides[side].mode_key_pressed_at_ms,
    ));
    let auto = qube_processor::auto_of(after);
    assert(auto.active == after.active_auto_layer && auto.held_keys == after.auto_layer_held_keys && auto.last_motion_ms
        == after.last_auto_motion_ms);
}

/// While the automatic layer is on, every key press counts one held key more, as far as
/// a byte counts, and every release one less and as motion. Without a layer nothing is
/// counted.
pub proof fn law_held_keys_are_counted(
    p: QubePointingModeProcessor,
    event: KeyboardEvent,
    now: u32,
    after: QubePointingModeProcessor,
)
    requires
        qube_processor::keyboard_result(p, event, now, after),
    ensures
        after.settings == p.settings && after.sides == p.sides,
        after.active_auto_layer == p.active_auto_layer,
        p.active_auto_layer == 255 ==> after == p,
        p.active_auto_layer != 255 && event.pressed ==> {
            &&& p.auto_layer_held_keys < 255 ==> after.auto_layer_held_keys == p.auto_layer_held_keys + 1
            &&& p.auto_layer_held_keys == 255 ==> after.auto_layer_held_keys == 255
            &&& after.last_auto_motion_ms == p.last_auto_motion_ms
        },
        p.active_auto_layer != 255 && !event.pressed ==> {
            &&& p.auto_layer_held_keys > 0 ==> after.auto_layer_held_keys == p.auto_layer_held_keys - 1
            &&& p.auto_layer_held_keys == 0 ==> after.auto_layer_held_keys == 0
            &&& after.last_auto_motion_ms == now
        },
{
}

/// The automatic layer ends once no key is held and no motion has come for 250 ms, or
/// for one more of these for each step of the timeout setting, and not before. Then the
/// keymap is told to leave it.
pub proof fn law_automatic_layer_times_out(
    p: QubePointingModeProcessor,
    now: u32,
    leave: Option<u8>,
    after: QubePointingModeProcessor,
)
    requires
        qube_processor::processor_wf(p),
        qube_processor::poll_result(p, now, leave, after),
    ensures
        after.settings == p.settings && after.sides == p.sides,
        ({
            let over = p.active_auto_layer != 255 && p.auto_layer_held_keys == 0 && (now - p.last_auto_motion_ms)
                % 0x1_0000_0000 >= 250 * (p.settings.auto_layer_timeout_index + 1);
            &&& !over ==> leave is None && after == p
            &&& over ==> after.active_auto_layer == 255 && after.auto_layer_held_keys == 0
                && after.last_auto_motion_ms == p.last_auto_motion_ms
            &&& over && p.active_auto_layer != 0 ==> leave == Some(p.active_auto_layer)
            &&& over && p.active_auto_layer == 0 ==> leave is None
        }),
{
    num::law_elapsed_time_leads_to_now(now, p.last_auto_motion_ms);
    assert((now - p.last_auto_motion_ms) % 0x1_0000_0000 == num::wrapping_elapsed(now, p.last_auto_motion_ms));
    let table = qube_settings::QUBE_AUTO_LAYER_TIMEOUT_MS_TABLE;
    assert(table[0] == 250 && table[1] == 500 && table[2] == 750 && table[3] == 1000 && table[4] == 1250 && table[5]
        == 1500);
    let auto = qube_processor::auto_of(after);
    assert(auto.active == after.active_auto_layer && auto.held_keys == after.auto_layer_held_keys && auto.last_motion_ms
        == after.last_auto_motion_ms);
}

/// A settings packet of version 9 gives each half its modes, orientations and
/// sensitivities, and the flags, the automatic layer, the module selection and the
/// timeout; a sensitivity of zero counts as one and a timeout step above 5 as 5. A packet
/// of another version changes no setting. The automatic layer ends when neither half is
/// in a mode that asks for it any more.
pub proof fn law_packets_set_the_settings(
    p: QubePointingModeProcessor,
    data: Seq<u8>,
    leave: Option<u8>,
    after: QubePointingModeProcessor,
    mode: (u8, u8),
    ball: (u8, u8),
    touch: (u8, u8),
    layer: u8,
    axis_flags: u8,
    timeout: u8,
)
    requires
        data.len() == 27,
        qube_processor::settings_result(p, data, leave, after),
        mode.0 < 4 && mode.1 < 4 && ball.0 < 4 && ball.1 < 4 && touch.0 < 4 && touch.1 < 4,
        layer < 16 && axis_flags < 16 && timeout < 16,
        data[1] == mode.0 + 4 * mode.1 + 16 * layer,
        data[2] == ball.0 + 4 * ball.1 + 16 * touch.0 + 64 * touch.1,
        data[26] == axis_flags + 16 * timeout,
    ensures
        after.sides == p.sides,
        data[0] != 9 ==> after.settings == p.settings,
        data[0] == 9 ==> {
            let s = after.settings;
            let named = |m: u8|
                if m == 0 {
                    QubePointingMode::Normal
                } else if m == 1 {
                    QubePointingMode::Sniper
                } else if m == 2 {
                    QubePointingMode::Scroll
                } else {
                    QubePointingMode::Text
                };
            let least_one = |b: u8|
                if b == 0 {
                    1int
                } else {
                    b as int
                };
            &&& s.mode[0] == named(mode.0) && s.mode[1] == named(mode.1)
            &&& s.ball_axis[0] == ball.0 && s.ball_axis[1] == ball.1
            &&& s.touch_axis[0] == touch.0 && s.touch_axis[1] == touch.1
            &&& s.scroll_sens[0] == least_one(data[5]) && s.scroll_sens[1] == least_one(data[8])
            &&& s.sniper_sens[0] == least_one(data[6]) && s.sniper_sens[1] == least_one(data[9])
            &&& s.text_sens[0] == least_one(data[7]) && s.text_sens[1] == least_one(data[10])
            &&& s.flags == data[11]
            &&& s.auto_flags == data[12]
            &&& s.auto_layer == layer
            &&& s.module_select == data[25] % 16
            &&& s.axis_flags == axis_flags
            &&& timeout <= 5 ==> s.auto_layer_timeout_index == timeout
            &&& timeout > 5 ==> s.auto_layer_timeout_index == 5
        },
        ({
            let asks = |side: int|
                after.settings.auto_flags & (match mode_of_half(after, side) {
                    QubePointingMode::Normal => 0x01u8,
                    QubePointingMode::Sniper => 0x02u8,
                    QubePointingMode::Scroll => 0x04u8,
                    QubePointingMode::Text => 0x08u8,
                }) != 0;
            let over = p.active_auto_layer != 255 && !asks(0) && !asks(1);
            &&& over ==> after.active_auto_layer == 255 && after.auto_layer_held_keys == 0
            &&& over && p.active_auto_layer != 0 ==> leave == Some(p.active_auto_layer)
            &&& !over ==> leave is None && after.active_auto_layer == p.active_auto_layer && after.auto_layer_held_keys
                == p.auto_layer_held_keys
            &&& after.last_auto_motion_ms == p.last_auto_motion_ms
        }),
{
    let s = after.settings;
    if data[0] == 9 {
        assert(s.mode@[0] == s.mode[0] && s.mode@[1] == s.mode[1]);
        assert(s.ball_axis@[0] == s.ball_axis[0] && s.ball_axis@[1] == s.ball_axis[1]);
        assert(s.touch_axis@[0] == s.touch_axis[0] && s.touch_axis@[1] == s.touch_axis[1]);
        assert(s.scroll_sens@[0] == s.scroll_sens[0] && s.scroll_sens@[1] == s.scroll_sens[1]);
        assert(s.sniper_sens@[0] == s.sniper_sens[0] && s.sniper_sens@[1] == s.sniper_sens[1]);
        assert(s.text_sens@[0] == s.text_sens[0] && s.text_sens@[1] == s.text_sens[1]);
    }
    assert(qube_processor::mode_in_force(after, 0) == mode_of_half(after, 0));
    assert(qube_processor::mode_in_force(after, 1) == mode_of_half(after, 1));
    let auto = qube_processor::auto_of(after);
    assert(auto.active == after.active_auto_layer && auto.held_keys == after.auto_layer_held_keys && auto.last_motion_ms
        == after.last_auto_motion_ms);
}

/// A fresh Qube has a touchpad on the left and a ball on the right, neither turned nor
/// accelerated, in normal mode; it divides motion by 4 in sniper mode and by 8 in scroll
/// mode, taps a key for 16 in text mode, and switches layer 4 on with normal motion, for
/// half a second. No layer is on, and nothing is collected or reversed.
pub proof fn law_fresh_processors_have_the_defaults(p: QubePointingModeProcessor, side: int)
    requires
        qube_processor::is_fresh(p),
        side == 0 || side == 1,
    ensures
        mode_of_half(p, side) == QubePointingMode::Normal,
        carried(p.sides[side]) == (0int, 0int),
        p.settings.sniper_sens[side] == 4,
        p.settings.scroll_sens[side] == 8,
        p.settings.text_sens[side] == 16,
        p.settings.ball_axis[side] == 0 && p.settings.touch_axis[side] == 0,
        p.settings.module_select == 3 + 4 * 2,
        p.settings.flags == 0 && p.settings.axis_flags == 0,
        p.settings.auto_layer == 4 && p.settings.auto_flags == 1,
        250 * (p.settings.auto_layer_timeout_index + 1) == 500,
        p.active_auto_layer == 255 && p.auto_layer_held_keys == 0,
{
    let s = p.settings;
    assert(s.mode@[side] == s.mode[side]);
    assert(s.sniper_sens@[side] == s.sniper_sens[side]);
    assert(s.scroll_sens@[side] == s.scroll_sens[side]);
    assert(s.text_sens@[side] == s.text_sens[side]);
    assert(s.ball_axis@[side] == s.ball_axis[side]);
    assert(s.touch_axis@[side] == s.touch_axis[side]);
}

} // verus!
