//! Mode keys, automatic layer and event handling of the K:04 Qube.

use vstd::prelude::*;

use crate::event;
use crate::event::{Action, ActionEvent, Axis, KeyboardEvent, PointingEvent};
use crate::num;
use crate::pointing::processor::PointerOutput;
use crate::pointing::qube;
use crate::pointing::qube::{
    QubePointingSideState, QUBE_AUTO_LAYER_NONE, QUBE_MODE_KEY_TAP_MS, QUBE_USER_LEFT_SCROLL, QUBE_USER_LEFT_SNIPER,
    QUBE_USER_LEFT_TEXT, QUBE_USER_RIGHT_SCROLL, QUBE_USER_RIGHT_SNIPER, QUBE_USER_RIGHT_TEXT, QUBE_USER_SCROLL,
    QUBE_USER_SNIPER, QUBE_USER_TEXT,
};
use crate::pointing::qube_settings;
use crate::pointing::qube_settings::{
    QubePointingKind, QubePointingMode, QubePointingSettings, QubePointingSource,
};

verus! {

/// K:04 Qube central pointing processor.
///
/// The keymap stays outside: the methods take the mouse buttons that it holds and
/// return the layer changes that it is to make.
#[derive(Clone, Copy, Debug)]
pub struct QubePointingModeProcessor {
    pub sides: [QubePointingSideState; 2],
    pub settings: QubePointingSettings,
    /// Automatic layer that is on, or [`QUBE_AUTO_LAYER_NONE`].
    pub active_auto_layer: u8,
    /// Keys held since the automatic layer was switched on.
    pub auto_layer_held_keys: u8,
    pub last_auto_motion_ms: u32,
}

/// Layers to switch off and on in the keymap, in this order.
#[derive(Clone, Copy, Debug, PartialEq, Eq, Structural)]
pub struct LayerChange {
    pub deactivate: Option<u8>,
    pub activate: Option<u8>,
}

/// The part of the state that belongs to the automatic layer.
pub struct AutoLayer {
    pub active: u8,
    pub held_keys: u8,
    pub last_motion_ms: u32,
}

/// No layer changes.
pub open spec fn no_change() -> LayerChange {
    LayerChange { deactivate: None, activate: None }
}

/// Whether the processor is in a valid state: settings are in their ranges and each
/// half has less than one unit of the coarsest sensitivity accumulated.
pub open spec fn processor_wf(p: QubePointingModeProcessor) -> bool {
    &&& qube_settings::settings_wf(p.settings)
    &&& forall|i: int| 0 <= i < 2 ==> side_wf(#[trigger] p.sides[i])
}

/// Whether a half has less than one unit of the coarsest sensitivity accumulated.
pub open spec fn side_wf(s: QubePointingSideState) -> bool {
    num::magnitude(s.remainder_x as int) < 255 && num::magnitude(s.remainder_y as int) < 255
}

/// Automatic layer part of the state.
pub open spec fn auto_of(p: QubePointingModeProcessor) -> AutoLayer {
    AutoLayer { active: p.active_auto_layer, held_keys: p.auto_layer_held_keys, last_motion_ms: p.last_auto_motion_ms }
}

/// The automatic layer switched off.
pub open spec fn auto_off(a: AutoLayer) -> AutoLayer {
    AutoLayer { active: QUBE_AUTO_LAYER_NONE, held_keys: 0, ..a }
}

/// Layer to switch off in the keymap when the automatic layer ends.
pub open spec fn layer_to_leave(a: AutoLayer) -> Option<u8> {
    if a.active != QUBE_AUTO_LAYER_NONE && a.active != 0 {
        Some(a.active)
    } else {
        None
    }
}

/// Automatic layer after motion in `mode`, and the layer changes.
///
/// The layer of the settings is switched on if `mode` asks for it; otherwise the
/// automatic layer ends.
pub open spec fn auto_after_motion(a: AutoLayer, s: QubePointingSettings, mode: QubePointingMode, now: u32) -> (
    AutoLayer,
    LayerChange,
) {
    if !qube_settings::any_bit(s.auto_flags, qube_settings::auto_layer_mask(mode)) || s.auto_layer == 0 {
        (auto_off(a), LayerChange { deactivate: layer_to_leave(a), activate: None })
    } else if a.active == s.auto_layer {
        (AutoLayer { last_motion_ms: now, ..a }, no_change())
    } else {
        (
            AutoLayer { active: s.auto_layer, held_keys: 0, last_motion_ms: now },
            LayerChange { deactivate: layer_to_leave(a), activate: Some(s.auto_layer) },
        )
    }
}

/// Mode that is in force on a half.
pub open spec fn mode_in_force(p: QubePointingModeProcessor, side: int) -> QubePointingMode {
    match p.sides[side].mode_override {
        Some(mode) => mode,
        None => p.settings.mode[side],
    }
}

/// Half after a mode key for `mode` was pressed.
pub open spec fn key_pressed(s: QubePointingSideState, mode: QubePointingMode, now: u32) -> QubePointingSideState {
    QubePointingSideState {
        mode_override: Some(mode),
        mode_key_prev_override: s.mode_override,
        mode_key_pressed_at_ms: now,
        remainder_x: 0,
        remainder_y: 0,
        ..s
    }
}

/// Half after a mode key for `mode` was released. A tap toggles the mode where the
/// mode keys are sticky; otherwise the mode of before the press returns.
pub open spec fn key_released(s: QubePointingSideState, mode: QubePointingMode, now: u32, sticky: bool) ->
    QubePointingSideState {
    let tapped = num::wrapping_elapsed(now, s.mode_key_pressed_at_ms) <= QUBE_MODE_KEY_TAP_MS;
    QubePointingSideState {
        mode_override: if sticky && tapped {
            if s.mode_key_prev_override == Some(mode) {
                None
            } else {
                Some(mode)
            }
        } else {
            s.mode_key_prev_override
        },
        remainder_x: 0,
        remainder_y: 0,
        ..s
    }
}

/// Half `side` after a mode key changed.
pub open spec fn key_handled(
    p: QubePointingModeProcessor,
    side: int,
    enabled: bool,
    mode: QubePointingMode,
    pressed: bool,
    now: u32,
) -> QubePointingSideState {
    if !enabled {
        p.sides[side]
    } else if pressed {
        key_pressed(p.sides[side], mode, now)
    } else {
        key_released(p.sides[side], mode, now, qube_settings::sticky(p.settings, side as usize))
    }
}

/// Halves and mode that a user key stands for.
pub open spec fn mode_key(id: u8) -> Option<((bool, bool), QubePointingMode)> {
    if id == QUBE_USER_SNIPER {
        Some(((true, true), QubePointingMode::Sniper))
    } else if id == QUBE_USER_SCROLL {
        Some(((true, true), QubePointingMode::Scroll))
    } else if id == QUBE_USER_TEXT {
        Some(((true, true), QubePointingMode::Text))
    } else if id == QUBE_USER_LEFT_SNIPER {
        Some(((true, false), QubePointingMode::Sniper))
    } else if id == QUBE_USER_LEFT_SCROLL {
        Some(((true, false), QubePointingMode::Scroll))
    } else if id == QUBE_USER_LEFT_TEXT {
        Some(((true, false), QubePointingMode::Text))
    } else if id == QUBE_USER_RIGHT_SNIPER {
        Some(((false, true), QubePointingMode::Sniper))
    } else if id == QUBE_USER_RIGHT_SCROLL {
        Some(((false, true), QubePointingMode::Scroll))
    } else if id == QUBE_USER_RIGHT_TEXT {
        Some(((false, true), QubePointingMode::Text))
    } else {
        None
    }
}

/// Halves and mode that a user key stands for.
fn find_mode_key(id: u8) -> (key: Option<([bool; 2], QubePointingMode)>)
    ensures
        key is Some <==> mode_key(id) is Some,
        key matches Some((sides, mode)) ==> mode_key(id) == Some(((sides[0], sides[1]), mode)),
{
    match id {
        QUBE_USER_SNIPER => Some(([true, true], QubePointingMode::Sniper)),
        QUBE_USER_SCROLL => Some(([true, true], QubePointingMode::Scroll)),
        QUBE_USER_TEXT => Some(([true, true], QubePointingMode::Text)),
        QUBE_USER_LEFT_SNIPER => Some(([true, false], QubePointingMode::Sniper)),
        QUBE_USER_LEFT_SCROLL => Some(([true, false], QubePointingMode::Scroll)),
        QUBE_USER_LEFT_TEXT => Some(([true, false], QubePointingMode::Text)),
        QUBE_USER_RIGHT_SNIPER => Some(([false, true], QubePointingMode::Sniper)),
        QUBE_USER_RIGHT_SCROLL => Some(([false, true], QubePointingMode::Scroll)),
        QUBE_USER_RIGHT_TEXT => Some(([false, true], QubePointingMode::Text)),
        _ => None,
    }
}

/// `v`, inverted where `invert` holds and limited to the range of `i16`.
pub open spec fn inverted(v: i16, invert: bool) -> i16 {
    if invert {
        num::clamp_i16(-v) as i16
    } else {
        v
    }
}

/// `v`, inverted where `invert` holds and limited to the range of `i16`.
fn invert_if(v: i16, invert: bool) -> (r: i16)
    ensures
        r == inverted(v, invert),
{
    if invert {
        num::sat_neg_i16(v)
    } else {
        v
    }
}

/// Half when motion in `mode` arrives: leaving text mode drops its motion.
pub open spec fn entering_mode(s: QubePointingSideState, mode: QubePointingMode) -> QubePointingSideState {
    if mode != QubePointingMode::Text && s.text_last_motion_ms != 0 {
        QubePointingSideState { text_last_motion_ms: 0, remainder_x: 0, remainder_y: 0, ..s }
    } else {
        s
    }
}

/// What the motion `(x, y)` of half `side` becomes in `mode`, and the half after it.
pub open spec fn half_step(
    s: QubePointingSideState,
    settings: QubePointingSettings,
    side: usize,
    mode: QubePointingMode,
    x: i16,
    y: i16,
    buttons: u8,
    now: u32,
) -> (PointerOutput, QubePointingSideState) {
    let divisor = qube_settings::mode_sens(settings, side as int, mode) as i32;
    let left = side == 0;
    match mode {
        QubePointingMode::Normal => (qube::mouse_or_nothing(buttons, x as int, y as int, 0, 0), s),
        QubePointingMode::Sniper => {
            let out_x = num::clamp_i8(qube::divided(s.remainder_x, x, divisor));
            let out_y = num::clamp_i8(qube::divided(s.remainder_y, y, divisor));
            (qube::mouse_or_nothing(buttons, out_x, out_y, 0, 0), qube::after_division(s, x, y, divisor))
        },
        QubePointingMode::Scroll => {
            let sx = inverted(
                x,
                qube_settings::any_bit(settings.axis_flags, if left {
                    qube_settings::QUBE_AXIS_FLAG_LEFT_INVERT_SCROLL_X
                } else {
                    qube_settings::QUBE_AXIS_FLAG_RIGHT_INVERT_SCROLL_X
                }),
            );
            let sy = inverted(
                y,
                qube_settings::any_bit(settings.flags, if left {
                    qube_settings::QUBE_FLAG_LEFT_INVERT_SCROLL_Y
                } else {
                    qube_settings::QUBE_FLAG_RIGHT_INVERT_SCROLL_Y
                }),
            );
            let h = num::clamp_i8(qube::divided(s.remainder_x, sx, divisor));
            let v = num::clamp_i8(qube::divided(s.remainder_y, sy, divisor));
            (qube::mouse_or_nothing(buttons, 0, 0, v, h), qube::after_division(s, sx, sy, divisor))
        },
        QubePointingMode::Text => {
            let tx = inverted(
                x,
                qube_settings::any_bit(settings.axis_flags, if left {
                    qube_settings::QUBE_AXIS_FLAG_LEFT_INVERT_TEXT_X
                } else {
                    qube_settings::QUBE_AXIS_FLAG_RIGHT_INVERT_TEXT_X
                }),
            );
            let ty = inverted(
                y,
                qube_settings::any_bit(settings.flags, if left {
                    qube_settings::QUBE_FLAG_LEFT_INVERT_TEXT_Y
                } else {
                    qube_settings::QUBE_FLAG_RIGHT_INVERT_TEXT_Y
                }),
            );
            let (key, after) = qube::text_step(s, tx, ty, divisor, now);
            let output = match key {
                Some(keycode) => PointerOutput::Taps { keycode, count: 1 },
                None => PointerOutput::Nothing,
            };
            (output, after)
        },
    }
}

/// Motion `(x, y)` of a half in `mode`.
fn move_half(
    state: &mut QubePointingSideState,
    settings: &QubePointingSettings,
    side: usize,
    mode: QubePointingMode,
    motion: (i16, i16),
    buttons: u8,
    now: u32,
) -> (output: PointerOutput)
    requires
        side < 2,
        qube_settings::settings_wf(*settings),
        side_wf(*old(state)),
    ensures
        (output, *final(state)) == half_step(*old(state), *settings, side, mode, motion.0, motion.1, buttons, now),
        side_wf(*final(state)),
{
    let (x, y): (i16, i16) = motion;
    let divisor: i32 = settings.sens(side, mode);
    match mode {
        QubePointingMode::Normal => qube::send_mouse_report(buttons, 0, x, y, 0, 0),
        QubePointingMode::Sniper => {
            proof {
                lemma_division_keeps_wf(*state, x, y, divisor);
            }
            let (out_x, out_y): (i16, i16) = qube::qube_divided_motion(state, x, y, divisor);
            qube::send_mouse_report(buttons, 0, out_x, out_y, 0, 0)
        },
        QubePointingMode::Scroll => {
            let sx: i16 = invert_if(x, settings.invert_scroll_x(side));
            let sy: i16 = invert_if(y, settings.invert_scroll_y(side));
            proof {
                lemma_division_keeps_wf(*state, sx, sy, divisor);
            }
            let (h, v): (i16, i16) = qube::qube_divided_motion(state, sx, sy, divisor);
            qube::send_mouse_report(buttons, 0, 0, 0, v, h)
        },
        QubePointingMode::Text => {
            let tx: i16 = invert_if(x, settings.invert_text_x(side));
            let ty: i16 = invert_if(y, settings.invert_text_y(side));
            match qube::qube_text_motion(state, tx, ty, divisor, now) {
                Some(keycode) => PointerOutput::Taps { keycode, count: 1 },
                None => PointerOutput::Nothing,
            }
        },
    }
}

/// Division by a sensitivity leaves less than one unit of it.
proof fn lemma_division_keeps_wf(s: QubePointingSideState, x: i16, y: i16, divisor: i32)
    requires
        1 <= divisor <= 255,
    ensures
        side_wf(qube::after_division(s, x, y, divisor)),
{
    num::lemma_trunc_div(num::clamp_i32(s.remainder_x + x), divisor as int);
    num::lemma_trunc_div(num::clamp_i32(s.remainder_y + y), divisor as int);
}

/// Motion of an event after the orientation of its module is undone.
pub open spec fn oriented_motion(p: QubePointingModeProcessor, source: QubePointingSource, event: PointingEvent) -> (
    int,
    int,
) {
    qube::rotated(
        event::axis_value(event.axes@, Axis::X) as int,
        event::axis_value(event.axes@, Axis::Y) as int,
        qube_settings::module_orientation(p.settings, source),
    )
}

/// Whether fast motion of `side` is accelerated.
pub open spec fn accelerates(s: QubePointingSettings, side: usize) -> bool {
    qube_settings::any_bit(s.flags, if side == 0 {
        qube_settings::QUBE_FLAG_LEFT_ACCELERATION
    } else {
        qube_settings::QUBE_FLAG_RIGHT_ACCELERATION
    })
}

/// Whether a module is the one that is selected on its half.
pub open spec fn is_enabled(s: QubePointingSettings, source: QubePointingSource) -> bool {
    qube_settings::selected_module(s, source.side) == (match source.kind {
        QubePointingKind::Ball => qube_settings::QUBE_MODULE_SELECT_BALL,
        QubePointingKind::Touch => qube_settings::QUBE_MODULE_SELECT_TOUCH,
    })
}

/// Whether an event only scrolls.
pub open spec fn scrolls(event: PointingEvent) -> bool {
    event::axis_value(event.axes@, Axis::V) != 0 || event::axis_value(event.axes@, Axis::H) != 0
}

/// Whether an event carries cursor motion that this processor acts on.
pub open spec fn moves(p: QubePointingModeProcessor, event: PointingEvent) -> bool {
    &&& qube::source_of(event.device_id) matches Some(source)
    &&& is_enabled(p.settings, source)
    &&& !scrolls(event)
    &&& event::axis_value(event.axes@, Axis::X) != 0 || event::axis_value(event.axes@, Axis::Y) != 0
}

/// A finger on a touchpad while a mouse button is held drags: it neither drives the
/// automatic layer nor is it accelerated.
pub open spec fn touch_drag(source: QubePointingSource, buttons: u8) -> bool {
    source.kind == QubePointingKind::Touch && buttons != 0
}

/// Motion of an event as its half gets it: turned by the orientation of its module and,
/// where that is on, accelerated.
pub open spec fn event_motion(
    p: QubePointingModeProcessor,
    source: QubePointingSource,
    event: PointingEvent,
    buttons: u8,
) -> (int, int) {
    let m = oriented_motion(p, source, event);
    if accelerates(p.settings, source.side) && !touch_drag(source, buttons) {
        (qube::accelerated(m.0), qube::accelerated(m.1))
    } else {
        m
    }
}

/// Whether `leave` and `after` are what a settings packet leads to.
pub open spec fn settings_result(
    p: QubePointingModeProcessor,
    data: Seq<u8>,
    leave: Option<u8>,
    after: QubePointingModeProcessor,
) -> bool {
    &&& after.sides == p.sides
    &&& data[0] != qube_settings::QUBE_SETTINGS_VERSION ==> after.settings == p.settings
    &&& data[0] == qube_settings::QUBE_SETTINGS_VERSION ==> qube_settings::settings_match(after.settings, data)
    &&& {
        let wanted = exists|side: int|
            0 <= side < 2 && qube_settings::any_bit(
                after.settings.auto_flags,
                qube_settings::auto_layer_mask(#[trigger] mode_in_force(after, side)),
            );
        if p.active_auto_layer != QUBE_AUTO_LAYER_NONE && !wanted {
            &&& leave == layer_to_leave(auto_of(p))
            &&& auto_of(after) == auto_off(auto_of(p))
        } else {
            &&& leave is None
            &&& auto_of(after) == auto_of(p)
        }
    }
}

/// Whether `after` is what a key that is pressed or released leads to.
pub open spec fn keyboard_result(
    p: QubePointingModeProcessor,
    event: KeyboardEvent,
    now: u32,
    after: QubePointingModeProcessor,
) -> bool {
    &&& after.sides == p.sides
    &&& after.settings == p.settings
    &&& after.active_auto_layer == p.active_auto_layer
    &&& if p.active_auto_layer == QUBE_AUTO_LAYER_NONE {
        auto_of(after) == auto_of(p)
    } else if event.pressed {
        &&& after.auto_layer_held_keys == num::clamp(p.auto_layer_held_keys + 1, 0, 255)
        &&& after.last_auto_motion_ms == p.last_auto_motion_ms
    } else {
        &&& after.auto_layer_held_keys == num::clamp(p.auto_layer_held_keys - 1, 0, 255)
        &&& after.last_auto_motion_ms == now
    }
}

/// Halves and mode that an action stands for.
pub open spec fn key_meaning(action: Action) -> Option<((bool, bool), QubePointingMode)> {
    match action {
        Action::User(id) => mode_key(id),
        Action::Builtin => None,
    }
}

/// Whether `after` is what the action of a key leads to.
pub open spec fn action_result(
    p: QubePointingModeProcessor,
    event: ActionEvent,
    now: u32,
    after: QubePointingModeProcessor,
) -> bool {
    &&& after.settings == p.settings
    &&& auto_of(after) == auto_of(p)
    &&& match key_meaning(event.action) {
        Some(((left, right), mode)) => {
            let pressed = event.keyboard_event.pressed;
            &&& after.sides[0] == key_handled(p, 0, left, mode, pressed, now)
            &&& after.sides[1] == key_handled(p, 1, right, mode, pressed, now)
        },
        None => after.sides == p.sides,
    }
}

/// Whether `leave` and `after` are what a look at the clock leads to.
pub open spec fn poll_result(
    p: QubePointingModeProcessor,
    now: u32,
    leave: Option<u8>,
    after: QubePointingModeProcessor,
) -> bool {
    let timeout = qube_settings::QUBE_AUTO_LAYER_TIMEOUT_MS_TABLE[num::clamp(
        p.settings.auto_layer_timeout_index as int,
        0,
        5,
    )];
    let expired = p.active_auto_layer != QUBE_AUTO_LAYER_NONE && p.auto_layer_held_keys == 0 && num::wrapping_elapsed(
        now,
        p.last_auto_motion_ms,
    ) >= timeout;
    &&& after.sides == p.sides
    &&& after.settings == p.settings
    &&& if expired {
        &&& leave == layer_to_leave(auto_of(p))
        &&& auto_of(after) == auto_off(auto_of(p))
    } else {
        &&& leave is None
        &&& auto_of(after) == auto_of(p)
    }
}

/// Whether `r` and `after` are what a pointing event leads to.
pub open spec fn pointing_result(
    p: QubePointingModeProcessor,
    event: PointingEvent,
    buttons: u8,
    now: u32,
    r: (PointerOutput, LayerChange),
    after: QubePointingModeProcessor,
) -> bool {
    &&& after.settings == p.settings
    &&& !moves(p, event) ==> {
        &&& after.sides == p.sides
        &&& auto_of(after) == auto_of(p)
        &&& r.1 == no_change()
        &&& r.0 == (match qube::source_of(event.device_id) {
            Some(source) => if is_enabled(p.settings, source) && scrolls(event) {
                qube::mouse_or_nothing(
                    buttons,
                    0,
                    0,
                    event::axis_value(event.axes@, Axis::V) as int,
                    event::axis_value(event.axes@, Axis::H) as int,
                )
            } else {
                PointerOutput::Nothing
            },
            None => PointerOutput::Nothing,
        })
    }
    &&& moves(p, event) ==> {
        let source = qube::source_of(event.device_id).unwrap();
        let side = source.side as int;
        let mode = mode_in_force(p, side);
        let (x, y) = event_motion(p, source, event, buttons);
        let (auto, change) = if touch_drag(source, buttons) {
            (auto_of(p), no_change())
        } else {
            auto_after_motion(auto_of(p), p.settings, mode, now)
        };
        let (output, half) = half_step(
            entering_mode(p.sides[side], mode),
            p.settings,
            source.side,
            mode,
            x as i16,
            y as i16,
            buttons,
            now,
        );
        &&& r == (output, change)
        &&& auto_of(after) == auto
        &&& after.sides@ == p.sides@.update(side, half)
    }
}

/// Whether nothing has happened to a processor yet.
pub open spec fn is_fresh(p: QubePointingModeProcessor) -> bool {
    &&& p.sides[0] == p.sides[1]
    &&& p.sides[0] == (QubePointingSideState {
        mode_override: None,
        mode_key_prev_override: None,
        mode_key_pressed_at_ms: 0,
        remainder_x: 0,
        remainder_y: 0,
        text_last_motion_ms: 0,
    })
    &&& qube_settings::is_fresh(p.settings)
    &&& p.active_auto_layer == QUBE_AUTO_LAYER_NONE
    &&& p.auto_layer_held_keys == 0
    &&& p.last_auto_motion_ms == 0
}

impl QubePointingModeProcessor {
    pub fn new() -> (p: Self)
        ensures
            is_fresh(p),
            processor_wf(p),
    {
        QubePointingModeProcessor {
            sides: [QubePointingSideState::new(), QubePointingSideState::new()],
            settings: QubePointingSettings::new(),
            active_auto_layer: QUBE_AUTO_LAYER_NONE,
            auto_layer_held_keys: 0,
            last_auto_motion_ms: 0,
        }
    }

    /// Mode that is in force on a half.
    pub fn mode_for_side(&self, side: usize) -> (mode: QubePointingMode)
        requires
            side < 2,
        ensures
            mode == mode_in_force(*self, side as int),
    {
        match self.sides[side].mode_override {
            Some(mode) => mode,
            None => self.settings.mode[side],
        }
    }

    /// Switches the automatic layer off. Returns the layer that the keymap is to leave.
    pub fn deactivate_auto_layer(&mut self) -> (leave: Option<u8>)
        ensures
            leave == layer_to_leave(auto_of(*old(self))),
            auto_of(*final(self)) == auto_off(auto_of(*old(self))),
            final(self).sides == old(self).sides,
            final(self).settings == old(self).settings,
    {
        let previous: u8 = self.active_auto_layer;
        self.active_auto_layer = QUBE_AUTO_LAYER_NONE;
        self.auto_layer_held_keys = 0;
        if previous != QUBE_AUTO_LAYER_NONE && previous != 0 {
            Some(previous)
        } else {
            None
        }
    }

    /// Takes over a settings packet. The automatic layer ends when no half is in a
    /// mode that asks for it any more.
    pub fn on_peripheral_settings_event(&mut self, data: &[u8; 27]) -> (leave: Option<u8>)
        requires
            processor_wf(*old(self)),
        ensures
            processor_wf(*final(self)),
            final(self).sides == old(self).sides,
            settings_result(*old(self), data@, leave, *final(self)),
    {
        self.settings.apply_packet(data);
        let mode_left = self.mode_for_side(0);
        let mode_right = self.mode_for_side(1);
        let wanted_left: bool = self.settings.auto_layer_enabled(mode_left);
        let wanted_right: bool = self.settings.auto_layer_enabled(mode_right);
        let mut leave: Option<u8> = None;
        if self.active_auto_layer != QUBE_AUTO_LAYER_NONE && !wanted_left && !wanted_right {
            leave = self.deactivate_auto_layer();
        }
        proof {
            assert(mode_in_force(*self, 0) == mode_left);
            assert(mode_in_force(*self, 1) == mode_right);
        }
        leave
    }

    /// Counts the keys that are held while the automatic layer is on; a release
    /// counts as motion.
    pub fn on_keyboard_event(&mut self, event: KeyboardEvent, now: u32)
        ensures
            keyboard_result(*old(self), event, now, *final(self)),
    {
        if self.active_auto_layer == QUBE_AUTO_LAYER_NONE {
            return;
        }
        if event.pressed {
            self.auto_layer_held_keys = self.auto_layer_held_keys.saturating_add(1);
        } else {
            self.auto_layer_held_keys = self.auto_layer_held_keys.saturating_sub(1);
            self.last_auto_motion_ms = now;
        }
    }

    /// A mode key of the halves in `sides` was pressed or released.
    pub fn handle_mode_key(&mut self, sides: [bool; 2], mode: QubePointingMode, pressed: bool, now: u32)
        requires
            processor_wf(*old(self)),
        ensures
            processor_wf(*final(self)),
            forall|side: int|
                0 <= side < 2 ==> #[trigger] final(self).sides[side] == key_handled(
                    *old(self),
                    side,
                    sides[side],
                    mode,
                    pressed,
                    now,
                ),
            final(self).settings == old(self).settings,
            auto_of(*final(self)) == auto_of(*old(self)),
    {
        let mut side: usize = 0;
        while side < 2
            invariant
                side <= 2,
                processor_wf(*old(self)),
                self.settings == old(self).settings,
                auto_of(*self) == auto_of(*old(self)),
                forall|i: int|
                    0 <= i < side ==> #[trigger] self.sides[i] == key_handled(
                        *old(self),
                        i,
                        sides[i],
                        mode,
                        pressed,
                        now,
                    ),
                forall|i: int| side <= i < 2 ==> #[trigger] self.sides[i] == old(self).sides[i],
            decreases 2 - side,
        {
            if sides[side] {
                let mut state = self.sides[side];
                if pressed {
                    state.mode_key_prev_override = state.mode_override;
                    state.mode_override = Some(mode);
                    state.mode_key_pressed_at_ms = now;
                } else {
                    let tapped: bool = num::elapsed_ms(now, state.mode_key_pressed_at_ms) <= QUBE_MODE_KEY_TAP_MS;
                    state.mode_override = state.mode_key_prev_override;
                    if self.settings.sticky_mode(side) && tapped {
                        let latched: bool = match state.mode_override {
                            Some(current) => current == mode,
                            None => false,
                        };
                        state.mode_override = if latched {
                            None
                        } else {
                            Some(mode)
                        };
                    }
                }
                state.reset_accum();
                self.sides[side] = state;
            }
            side = side + 1;
        }
    }

    /// Handles the mode keys among the user keys.
    pub fn on_action_event(&mut self, event: ActionEvent, now: u32)
        requires
            processor_wf(*old(self)),
        ensures
            processor_wf(*final(self)),
            action_result(*old(self), event, now, *final(self)),
    {
        if let Action::User(id) = event.action {
            if let Some((sides, mode)) = find_mode_key(id) {
                self.handle_mode_key(sides, mode, event.keyboard_event.pressed, now);
            }
        }
    }

    /// Lets motion in `mode` drive the automatic layer.
    pub fn sync_auto_layer_for_motion(&mut self, mode: QubePointingMode, now: u32) -> (change: LayerChange)
        ensures
            (auto_of(*final(self)), change) == auto_after_motion(
                auto_of(*old(self)),
                old(self).settings,
                mode,
                now,
            ),
            final(self).sides == old(self).sides,
            final(self).settings == old(self).settings,
    {
        if !self.settings.auto_layer_enabled(mode) {
            let leave = self.deactivate_auto_layer();
            return LayerChange { deactivate: leave, activate: None };
        }
        let layer: u8 = self.settings.auto_layer;
        if layer == 0 {
            let leave = self.deactivate_auto_layer();
            return LayerChange { deactivate: leave, activate: None };
        }
        self.last_auto_motion_ms = now;
        if self.active_auto_layer == layer {
            return LayerChange { deactivate: None, activate: None };
        }
        let leave = self.deactivate_auto_layer();
        self.active_auto_layer = layer;
        self.auto_layer_held_keys = 0;
        LayerChange { deactivate: leave, activate: Some(layer) }
    }

    /// Ends the automatic layer when no key is held and no motion has come for the
    /// timeout of the settings.
    pub fn poll(&mut self, now: u32) -> (leave: Option<u8>)
        ensures
            poll_result(*old(self), now, leave, *final(self)),
    {
        if self.active_auto_layer == QUBE_AUTO_LAYER_NONE || self.auto_layer_held_keys != 0 {
            return None;
        }
        if num::elapsed_ms(now, self.last_auto_motion_ms) >= self.settings.auto_layer_timeout_ms() {
            self.deactivate_auto_layer()
        } else {
            None
        }
    }

    /// Handles a pointing event while the keymap holds the mouse buttons `buttons`.
    ///
    /// Scroll values pass through. Cursor motion is turned by the orientation of its
    /// module, drives the automatic layer, is accelerated, and is then used as the
    /// mode of its half says.
    pub fn on_pointing_event(&mut self, event: &PointingEvent, buttons: u8, now: u32) -> (r: (
        PointerOutput,
        LayerChange,
    ))
        requires
            processor_wf(*old(self)),
        ensures
            processor_wf(*final(self)),
            final(self).settings == old(self).settings,
            pointing_result(*old(self), *event, buttons, now, r, *final(self)),
    {
        let nothing = LayerChange { deactivate: None, activate: None };
        let source = match qube::qube_pointing_source(event.device_id) {
            Some(source) => source,
            None => {
                return (PointerOutput::Nothing, nothing);
            },
        };
        if !self.settings.module_enabled(source) {
            return (PointerOutput::Nothing, nothing);
        }
        let x: i16 = event.axis(Axis::X);
        let y: i16 = event.axis(Axis::Y);
        let wheel: i16 = event.axis(Axis::V);
        let pan: i16 = event.axis(Axis::H);
        if wheel != 0 || pan != 0 {
            return (qube::send_mouse_report(buttons, 0, 0, 0, wheel, pan), nothing);
        }
        if x == 0 && y == 0 {
            return (PointerOutput::Nothing, nothing);
        }
        let (mut x, mut y): (i16, i16) = qube::rotate_motion(x, y, self.settings.orientation(source));
        let mode = self.mode_for_side(source.side);
        let is_touch_drag: bool = source.kind == QubePointingKind::Touch && buttons != 0;
        let mut change = nothing;
        if !is_touch_drag {
            change = self.sync_auto_layer_for_motion(mode, now);
        }
        if self.settings.acceleration(source.side) && !is_touch_drag {
            x = qube::accelerate_axis(x);
            y = qube::accelerate_axis(y);
        }
        let mut state = self.sides[source.side];
        if mode != QubePointingMode::Text && state.text_last_motion_ms != 0 {
            state.text_last_motion_ms = 0;
            state.reset_accum();
        }
        let output = move_half(&mut state, &self.settings, source.side, mode, (x, y), buttons, now);
        self.sides[source.side] = state;
        (output, change)
    }
}

/// A held mode key is momentary: after its release the mode override is what it was
/// before the press, unless the keys are sticky and the press was a tap.
pub proof fn law_held_mode_key_is_momentary(
    s: QubePointingSideState,
    mode: QubePointingMode,
    pressed_at: u32,
    released_at: u32,
    sticky: bool,
)
    requires
        !sticky || num::wrapping_elapsed(released_at, pressed_at) > QUBE_MODE_KEY_TAP_MS,
    ensures
        key_released(key_pressed(s, mode, pressed_at), mode, released_at, sticky).mode_override == s.mode_override,
{
}

/// A tapped sticky mode key toggles: the first tap latches the mode, and a second tap
/// releases it to the configured mode.
pub proof fn law_sticky_tap_toggles(
    s: QubePointingSideState,
    mode: QubePointingMode,
    press_1: u32,
    release_1: u32,
    press_2: u32,
    release_2: u32,
)
    requires
        s.mode_override != Some(mode),
        num::wrapping_elapsed(release_1, press_1) <= QUBE_MODE_KEY_TAP_MS,
        num::wrapping_elapsed(release_2, press_2) <= QUBE_MODE_KEY_TAP_MS,
    ensures
        ({
            let once = key_released(key_pressed(s, mode, press_1), mode, release_1, true);
            let twice = key_released(key_pressed(once, mode, press_2), mode, release_2, true);
            &&& once.mode_override == Some(mode)
            &&& twice.mode_override == None::<QubePointingMode>
        }),
{
}

/// A mode key always starts with no accumulated motion, when pressed and when released.
pub proof fn law_mode_key_forgets_motion(s: QubePointingSideState, mode: QubePointingMode, now: u32, sticky: bool)
    ensures
        key_pressed(s, mode, now).remainder_x == 0 && key_pressed(s, mode, now).remainder_y == 0,
        key_released(s, mode, now, sticky).remainder_x == 0 && key_released(s, mode, now, sticky).remainder_y == 0,
{
}

/// Layer changes keep the keymap in step: the layer that is switched off is the one
/// that was on, the layer that is switched on is the one that is on afterwards, and
/// without a change the same layer stays on.
pub proof fn law_layer_changes_keep_step(a: AutoLayer, s: QubePointingSettings, mode: QubePointingMode, now: u32)
    requires
        qube_settings::settings_wf(s),
    ensures
        ({
            let (after, change) = auto_after_motion(a, s, mode, now);
            &&& change.deactivate is Some ==> change.deactivate == layer_to_leave(a)
            &&& change.activate is Some ==> change.activate == layer_to_leave(after) && change.deactivate
                == layer_to_leave(a)
            &&& change.activate is None && change.deactivate is Some ==> layer_to_leave(after) is None
            &&& change == no_change() ==> layer_to_leave(after) == layer_to_leave(a)
        }),
{
}

} // verus!
