use rmk::event::{
    Action, ActionEvent, Axis, AxisEvent, AxisValType, HidKeyCode, KeyboardEvent, MouseReport, PointingEvent,
};
use rmk::pointing::processor::PointerOutput;
use rmk::pointing::qube::{
    accelerate_axis, qube_divided_motion, qube_pointing_source, qube_text_motion, rotate_motion, send_mouse_report,
    QubePointingSideState, QUBE_AUTO_LAYER_NONE, QUBE_USER_LEFT_SCROLL, QUBE_USER_SCROLL, QUBE_USER_TEXT,
};
use rmk::pointing::qube_processor::QubePointingModeProcessor;
use rmk::pointing::qube_settings::{
    QubePointingKind, QubePointingMode, QubePointingSettings, QubePointingSource, QUBE_SETTINGS_VERSION,
};

const BALLS: u8 = 0b1010;
const TOUCHPADS: u8 = 0b1111;

fn axis(axis: Axis, value: i16) -> AxisEvent {
    AxisEvent { typ: AxisValType::Rel, axis, value }
}

fn motion(device_id: u8, x: i16, y: i16) -> PointingEvent {
    PointingEvent { device_id, axes: [axis(Axis::X, x), axis(Axis::Y, y), axis(Axis::Z, 0)] }
}

fn mouse(buttons: u8, x: i8, y: i8, wheel: i8, pan: i8) -> PointerOutput {
    PointerOutput::Mouse(MouseReport { buttons, x, y, wheel, pan })
}

fn packet() -> [u8; 27] {
    let mut data = [0u8; 27];
    data[0] = QUBE_SETTINGS_VERSION;
    data[5] = 8;
    data[6] = 4;
    data[7] = 16;
    data[8] = 8;
    data[9] = 4;
    data[10] = 16;
    data[25] = BALLS;
    data
}

fn processor(data: [u8; 27]) -> QubePointingModeProcessor {
    let mut p = QubePointingModeProcessor::new();
    p.on_peripheral_settings_event(&data);
    p
}

fn key(id: u8, pressed: bool) -> ActionEvent {
    ActionEvent { keyboard_event: KeyboardEvent { key: 7, pressed }, action: Action::User(id) }
}

#[test]
fn packets_of_another_version_are_ignored() {
    let mut settings = QubePointingSettings::new();
    let mut data = packet();
    data[0] = QUBE_SETTINGS_VERSION + 1;
    data[11] = 0xff;
    settings.apply_packet(&data);
    assert_eq!(settings.flags, 0);
    assert_eq!(settings.scroll_sens, [8, 8]);
}

#[test]
fn packets_set_every_setting() {
    let mut settings = QubePointingSettings::new();
    let mut data = packet();
    data[1] = 0x30 | 0b1001;
    data[2] = 0b11_10_01_00;
    data[5] = 0;
    data[6] = 5;
    data[7] = 6;
    data[8] = 7;
    data[9] = 9;
    data[10] = 10;
    data[11] = 0xa5;
    data[12] = 0x0f;
    data[25] = 0xfe;
    data[26] = 0x93;
    settings.apply_packet(&data);
    assert_eq!(settings.mode, [QubePointingMode::Sniper, QubePointingMode::Scroll]);
    assert_eq!(settings.auto_layer, 3);
    assert_eq!(settings.ball_axis, [0, 1]);
    assert_eq!(settings.touch_axis, [2, 3]);
    assert_eq!(settings.scroll_sens, [1, 7]);
    assert_eq!(settings.sniper_sens, [5, 9]);
    assert_eq!(settings.text_sens, [6, 10]);
    assert_eq!(settings.flags, 0xa5);
    assert_eq!(settings.auto_flags, 0x0f);
    assert_eq!(settings.module_select, 0x0e);
    assert_eq!(settings.axis_flags, 0x03);
    assert_eq!(settings.auto_layer_timeout_index, 5);
    assert_eq!(settings.auto_layer_timeout_ms(), 1500);
    assert!(settings.invert_scroll_y(0));
    assert!(!settings.invert_scroll_y(1));
    assert!(settings.invert_text_y(0));
    assert!(settings.acceleration(1));
    assert!(settings.sticky_mode(1));
    assert!(settings.invert_scroll_x(0) && settings.invert_scroll_x(1));
    assert!(!settings.invert_text_x(0) && !settings.invert_text_x(1));
    assert!(settings.auto_layer_enabled(QubePointingMode::Text));
    assert_eq!(settings.sens(1, QubePointingMode::Text), 10);
    assert_eq!(settings.sens(0, QubePointingMode::Normal), 1);
}

#[test]
fn modules_are_told_apart_by_device_id() {
    assert_eq!(qube_pointing_source(0), Some(QubePointingSource { side: 0, kind: QubePointingKind::Ball }));
    assert_eq!(qube_pointing_source(3), Some(QubePointingSource { side: 1, kind: QubePointingKind::Touch }));
    assert_eq!(qube_pointing_source(4), None);
    let settings = processor(packet()).settings;
    assert!(settings.module_enabled(QubePointingSource { side: 1, kind: QubePointingKind::Ball }));
    assert!(!settings.module_enabled(QubePointingSource { side: 1, kind: QubePointingKind::Touch }));
}

#[test]
fn quarter_turns_rotate_motion() {
    assert_eq!(rotate_motion(3, 4, 0), (3, 4));
    assert_eq!(rotate_motion(3, 4, 1), (4, -3));
    assert_eq!(rotate_motion(3, 4, 2), (-3, -4));
    assert_eq!(rotate_motion(3, 4, 3), (-4, 3));
    assert_eq!(rotate_motion(i16::MIN, 0, 2), (i16::MAX, 0));
    let (x, y) = rotate_motion(3, 4, 1);
    assert_eq!(rotate_motion(x, y, 3), (3, 4));
}

#[test]
fn only_fast_motion_is_accelerated() {
    assert_eq!(accelerate_axis(10), 10);
    assert_eq!(accelerate_axis(11), 22);
    assert_eq!(accelerate_axis(-11), -22);
    assert_eq!(accelerate_axis(30_000), i16::MAX);
}

#[test]
fn division_carries_the_fraction() {
    let mut side = QubePointingSideState::new();
    assert_eq!(qube_divided_motion(&mut side, 7, -7, 4), (1, -1));
    assert_eq!((side.remainder_x, side.remainder_y), (3, -3));
    assert_eq!(qube_divided_motion(&mut side, 1, -1, 4), (1, -1));
    assert_eq!((side.remainder_x, side.remainder_y), (0, 0));
    assert_eq!(qube_divided_motion(&mut side, 1000, 0, 0), (127, 0));
}

#[test]
fn text_motion_taps_once_enough_came_together() {
    let mut side = QubePointingSideState::new();
    assert_eq!(qube_text_motion(&mut side, 10, 3, 16, 100), None);
    assert_eq!(qube_text_motion(&mut side, 6, 3, 16, 200), Some(HidKeyCode::Right));
    assert_eq!((side.remainder_x, side.remainder_y), (0, 0));
    assert_eq!(qube_text_motion(&mut side, 0, -16, 16, 300), Some(HidKeyCode::Up));
    // A pause starts over.
    assert_eq!(qube_text_motion(&mut side, 15, 0, 16, 400), None);
    assert_eq!(qube_text_motion(&mut side, 15, 0, 16, 700), None);
}

#[test]
fn empty_reports_are_not_sent() {
    assert_eq!(send_mouse_report(0, 0, 0, 0, 0, 0), PointerOutput::Nothing);
    assert_eq!(send_mouse_report(1, 2, 0, 0, 0, 0), mouse(3, 0, 0, 0, 0));
    assert_eq!(send_mouse_report(0, 0, 300, -300, 0, 0), mouse(0, 127, -128, 0, 0));
}

#[test]
fn balls_move_the_cursor() {
    let mut p = processor(packet());
    let (output, change) = p.on_pointing_event(&motion(0, 5, -6), 0, 10);
    assert_eq!(output, mouse(0, 5, -6, 0, 0));
    assert_eq!(change.activate, None);
    // A touchpad that is not selected does nothing.
    assert_eq!(p.on_pointing_event(&motion(2, 5, -6), 0, 10).0, PointerOutput::Nothing);
    assert_eq!(p.on_pointing_event(&motion(9, 5, -6), 0, 10).0, PointerOutput::Nothing);
}

#[test]
fn held_scroll_keys_scroll_until_released() {
    let mut p = processor(packet());
    p.on_action_event(key(QUBE_USER_SCROLL, true), 1000);
    assert_eq!(p.mode_for_side(0), QubePointingMode::Scroll);
    assert_eq!(p.on_pointing_event(&motion(1, 8, -16), 0, 1100).0, mouse(0, 0, 0, -2, 1));
    p.on_action_event(key(QUBE_USER_SCROLL, false), 1600);
    assert_eq!(p.mode_for_side(0), QubePointingMode::Normal);
    assert_eq!(p.mode_for_side(1), QubePointingMode::Normal);
}

#[test]
fn sticky_taps_toggle_one_half() {
    let mut data = packet();
    data[11] = 0x40;
    let mut p = processor(data);
    p.on_action_event(key(QUBE_USER_LEFT_SCROLL, true), 1000);
    p.on_action_event(key(QUBE_USER_LEFT_SCROLL, false), 1100);
    assert_eq!(p.mode_for_side(0), QubePointingMode::Scroll);
    assert_eq!(p.mode_for_side(1), QubePointingMode::Normal);
    p.on_action_event(key(QUBE_USER_LEFT_SCROLL, true), 2000);
    p.on_action_event(key(QUBE_USER_LEFT_SCROLL, false), 2100);
    assert_eq!(p.mode_for_side(0), QubePointingMode::Normal);
}

#[test]
fn text_keys_type_arrows() {
    let mut p = processor(packet());
    p.on_action_event(key(QUBE_USER_TEXT, true), 1000);
    let (output, _) = p.on_pointing_event(&motion(0, 0, 20), 0, 1010);
    assert_eq!(output, PointerOutput::Taps { keycode: HidKeyCode::Down, count: 1 });
}

#[test]
fn motion_switches_the_automatic_layer_on_and_pauses_switch_it_off() {
    let mut data = packet();
    data[1] = 0x40;
    data[12] = 0x01;
    data[26] = 0x10;
    let mut p = processor(data);
    let (_, change) = p.on_pointing_event(&motion(0, 1, 0), 0, 5000);
    assert_eq!(change.activate, Some(4));
    assert_eq!(p.active_auto_layer, 4);
    assert_eq!(p.poll(5499), None);
    // A held key keeps the layer.
    p.on_keyboard_event(KeyboardEvent { key: 1, pressed: true }, 5400);
    assert_eq!(p.poll(6000), None);
    p.on_keyboard_event(KeyboardEvent { key: 1, pressed: false }, 6000);
    assert_eq!(p.poll(6499), None);
    assert_eq!(p.poll(6500), Some(4));
    assert_eq!(p.active_auto_layer, QUBE_AUTO_LAYER_NONE);
}

#[test]
fn touch_sources_scroll_and_their_z_axis_moves_nothing() {
    let mut data = packet();
    data[25] = TOUCHPADS;
    let mut p = processor(data);
    let tap = PointingEvent { device_id: 2, axes: [axis(Axis::X, 0), axis(Axis::Y, 0), axis(Axis::Z, 1)] };
    let (output, _) = p.on_pointing_event(&tap, 0, 10);
    assert_eq!(output, PointerOutput::Nothing);
    let scroll = PointingEvent { device_id: 3, axes: [axis(Axis::H, 2), axis(Axis::V, -3), axis(Axis::Z, 0)] };
    assert_eq!(p.on_pointing_event(&scroll, 0, 20).0, mouse(0, 0, 0, -3, 2));
}

#[test]
fn modes_have_numbers() {
    assert_eq!(QubePointingMode::from_value(0), QubePointingMode::Normal);
    assert_eq!(QubePointingMode::from_value(1), QubePointingMode::Sniper);
    assert_eq!(QubePointingMode::from_value(2), QubePointingMode::Scroll);
    assert_eq!(QubePointingMode::from_value(3), QubePointingMode::Text);
    assert_eq!(QubePointingMode::from_value(200), QubePointingMode::Text);
}

#[test]
fn mode_keys_forget_accumulated_motion() {
    let mut p = processor(packet());
    p.on_action_event(key(QUBE_USER_SCROLL, true), 1000);
    p.on_pointing_event(&motion(0, 7, 0), 0, 1010);
    assert_eq!(p.sides[0].remainder_x, 7);
    p.on_action_event(key(QUBE_USER_SCROLL, false), 2000);
    assert_eq!(p.sides[0].remainder_x, 0);
}

#[test]
fn drags_on_a_touchpad_are_not_accelerated() {
    let mut data = packet();
    data[25] = TOUCHPADS;
    data[11] = 0x10;
    let mut p = processor(data);
    assert_eq!(p.on_pointing_event(&motion(2, 20, 0), 0, 10).0, mouse(0, 40, 0, 0, 0));
    assert_eq!(p.on_pointing_event(&motion(2, 20, 0), 1, 20).0, mouse(1, 20, 0, 0, 0));
}
