use rmk::event::{tap_key, Axis, AxisEvent, AxisValType, HidKeyCode, MouseReport, PointingEvent};
use rmk::pointing::caret::can_compute_caret_taps;
use rmk::pointing::config::{
    CaretConfig, CursorConfig, PointingMode, PointingProcessorConfig, ScrollConfig, SniperConfig, ALL_POINTING_DEVICES,
};
use rmk::pointing::processor::{PointerOutput, PointingProcessor, PointingProcessorEvent, SimplePointingProcessor};

fn axis(axis: Axis, value: i16) -> AxisEvent {
    AxisEvent { typ: AxisValType::Rel, axis, value }
}

fn motion(device_id: u8, x: i16, y: i16) -> PointingEvent {
    PointingEvent { device_id, axes: [axis(Axis::X, x), axis(Axis::Y, y), axis(Axis::Z, 0)] }
}

fn mouse(buttons: u8, x: i8, y: i8, wheel: i8, pan: i8) -> PointerOutput {
    PointerOutput::Mouse(MouseReport { buttons, x, y, wheel, pan })
}

fn config(device_id: u8) -> PointingProcessorConfig {
    PointingProcessorConfig { device_id, ..PointingProcessorConfig::default() }
}

#[test]
fn processors_handle_all_devices_by_default() {
    assert_eq!(PointingProcessorConfig::default().device_id, ALL_POINTING_DEVICES);
    let mut processor = PointingProcessor::new(PointingProcessorConfig::default());
    assert_eq!(processor.on_pointing_event(&motion(9, 1, 2), 0), mouse(0, 1, 2, 0, 0));
}

#[test]
fn processors_ignore_other_devices() {
    let mut processor = PointingProcessor::new(config(1));
    assert_eq!(processor.on_pointing_event(&motion(2, 1, 2), 0), PointerOutput::Nothing);
    let simple = SimplePointingProcessor::new(config(1));
    assert_eq!(simple.on_pointing_event(&motion(2, 1, 2)), None);
}

#[test]
fn simple_processor_reports_scroll_axes() {
    let simple = SimplePointingProcessor::new(config(1));
    let event = PointingEvent { device_id: 1, axes: [axis(Axis::X, 300), axis(Axis::V, -3), axis(Axis::H, 4)] };
    assert_eq!(
        simple.on_pointing_event(&event),
        Some(MouseReport { buttons: 0, x: 127, y: 0, wheel: -3, pan: 4 })
    );
}

#[test]
fn inversion_comes_before_the_swap() {
    let mut processor = PointingProcessor::new(PointingProcessorConfig {
        device_id: 1,
        invert_x: true,
        invert_y: false,
        swap_xy: true,
    });
    assert_eq!(processor.on_pointing_event(&motion(1, 5, 7), 2), mouse(2, 7, -5, 0, 0));
}

#[test]
fn cursor_mode_scales_and_inverts() {
    let mut processor = PointingProcessor::new(config(1));
    processor.set_pointing_mode(PointingMode::Cursor(CursorConfig {
        multiplier_x: 2,
        multiplier_y: 0,
        invert_x: true,
        invert_y: false,
    }));
    assert_eq!(processor.on_pointing_event(&motion(1, 10, 10), 0), mouse(0, -20, 0, 0, 0));
}

#[test]
fn scroll_mode_scrolls_against_y_unless_inverted() {
    let mut processor = PointingProcessor::new(config(1));
    processor.set_pointing_mode(PointingMode::Scroll(ScrollConfig::default()));
    assert_eq!(processor.on_pointing_event(&motion(1, 3, 3), 0), PointerOutput::Nothing);
    assert_eq!(processor.on_pointing_event(&motion(1, 6, 6), 0), mouse(0, 0, 0, -1, 1));

    processor.set_pointing_mode(PointingMode::Scroll(ScrollConfig { invert_y: true, ..ScrollConfig::default() }));
    assert_eq!(processor.on_pointing_event(&motion(1, 0, 8), 0), mouse(0, 0, 0, 1, 0));
}

#[test]
fn sniper_mode_divides() {
    let mut processor = PointingProcessor::new(config(1));
    processor.set_pointing_mode(PointingMode::Sniper(SniperConfig::default()));
    assert_eq!(processor.on_pointing_event(&motion(1, 10, -10), 1), mouse(1, 2, -2, 0, 0));
    assert_eq!(processor.accumulator.remainder_x, 2);
}

#[test]
fn caret_mode_taps_keys() {
    let mut processor = PointingProcessor::new(config(1));
    processor.set_pointing_mode(PointingMode::Caret(CaretConfig::default()));
    assert_eq!(
        processor.on_pointing_event(&motion(1, 250, 0), 0),
        PointerOutput::Taps { keycode: HidKeyCode::Right, count: 2 }
    );
}

#[test]
fn a_new_mode_forgets_motion_and_the_same_mode_keeps_it() {
    let mut processor = PointingProcessor::new(config(1));
    let sniper = PointingMode::Sniper(SniperConfig::default());
    processor.set_pointing_mode(sniper);
    processor.on_pointing_event(&motion(1, 3, 0), 0);
    processor.on_pointing_processor_event(PointingProcessorEvent { device_id: 1, mode: sniper });
    assert_eq!(processor.accumulator.remainder_x, 3);
    processor.on_pointing_processor_event(PointingProcessorEvent { device_id: 2, mode: PointingMode::default() });
    assert_eq!(processor.current_mode, sniper);
    processor.on_pointing_processor_event(PointingProcessorEvent { device_id: 1, mode: PointingMode::default() });
    assert_eq!(processor.current_mode, PointingMode::default());
    assert_eq!(processor.accumulator.remainder_x, 0);
}

#[test]
fn the_lowest_value_cannot_be_inverted() {
    let simple = SimplePointingProcessor::new(PointingProcessorConfig { invert_x: true, ..config(1) });
    assert!(!simple.can_handle(&motion(1, i16::MIN, 0)));
    assert!(simple.can_handle(&motion(1, 0, i16::MIN)));
    assert!(simple.can_handle(&motion(2, i16::MIN, 0)));

    let mut processor = PointingProcessor::new(config(1));
    assert!(processor.can_handle(&motion(1, i16::MIN, 0)));
    processor.set_pointing_mode(PointingMode::Sniper(SniperConfig { multiplier: 3, ..SniperConfig::default() }));
    assert!(!processor.can_handle(&motion(1, 20_000, 0)));
}

#[test]
fn caret_motion_that_overflows_is_told_apart() {
    let acc = rmk::pointing::accumulator::MotionAccumulator::default();
    assert!(can_compute_caret_taps(150, 30, &acc, &CaretConfig::default()));
    assert!(!can_compute_caret_taps(i16::MIN, 0, &acc, &CaretConfig::default()));
}

#[test]
fn a_tap_presses_and_releases() {
    let (press, release) = tap_key(HidKeyCode::Left);
    assert_eq!(press.keycodes, [0x50, 0, 0, 0, 0, 0]);
    assert_eq!(release.keycodes, [0; 6]);
    assert_eq!(HidKeyCode::Usage(4).usage(), 4);
    assert_eq!(HidKeyCode::Right.usage(), 0x4f);
    assert_eq!(HidKeyCode::Down.usage(), 0x51);
    assert_eq!(HidKeyCode::Up.usage(), 0x52);
}

#[test]
fn a_divisor_of_zero_disables_a_scroll_axis() {
    let mut processor = PointingProcessor::new(config(1));
    processor.set_pointing_mode(PointingMode::Scroll(ScrollConfig { divisor_x: 0, ..ScrollConfig::default() }));
    assert_eq!(processor.on_pointing_event(&motion(1, 100, 8), 0), mouse(0, 0, 0, -1, 0));
}

#[test]
fn mode_inversion_acts_after_the_swap() {
    let mut processor = PointingProcessor::new(PointingProcessorConfig { swap_xy: true, ..config(1) });
    processor.set_pointing_mode(PointingMode::Cursor(CursorConfig { invert_y: true, ..CursorConfig::default() }));
    assert_eq!(processor.on_pointing_event(&motion(1, 5, 7), 0), mouse(0, 7, -5, 0, 0));
}
