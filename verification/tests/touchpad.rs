use rmk::event::Axis;
use rmk::touchpad::{
    acknowledge_reset, block_action, clamp_motion_accum, end_session, init_writes, product_found, relative_axis,
    scroll_delta, side_for_device_id, touch_poll_interval, wake, BlockAction, NeverEvent, RegisterWrite,
    TouchReadResult, Touchpad, TOUCH_REINIT_PAUSE_MS,
};

const SECOND: u64 = 1_000_000;

fn block(gesture_0: u8, gesture_1: u8, info_0: u8, info_1: u8, fingers: u8, x: i16, y: i16) -> [u8; 10] {
    let x = x.to_be_bytes();
    let y = y.to_be_bytes();
    [8, gesture_0, gesture_1, info_0, info_1, fingers, x[0], x[1], y[0], y[1]]
}

fn ready_pad(now: u64) -> Touchpad {
    let mut pad = Touchpad::new(2);
    pad.init_finished(true, now);
    pad
}

#[test]
fn pads_belong_to_a_side() {
    assert_eq!(side_for_device_id(0), 0);
    assert_eq!(side_for_device_id(1), 1);
    assert_eq!(side_for_device_id(2), 0);
    assert_eq!(side_for_device_id(3), 1);
    assert_eq!(side_for_device_id(200), 1);
    assert_eq!(Touchpad::new(2).side, 0);
    assert_eq!(relative_axis(Axis::V, -3).value, -3);
    assert_eq!(NeverEvent, NeverEvent);
}

#[test]
fn scroll_takes_one_direction_in_whole_steps() {
    assert_eq!(scroll_delta(16, 99), Some((2, 0)));
    assert_eq!(scroll_delta(7, 99), None);
    assert_eq!(scroll_delta(0, -17), Some((0, -2)));
    assert_eq!(scroll_delta(0, 7), None);
    assert_eq!(scroll_delta(0, 0), None);
}

#[test]
fn idle_pads_are_polled_less_often() {
    assert_eq!(touch_poll_interval(0), 8_000);
    assert_eq!(touch_poll_interval(SECOND - 1), 8_000);
    assert_eq!(touch_poll_interval(SECOND), 40_000);
    assert_eq!(touch_poll_interval(6 * SECOND), 160_000);
    assert_eq!(touch_poll_interval(26 * SECOND), 160_000);
}

#[test]
fn kept_motion_is_limited() {
    assert_eq!(clamp_motion_accum(254), 254);
    assert_eq!(clamp_motion_accum(255), 254);
    assert_eq!(clamp_motion_accum(i32::MIN), -254);
}

#[test]
fn register_writes_are_framed_big_endian() {
    assert_eq!(end_session().frame(), vec![0xee, 0xee, 0]);
    assert_eq!(wake().frame(), vec![0x04, 0x32, 0]);
    assert_eq!(acknowledge_reset().frame(), vec![0x04, 0x31, 0x80]);
    assert_eq!(RegisterWrite::Word { reg: 0x06bd, val: 0x012c }.frame(), vec![0x06, 0xbd, 0x01, 0x2c]);
}

#[test]
fn settings_are_written_in_order() {
    let writes = init_writes();
    assert_eq!(writes.len(), 20);
    assert_eq!(writes[0].frame(), vec![0x05, 0x7a, 0x00, 0x08]);
    assert_eq!(writes[6].frame(), vec![0x05, 0x85, 255]);
    assert_eq!(writes[12].frame(), vec![0x06, 0x32, 0x0b]);
    assert_eq!(writes[14].frame(), vec![0x06, 0xb7, 0x03]);
    assert_eq!(writes[18].frame(), vec![0x05, 0x8e, 0x60]);
    assert_eq!(writes[19], end_session());
}

#[test]
fn pads_answer_with_a_product_number() {
    assert!(product_found(Some([0, 40])));
    assert!(product_found(Some([1, 0])));
    assert!(!product_found(Some([0, 0])));
    assert!(!product_found(None));
}

#[test]
fn resets_are_acknowledged() {
    assert_eq!(block_action(&block(0, 0, 0x80, 0, 0, 0, 0)), BlockAction::AcknowledgeReset);
    assert_eq!(block_action(&block(0, 0, 0x7f, 0, 0, 0, 0)), BlockAction::EndSession);
    let mut pad = ready_pad(SECOND);
    pad.acc_x = 5;
    let output = pad.on_pad_reset(2 * SECOND);
    assert!(output.pulse.is_none() && output.motion.is_none());
    assert!(!pad.ready);
    assert_eq!(pad.deadline(), 2 * SECOND + 500_000);
    assert_eq!(pad.acc_x, 0);
}

#[test]
fn one_finger_moves() {
    let mut pad = ready_pad(0);
    let motion = block(0, 0, 0, 1, 1, 10, -4);
    assert_eq!(pad.decode(&motion, true), TouchReadResult::Motion { x: 10, y: 4 });
    assert_eq!(
        pad.decode(&block(0, 0, 1, 1, 1, 0, i16::MIN), true),
        TouchReadResult::Motion { x: 0, y: i16::MAX }
    );
    // Without the movement flag the deltas are stale.
    assert_eq!(pad.decode(&block(0, 0, 0, 0, 1, 10, -4), true), TouchReadResult::Idle { touching: true });
    assert_eq!(pad.decode(&block(0, 0, 0, 1, 0, 10, -4), true), TouchReadResult::Idle { touching: false });
}

#[test]
fn taps_press_buttons() {
    let mut pad = ready_pad(0);
    assert_eq!(pad.decode(&block(1, 0, 0, 0, 0, 0, 0), true), TouchReadResult::Gesture { buttons: 1 });
    assert_eq!(pad.decode(&block(2, 0, 0, 0, 0, 0, 0), true), TouchReadResult::Gesture { buttons: 1 });
    assert_eq!(pad.decode(&block(0, 1, 0, 0, 0, 0, 0), true), TouchReadResult::Gesture { buttons: 2 });
    let mut duplicate = block(0, 1, 0, 0, 0, 0, 0);
    duplicate[0] = 0;
    assert_eq!(pad.decode(&duplicate, true), TouchReadResult::Idle { touching: false });
    assert_eq!(pad.decode(&block(1, 0, 0, 0, 0, 0, 0), false), TouchReadResult::Idle { touching: false });
}

#[test]
fn scroll_needs_a_second_finger_that_stays() {
    let mut pad = ready_pad(0);
    let two_fingers = block(0, 2, 0, 0, 2, 0, 24);
    assert_eq!(pad.decode(&two_fingers, true), TouchReadResult::Idle { touching: true });
    assert_eq!(pad.decode(&two_fingers, true), TouchReadResult::Idle { touching: true });
    assert_eq!(pad.decode(&two_fingers, true), TouchReadResult::Scroll { h: 0, v: 3 });
    assert_eq!(pad.decode(&block(0, 2, 0, 0, 2, 0, 0), true), TouchReadResult::Idle { touching: true });
    pad.decode(&block(0, 0, 0, 1, 1, 1, 1), true);
    assert_eq!(pad.decode(&two_fingers, true), TouchReadResult::Idle { touching: true });
}

#[test]
fn untrusted_cycles_do_nothing() {
    let mut pad = ready_pad(0);
    pad.multi_finger_samples = 9;
    for info_0 in [0x02, 0x03, 0x08, 0x10, 0x19] {
        assert_eq!(pad.decode(&block(3, 3, info_0, 1, 2, 9, 9), true), TouchReadResult::Idle { touching: false });
        assert_eq!(pad.multi_finger_samples, 0);
    }
}

#[test]
fn motion_is_reported_at_the_report_rate() {
    let mut pad = ready_pad(SECOND);
    let output = pad.on_read(TouchReadResult::Motion { x: 100, y: -100 }, SECOND + 4_000);
    assert!(output.motion.is_none());
    let output = pad.on_read(TouchReadResult::Motion { x: 100, y: -100 }, SECOND + 8_000);
    let event = output.motion.unwrap();
    assert_eq!(event.device_id, 2);
    assert_eq!((event.axes[0].axis, event.axes[0].value), (Axis::X, 127));
    assert_eq!((event.axes[1].axis, event.axes[1].value), (Axis::Y, -128));
    assert_eq!((pad.acc_x, pad.acc_y), (73, -72));
    let output = pad.on_read(TouchReadResult::Idle { touching: false }, SECOND + 16_000);
    assert_eq!(output.motion.unwrap().axes[0].value, 73);
    let output = pad.on_read(TouchReadResult::Idle { touching: false }, SECOND + 24_000);
    assert!(output.motion.is_none());
    // Motion beyond the limit is dropped.
    for _ in 0..3 {
        pad.on_read(TouchReadResult::Motion { x: 127, y: 0 }, SECOND + 25_000);
    }
    assert_eq!(pad.acc_x, 254);
}

#[test]
fn gestures_and_scroll_are_published_at_once() {
    let mut pad = ready_pad(SECOND);
    let event = pad.on_read(TouchReadResult::Gesture { buttons: 2 }, SECOND).pulse.unwrap();
    assert_eq!((event.axes[2].axis, event.axes[2].value), (Axis::Z, 2));
    let event = pad.on_read(TouchReadResult::Scroll { h: -1, v: 0 }, SECOND).pulse.unwrap();
    assert_eq!((event.axes[0].axis, event.axes[0].value), (Axis::H, -1));
    assert_eq!((event.axes[1].axis, event.axes[1].value), (Axis::V, 0));
}

#[test]
fn polls_slow_down_while_nothing_happens() {
    let mut pad = ready_pad(0);
    assert_eq!(pad.deadline(), 8_000);
    pad.on_read(TouchReadResult::Idle { touching: false }, 2 * SECOND);
    assert_eq!(pad.deadline(), 2 * SECOND + 40_000);
    pad.on_read(TouchReadResult::Idle { touching: true }, 30 * SECOND);
    assert_eq!(pad.deadline(), 30 * SECOND + 8_000);
}

#[test]
fn repeated_failures_initialise_the_pad_anew() {
    let mut pad = ready_pad(SECOND);
    for failures in 1..4 {
        let output = pad.on_read(TouchReadResult::ReadFailed, SECOND);
        assert_eq!(output.pause_ms, 0);
        assert_eq!(pad.read_failures, failures);
        assert_eq!(pad.deadline(), SECOND + 8_000);
    }
    let output = pad.on_read(TouchReadResult::ReadFailed, SECOND);
    assert_eq!(output.pause_ms, TOUCH_REINIT_PAUSE_MS);
    assert!(!pad.ready);
    assert_eq!(pad.read_failures, 0);
    assert_eq!(pad.deadline(), SECOND + 500_000);
}

#[test]
fn missing_pads_are_probed_less_often_later() {
    let mut pad = Touchpad::new(3);
    assert_eq!(pad.deadline(), 0);
    pad.init_finished(false, SECOND);
    assert_eq!(pad.deadline(), SECOND + 500_000);
    pad.init_finished(false, 11 * SECOND - 1);
    assert_eq!(pad.deadline(), 11 * SECOND - 1 + 500_000);
    pad.init_finished(false, 11 * SECOND);
    assert_eq!(pad.deadline(), 13 * SECOND);
    assert!(pad.can_run(11 * SECOND));
    assert!(!pad.can_run(0));
    assert!(!pad.can_run(u64::MAX));
}
