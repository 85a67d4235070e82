use rmk::touch_poll::{PollAction, PollEvent, PollState, PollTurn, SETTINGS_LEN};
use rmk::touchpad::{end_session, init_writes, wake, RegisterWrite, Touchpad, TOUCH_REINIT_PAUSE_MS};

const SECOND: u64 = 1_000_000;

/// Answers every action of a poll as a chip would, and returns what was written.
fn run(pad: &mut Touchpad, now: u64, block: Option<[u8; 10]>, fails: Option<usize>) -> (Vec<RegisterWrite>, PollTurn) {
    let (mut state, mut action) = pad.begin_poll();
    let mut writes = Vec::new();
    loop {
        let event = match action {
            PollAction::Write(write) => {
                writes.push(write);
                PollEvent::Wrote(fails != Some(writes.len()))
            }
            PollAction::ReadWord(reg) => {
                assert_eq!(reg, 0);
                PollEvent::Word(Some([0, 40]))
            }
            PollAction::ReadBlock => PollEvent::Block(block),
            PollAction::Pause(_) => PollEvent::PauseElapsed,
            PollAction::Scale { x, y } => PollEvent::Scaled { x: x * 2, y: y * 2 },
            PollAction::Done => panic!("the poll was over"),
        };
        let turn = pad.poll_step(state, event, true, now);
        if turn.action == PollAction::Done {
            return (writes, turn);
        }
        assert!(turn.pulse.is_none() || matches!(turn.state, PollState::Settle));
        state = turn.state;
        action = turn.action;
    }
}

fn motion(x: i16, y: i16) -> [u8; 10] {
    let x = x.to_be_bytes();
    let y = y.to_be_bytes();
    [8, 0, 0, 0, 1, 1, x[0], x[1], y[0], y[1]]
}

#[test]
fn a_new_pad_is_initialised_and_read() {
    let mut pad = Touchpad::new(2);
    let (writes, turn) = run(&mut pad, SECOND, Some(motion(3, 5)), None);
    assert!(pad.ready);
    assert_eq!(writes.len(), 2 + SETTINGS_LEN + 1);
    assert_eq!(&writes[..2], &[wake(), end_session()]);
    assert_eq!(&writes[2..2 + SETTINGS_LEN], &init_writes()[..]);
    assert_eq!(writes[2 + SETTINGS_LEN], end_session());
    // The movement is scaled, and reported when a report is due.
    assert_eq!((pad.acc_x, pad.acc_y), (6, -10));
    assert!(turn.motion.is_none());
    let (writes, turn) = run(&mut pad, SECOND + 8_000, Some(motion(0, 0)), None);
    assert_eq!(writes, vec![end_session()]);
    let event = turn.motion.unwrap();
    assert_eq!((event.axes[0].value, event.axes[1].value), (6, -10));
}

#[test]
fn every_setting_is_written_even_after_a_failure() {
    let mut pad = Touchpad::new(2);
    let (writes, _) = run(&mut pad, SECOND, Some(motion(3, 5)), Some(5));
    assert_eq!(writes.len(), 2 + SETTINGS_LEN);
    assert!(!pad.ready);
    assert_eq!(pad.deadline(), SECOND + 500_000);
}

#[test]
fn waking_may_fail() {
    let mut pad = Touchpad::new(2);
    run(&mut pad, SECOND, Some(motion(3, 5)), Some(1));
    assert!(pad.ready);
    let mut pad = Touchpad::new(2);
    run(&mut pad, SECOND, Some(motion(3, 5)), Some(2));
    assert!(pad.ready);
}

#[test]
fn missing_pads_are_not_configured() {
    for answer in [None, Some([0, 0])] {
        let mut pad = Touchpad::new(2);
        let (state, _) = pad.begin_poll();
        let turn = pad.poll_step(state, PollEvent::Word(answer), true, SECOND);
        assert_eq!(turn.action, PollAction::Done);
        assert_eq!(pad.deadline(), SECOND + 500_000);
        let turn = pad.poll_step(PollState::ConfirmProduct, PollEvent::Word(answer), true, SECOND);
        assert_eq!(turn.action, PollAction::Done);
    }
}

#[test]
fn reset_pads_are_acknowledged_and_initialised_anew() {
    let mut pad = Touchpad::new(2);
    pad.init_finished(true, SECOND);
    let mut block = motion(3, 5);
    block[3] = 0x80;
    let (writes, turn) = run(&mut pad, 2 * SECOND, Some(block), None);
    assert_eq!(writes, vec![RegisterWrite::Byte { reg: 0x0431, val: 0x80 }, end_session()]);
    assert!(turn.pulse.is_none() && turn.motion.is_none());
    assert!(!pad.ready);
}

#[test]
fn gestures_are_published_with_the_last_turn() {
    let mut pad = Touchpad::new(2);
    pad.init_finished(true, SECOND);
    let (_, turn) = run(&mut pad, SECOND, Some([8, 1, 0, 0, 0, 0, 0, 0, 0, 0]), None);
    assert_eq!(turn.pulse.unwrap().axes[2].value, 1);
}

#[test]
fn failed_transfers_count_until_the_pad_is_given_up() {
    let mut pad = Touchpad::new(2);
    pad.init_finished(true, SECOND);
    run(&mut pad, SECOND, None, None);
    run(&mut pad, SECOND, Some(motion(1, 1)), Some(1));
    run(&mut pad, SECOND, None, None);
    assert_eq!(pad.read_failures, 3);
    let (state, _) = pad.begin_poll();
    let turn = pad.poll_step(state, PollEvent::Block(None), true, SECOND);
    assert_eq!(turn.action, PollAction::Pause(TOUCH_REINIT_PAUSE_MS));
    assert!(!pad.ready);
    let turn = pad.poll_step(turn.state, PollEvent::PauseElapsed, true, SECOND);
    assert_eq!(turn.action, PollAction::Done);
}
