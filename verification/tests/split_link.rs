use rmk::split::manager::{link_turn, look_up, LinkAction, LinkEvent, LinkState};
use rmk::split::peers::{PeerSet, PeerSlots};

struct Central {
    slots: PeerSlots,
    candidates: PeerSet,
    connected: PeerSet,
}

impl Central {
    fn new(slots: &[Option<[u8; 6]>]) -> Self {
        Self {
            slots: PeerSlots::from_saved::<8>(slots).unwrap(),
            candidates: PeerSet::new(),
            connected: PeerSet::new(),
        }
    }

    fn turn(&mut self, state: LinkState, event: LinkEvent) -> rmk::split::manager::LinkTurn {
        link_turn(state, event, &mut self.slots, &mut self.candidates, &mut self.connected, 0)
    }
}

#[test]
fn unknown_peripherals_are_scanned_for() {
    let mut central = Central::new(&[None]);
    let (state, action) = look_up(&central.slots, 0);
    assert!(matches!(action, LinkAction::RequestScan));
    let turn = central.turn(state, LinkEvent::PauseElapsed);
    assert!(matches!(turn.action, LinkAction::RequestScan));
    central.slots.on_found(&mut central.candidates, 0, [7; 6]);
    let turn = central.turn(turn.state, LinkEvent::PauseElapsed);
    assert!(matches!(turn.action, LinkAction::AwaitStack));
}

#[test]
fn a_proved_peripheral_is_saved_and_tried_again() {
    let mut central = Central::new(&[None]);
    central.slots.on_found(&mut central.candidates, 0, [7; 6]);
    central.connected.insert(0);
    let (state, _) = look_up(&central.slots, 0);
    let turn = central.turn(state, LinkEvent::StackStarted);
    assert!(matches!(turn.action, LinkAction::Connect(addr) if addr == [7; 6]));
    assert!(!central.connected.all_peripherals_connected(1));
    let turn = central.turn(turn.state, LinkEvent::Connected);
    assert!(matches!(turn.action, LinkAction::RunLink));
    assert!(!central.connected.all_peripherals_connected(1));
    let turn = central.turn(turn.state, LinkEvent::Validated);
    let record = turn.record.unwrap();
    assert_eq!((record.peer_id, record.is_valid, record.address), (0, true, [7; 6]));
    assert!(central.connected.all_peripherals_connected(1));
    let turn = central.turn(turn.state, LinkEvent::LinkEnded);
    assert!(turn.record.is_none());
    assert!(matches!(turn.action, LinkAction::Pause));
    let turn = central.turn(turn.state, LinkEvent::PauseElapsed);
    assert!(matches!(turn.state, LinkState::AwaitStack { addr } if addr == [7; 6]));
}

#[test]
fn unproved_peripherals_are_forgotten() {
    for event in [LinkEvent::ConnectFailed, LinkEvent::Connected] {
        let mut central = Central::new(&[Some([7; 6])]);
        let (state, _) = look_up(&central.slots, 0);
        let turn = central.turn(state, LinkEvent::StackStarted);
        let mut turn = central.turn(turn.state, event);
        if event == LinkEvent::Connected {
            turn = central.turn(turn.state, LinkEvent::LinkEnded);
        }
        let record = turn.record.unwrap();
        assert_eq!((record.is_valid, record.address), (false, [0; 6]));
        let turn = central.turn(turn.state, LinkEvent::PauseElapsed);
        assert!(matches!(turn.action, LinkAction::RequestScan));
    }
}
