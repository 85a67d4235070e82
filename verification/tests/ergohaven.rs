use rmk::ergohaven::{
    k04_common_ble_id, BleProfileAction, ErgohavenUserKeys, UserKeyAction, CLEAR_PEER_HOLD, K04_USER_BATTERY_LEVEL,
    K04_USER_BT_CLEAR, K04_USER_BT_CLEAR_PEER, K04_USER_BT_NEXT, K04_USER_BT_OUTPUT, K04_USER_BT_PREV,
    K04_USER_BT_PROFILE0, K04_USER_BT_PROFILE4, K04_USER_BT_TOGGLE, K04_USER_USB_OUTPUT,
};
use rmk::event::{Action, ActionEvent, KeyboardEvent};
use rmk::features::Features;
use rmk::state::ConnectionType;

const PROFILES: u8 = 5;

fn features() -> Features {
    Features { split: true, host: true, ble_zero_latency: false, no_usb: false }
}

fn user(id: u8, pressed: bool) -> ActionEvent {
    ActionEvent { keyboard_event: KeyboardEvent { key: 3, pressed }, action: Action::User(id) }
}

fn release(id: u8, features: &Features) -> UserKeyAction {
    ErgohavenUserKeys::new().on_action_event(user(id, false), PROFILES, features, 0)
}

#[test]
fn profile_keys_switch_profiles() {
    assert_eq!(
        release(K04_USER_BT_PROFILE0, &features()),
        UserKeyAction::Profile(BleProfileAction::Switch(0))
    );
    assert_eq!(
        release(K04_USER_BT_PROFILE4, &features()),
        UserKeyAction::Profile(BleProfileAction::Switch(4))
    );
    assert_eq!(release(3, &features()), UserKeyAction::Profile(BleProfileAction::Switch(3)));
    assert_eq!(release(K04_USER_BT_NEXT, &features()), UserKeyAction::Profile(BleProfileAction::Next));
    assert_eq!(release(K04_USER_BT_PREV, &features()), UserKeyAction::Profile(BleProfileAction::Previous));
    assert_eq!(release(K04_USER_BT_CLEAR, &features()), UserKeyAction::Profile(BleProfileAction::ClearBond));
    assert_eq!(release(PROFILES, &features()), UserKeyAction::Profile(BleProfileAction::Next));
}

#[test]
fn output_keys_choose_the_transport() {
    assert_eq!(
        release(K04_USER_BT_OUTPUT, &features()),
        UserKeyAction::SetPreferredConnection(ConnectionType::Ble)
    );
    assert_eq!(
        release(K04_USER_USB_OUTPUT, &features()),
        UserKeyAction::SetPreferredConnection(ConnectionType::Usb)
    );
    assert_eq!(release(K04_USER_BT_TOGGLE, &features()), UserKeyAction::TogglePreferredConnection);
    let no_usb = Features { no_usb: true, ..features() };
    assert_eq!(release(K04_USER_BT_TOGGLE, &no_usb), UserKeyAction::Nothing);
}

#[test]
fn battery_keys_need_peripherals() {
    assert_eq!(release(K04_USER_BATTERY_LEVEL, &features()), UserKeyAction::RefreshPeripheralBattery);
    let alone = Features { split: false, ..features() };
    assert_eq!(release(K04_USER_BATTERY_LEVEL, &alone), UserKeyAction::Nothing);
}

#[test]
fn other_actions_do_nothing() {
    let mut keys = ErgohavenUserKeys::default();
    let builtin = ActionEvent { keyboard_event: KeyboardEvent { key: 3, pressed: false }, action: Action::Builtin };
    assert_eq!(keys.on_action_event(builtin, PROFILES, &features(), 0), UserKeyAction::Nothing);
    assert_eq!(keys.on_action_event(user(K04_USER_BT_NEXT, true), PROFILES, &features(), 0), UserKeyAction::Nothing);
    assert_eq!(release(200, &features()), UserKeyAction::Nothing);
    assert_eq!(release(K04_USER_BT_CLEAR_PEER, &features()), UserKeyAction::Nothing);
}

#[test]
fn peers_are_cleared_after_a_long_hold() {
    let mut keys = ErgohavenUserKeys::new();
    let press = user(K04_USER_BT_CLEAR_PEER, true);
    keys.on_action_event(press, PROFILES, &features(), 100);
    keys.on_keyboard_event(press.keyboard_event);
    assert!(!keys.poll(&features(), 100 + CLEAR_PEER_HOLD - 1));
    assert!(keys.poll(&features(), 100 + CLEAR_PEER_HOLD));
    assert!(!keys.poll(&features(), 100 + CLEAR_PEER_HOLD));
}

#[test]
fn any_other_key_ends_the_hold() {
    for other in [KeyboardEvent { key: 3, pressed: false }, KeyboardEvent { key: 4, pressed: true }] {
        let mut keys = ErgohavenUserKeys::new();
        keys.on_action_event(user(K04_USER_BT_CLEAR_PEER, true), PROFILES, &features(), 100);
        keys.on_keyboard_event(other);
        assert_eq!(keys, ErgohavenUserKeys::new());
        assert!(!keys.poll(&features(), u64::MAX));
    }
}

#[test]
fn keyboards_without_peripherals_have_no_peers_to_clear() {
    let alone = Features { split: false, ..features() };
    let mut keys = ErgohavenUserKeys::new();
    keys.on_action_event(user(K04_USER_BT_CLEAR_PEER, true), PROFILES, &alone, 100);
    assert_eq!(keys, ErgohavenUserKeys::new());
}

#[test]
fn k04_keys_map_to_the_common_layout() {
    assert_eq!(k04_common_ble_id(21, PROFILES), Some(2));
    assert_eq!(k04_common_ble_id(K04_USER_BT_NEXT, PROFILES), Some(5));
    assert_eq!(k04_common_ble_id(K04_USER_BT_CLEAR_PEER, PROFILES), Some(9));
    assert_eq!(k04_common_ble_id(28, PROFILES), None);
}
