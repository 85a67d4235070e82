//! Ergohaven product-level user key actions.
//!
//! The keymap treats `Action::User` as an application-defined action. Here the
//! historical UserN assignments control BLE profiles, the output of reports, the reset
//! of split peers and the refresh of peripheral batteries.
//!
//! Times are microseconds since boot.

use vstd::prelude::*;

use crate::event::{Action, ActionEvent, KeyboardEvent};
use crate::features::Features;
use crate::state::ConnectionType;

verus! {

pub const K04_USER_BT_PROFILE0: u8 = 19;

pub const K04_USER_BT_PROFILE1: u8 = 20;

pub const K04_USER_BT_PROFILE2: u8 = 21;

pub const K04_USER_BT_PROFILE3: u8 = 22;

pub const K04_USER_BT_PROFILE4: u8 = 23;

pub const K04_USER_BT_NEXT: u8 = 24;

pub const K04_USER_BT_PREV: u8 = 25;

pub const K04_USER_BT_CLEAR: u8 = 26;

pub const K04_USER_BT_TOGGLE: u8 = 27;

pub const K04_USER_BT_OUTPUT: u8 = 37;

pub const K04_USER_USB_OUTPUT: u8 = 38;

pub const K04_USER_BATTERY_LEVEL: u8 = 39;

pub const K04_USER_BT_CLEAR_PEER: u8 = 40;

/// Time for which the key that clears the split peers has to be held.
pub const CLEAR_PEER_HOLD: u64 = 5_000_000;

/// Most BLE profiles that leave room for the actions behind them.
pub const MAX_BLE_PROFILES: u8 = 251;

/// A request to the BLE profiles.
#[derive(Clone, Copy, Debug, PartialEq, Eq, Structural)]
pub enum BleProfileAction {
    Switch(u8),
    Next,
    Previous,
    ClearBond,
}

/// What a user key asks for.
#[derive(Clone, Copy, Debug, PartialEq, Eq, Structural)]
pub enum UserKeyAction {
    Nothing,
    SetPreferredConnection(ConnectionType),
    TogglePreferredConnection,
    RefreshPeripheralBattery,
    Profile(BleProfileAction),
}

/// Number in the common layout of user keys: profiles come first, then five actions.
pub open spec fn common_id(id: u8, num_profiles: u8) -> Option<int> {
    if K04_USER_BT_PROFILE0 <= id <= K04_USER_BT_PROFILE4 {
        Some(id - K04_USER_BT_PROFILE0)
    } else if K04_USER_BT_NEXT <= id <= K04_USER_BT_TOGGLE {
        Some(num_profiles + (id - K04_USER_BT_NEXT))
    } else if id == K04_USER_BT_CLEAR_PEER {
        Some(num_profiles + 4)
    } else {
        None
    }
}

/// Number of a user key in the common layout; a key that K:04 does not assign has its own.
pub open spec fn ble_id(id: u8, num_profiles: u8) -> int {
    match common_id(id, num_profiles) {
        Some(common) => common,
        None => id as int,
    }
}

/// What the release of a user key asks for.
pub open spec fn released_action(id: u8, num_profiles: u8, features: Features) -> UserKeyAction {
    let common = ble_id(id, num_profiles);
    if id == K04_USER_BT_OUTPUT {
        UserKeyAction::SetPreferredConnection(ConnectionType::Ble)
    } else if id == K04_USER_USB_OUTPUT {
        UserKeyAction::SetPreferredConnection(ConnectionType::Usb)
    } else if id == K04_USER_BATTERY_LEVEL {
        if features.split {
            UserKeyAction::RefreshPeripheralBattery
        } else {
            UserKeyAction::Nothing
        }
    } else if common < num_profiles {
        UserKeyAction::Profile(BleProfileAction::Switch(common as u8))
    } else if common == num_profiles {
        UserKeyAction::Profile(BleProfileAction::Next)
    } else if common == num_profiles + 1 {
        UserKeyAction::Profile(BleProfileAction::Previous)
    } else if common == num_profiles + 2 {
        UserKeyAction::Profile(BleProfileAction::ClearBond)
    } else if common == num_profiles + 3 && !features.no_usb {
        UserKeyAction::TogglePreferredConnection
    } else {
        UserKeyAction::Nothing
    }
}

/// Number of a K:04 user key in the common layout.
pub fn k04_common_ble_id(id: u8, num_profiles: u8) -> (common: Option<u8>)
    requires
        num_profiles <= MAX_BLE_PROFILES,
    ensures
        common is Some == common_id(id, num_profiles) is Some,
        common matches Some(c) ==> common_id(id, num_profiles) == Some(c as int),
{
    match id {
        K04_USER_BT_PROFILE0 => Some(0),
        K04_USER_BT_PROFILE1 => Some(1),
        K04_USER_BT_PROFILE2 => Some(2),
        K04_USER_BT_PROFILE3 => Some(3),
        K04_USER_BT_PROFILE4 => Some(4),
        K04_USER_BT_NEXT => Some(num_profiles),
        K04_USER_BT_PREV => Some(num_profiles + 1),
        K04_USER_BT_CLEAR => Some(num_profiles + 2),
        K04_USER_BT_TOGGLE => Some(num_profiles + 3),
        K04_USER_BT_CLEAR_PEER => Some(num_profiles + 4),
        _ => None,
    }
}

/// Processes Ergohaven's historical UserN assignments.
#[derive(Clone, Copy, Debug, PartialEq, Eq, Structural)]
pub struct ErgohavenUserKeys {
    pub clear_peer_deadline: Option<u64>,
    pub clear_peer_key: Option<KeyboardEvent>,
}

impl Default for ErgohavenUserKeys {
    fn default() -> (keys: Self)
        ensures
            keys == disarmed(),
    {
        Self::new()
    }
}

/// No key that clears the split peers is held.
pub open spec fn disarmed() -> ErgohavenUserKeys {
    ErgohavenUserKeys { clear_peer_deadline: None, clear_peer_key: None }
}

/// State after an action.
pub open spec fn after_action(
    keys: ErgohavenUserKeys,
    event: ActionEvent,
    num_profiles: u8,
    features: Features,
    now: u64,
) -> ErgohavenUserKeys {
    match event.action {
        Action::User(id) if event.keyboard_event.pressed && ble_id(id, num_profiles) == num_profiles + 4
            && features.split => ErgohavenUserKeys {
            clear_peer_deadline: Some((now + CLEAR_PEER_HOLD) as u64),
            clear_peer_key: Some(event.keyboard_event),
        },
        _ => keys,
    }
}

/// What an action asks for.
pub open spec fn action_asked(event: ActionEvent, num_profiles: u8, features: Features) -> UserKeyAction {
    match event.action {
        Action::User(id) if !event.keyboard_event.pressed => released_action(id, num_profiles, features),
        _ => UserKeyAction::Nothing,
    }
}

/// Whether the split peers are cleared, and the state after a look at the clock.
pub open spec fn after_poll(keys: ErgohavenUserKeys, features: Features, now: u64) -> (bool, ErgohavenUserKeys) {
    if is_due(keys, now) {
        (features.split, disarmed())
    } else {
        (false, keys)
    }
}

/// State after a key was pressed or released.
pub open spec fn after_key(keys: ErgohavenUserKeys, event: KeyboardEvent) -> ErgohavenUserKeys {
    if keys.clear_peer_deadline is Some && keys.clear_peer_key != Some(event) {
        disarmed()
    } else {
        keys
    }
}

/// Whether a key was held for long enough.
pub open spec fn is_due(keys: ErgohavenUserKeys, now: u64) -> bool {
    keys.clear_peer_deadline matches Some(deadline) && now >= deadline
}

impl ErgohavenUserKeys {
    /// No key is held.
    pub fn new() -> (keys: Self)
        ensures
            keys == disarmed(),
    {
        ErgohavenUserKeys { clear_peer_deadline: None, clear_peer_key: None }
    }

    /// A key resolved to an action. User keys act when they are released; the one that
    /// clears the split peers starts to count when it is pressed.
    pub fn on_action_event(&mut self, event: ActionEvent, num_profiles: u8, features: &Features, now: u64) -> (action:
        UserKeyAction)
        requires
            num_profiles <= MAX_BLE_PROFILES,
            now + CLEAR_PEER_HOLD <= u64::MAX,
        ensures
            *final(self) == after_action(*old(self), event, num_profiles, *features, now),
            action == action_asked(event, num_profiles, *features),
    {
        let id: u8 = match event.action {
            Action::User(id) => id,
            Action::Builtin => {
                return UserKeyAction::Nothing;
            },
        };
        let common: u8 = match k04_common_ble_id(id, num_profiles) {
            Some(common) => common,
            None => id,
        };
        if event.keyboard_event.pressed {
            if common == num_profiles + 4 {
                self.arm_clear_peer(event.keyboard_event, features, now);
            }
            return UserKeyAction::Nothing;
        }
        if id == K04_USER_BT_OUTPUT {
            return UserKeyAction::SetPreferredConnection(ConnectionType::Ble);
        }
        if id == K04_USER_USB_OUTPUT {
            return UserKeyAction::SetPreferredConnection(ConnectionType::Usb);
        }
        if id == K04_USER_BATTERY_LEVEL {
            return if features.split {
                UserKeyAction::RefreshPeripheralBattery
            } else {
                UserKeyAction::Nothing
            };
        }
        if common < num_profiles {
            UserKeyAction::Profile(BleProfileAction::Switch(common))
        } else if common == num_profiles {
            UserKeyAction::Profile(BleProfileAction::Next)
        } else if common == num_profiles + 1 {
            UserKeyAction::Profile(BleProfileAction::Previous)
        } else if common == num_profiles + 2 {
            UserKeyAction::Profile(BleProfileAction::ClearBond)
        } else if common == num_profiles + 3 && !features.no_usb {
            UserKeyAction::TogglePreferredConnection
        } else {
            UserKeyAction::Nothing
        }
    }

    /// A key was pressed or released: anything but the press that started the count
    /// ends it.
    pub fn on_keyboard_event(&mut self, event: KeyboardEvent)
        ensures
            *final(self) == after_key(*old(self), event),
    {
        if self.clear_peer_deadline.is_some() {
            let same = match self.clear_peer_key {
                Some(key) => key == event,
                None => false,
            };
            if !same {
                self.clear_peer_deadline = None;
                self.clear_peer_key = None;
            }
        }
    }

    /// Looks at the clock. Returns whether the split peers are to be cleared now.
    pub fn poll(&mut self, features: &Features, now: u64) -> (clear_peer: bool)
        ensures
            (clear_peer, *final(self)) == after_poll(*old(self), *features, now),
    {
        match self.clear_peer_deadline {
            Some(deadline) => {
                if now < deadline {
                    return false;
                }
                self.clear_peer_deadline = None;
                self.clear_peer_key = None;
                features.split
            },
            None => false,
        }
    }

    /// The key that clears the split peers was pressed.
    fn arm_clear_peer(&mut self, event: KeyboardEvent, features: &Features, now: u64)
        requires
            now + CLEAR_PEER_HOLD <= u64::MAX,
        ensures
            *final(self) == (if features.split {
                ErgohavenUserKeys {
                    clear_peer_deadline: Some((now + CLEAR_PEER_HOLD) as u64),
                    clear_peer_key: Some(event),
                }
            } else {
                *old(self)
            }),
    {
        if features.split {
            self.clear_peer_deadline = Some(now + CLEAR_PEER_HOLD);
            self.clear_peer_key = Some(event);
        }
    }
}

/// The split peers are cleared only by a key that was held alone for the whole time: the
/// press starts the count, its own event does not end it, any other key event does, and
/// no poll before the deadline clears anything.
pub proof fn law_clearing_peers_takes_a_long_hold(
    keys: ErgohavenUserKeys,
    press: ActionEvent,
    other: KeyboardEvent,
    num_profiles: u8,
    features: Features,
    pressed_at: u64,
    now: u64,
)
    requires
        num_profiles <= MAX_BLE_PROFILES,
        pressed_at + CLEAR_PEER_HOLD <= u64::MAX,
        features.split,
        press.keyboard_event.pressed,
        press.action matches Action::User(id) && ble_id(id, num_profiles) == num_profiles + 4,
        other != press.keyboard_event,
    ensures
        ({
            let armed = after_action(keys, press, num_profiles, features, pressed_at);
            &&& after_key(armed, press.keyboard_event) == armed
            &&& after_key(armed, other) == disarmed()
            &&& !is_due(disarmed(), now)
            &&& is_due(armed, now) <==> now >= pressed_at + CLEAR_PEER_HOLD
        }),
{
}

/// Every K:04 profile key of a profile that exists switches to that profile.
pub proof fn law_profile_keys_switch_profiles(profile: u8, num_profiles: u8, features: Features)
    requires
        num_profiles <= MAX_BLE_PROFILES,
        profile < num_profiles,
        profile <= 4,
    ensures
        released_action((K04_USER_BT_PROFILE0 + profile) as u8, num_profiles, features) == UserKeyAction::Profile(
            BleProfileAction::Switch(profile),
        ),
{
}

/// User keys act when they are released. 19 to 23 switch to the first five profiles, and
/// go on as the common layout does where there are fewer; 24 to 26 switch to the next and the previous profile and
/// clear the bond; 27 toggles the output, unless there is no USB port, and 37 and 38
/// choose BLE and USB; 39 refreshes the batteries of split peripherals. With at most 19
/// profiles no other key from 19 to 40 does anything.
pub proof fn law_user_keys_do_as_assigned(event: ActionEvent, id: u8, num_profiles: u8, features: Features)
    requires
        num_profiles <= 251,
        event.action == Action::User(id),
    ensures
        event.keyboard_event.pressed ==> action_asked(event, num_profiles, features) == UserKeyAction::Nothing,
        !event.keyboard_event.pressed ==> {
            let asked = action_asked(event, num_profiles, features);
            &&& 19 <= id <= 23 && id - 19 < num_profiles ==> asked == UserKeyAction::Profile(
                BleProfileAction::Switch((id - 19) as u8),
            )
            &&& 19 <= id <= 23 && id - 19 == num_profiles ==> asked == UserKeyAction::Profile(BleProfileAction::Next)
            &&& 19 <= id <= 23 && id - 19 == num_profiles + 1 ==> asked == UserKeyAction::Profile(
                BleProfileAction::Previous,
            )
            &&& 19 <= id <= 23 && id - 19 == num_profiles + 2 ==> asked == UserKeyAction::Profile(
                BleProfileAction::ClearBond,
            )
            &&& id == 24 ==> asked == UserKeyAction::Profile(BleProfileAction::Next)
            &&& id == 25 ==> asked == UserKeyAction::Profile(BleProfileAction::Previous)
            &&& id == 26 ==> asked == UserKeyAction::Profile(BleProfileAction::ClearBond)
            &&& id == 27 && !features.no_usb ==> asked == UserKeyAction::TogglePreferredConnection
            &&& id == 27 && features.no_usb ==> asked == UserKeyAction::Nothing
            &&& id == 37 ==> asked == UserKeyAction::SetPreferredConnection(ConnectionType::Ble)
            &&& id == 38 ==> asked == UserKeyAction::SetPreferredConnection(ConnectionType::Usb)
            &&& id == 39 && features.split ==> asked == UserKeyAction::RefreshPeripheralBattery
            &&& id == 39 && !features.split ==> asked == UserKeyAction::Nothing
            &&& id == 40 ==> asked == UserKeyAction::Nothing
            &&& num_profiles <= 19 && 28 <= id <= 36 && id > num_profiles + 3 ==> asked == UserKeyAction::Nothing
        },
{
}

/// A key that K:04 does not assign has its place in the common layout: a profile's own
/// number, and behind the profiles the next and the previous profile, the bond and the
/// output.
pub proof fn law_common_keys_follow_the_profiles(event: ActionEvent, id: u8, num_profiles: u8, features: Features)
    requires
        num_profiles <= 251,
        event.action == Action::User(id),
        !event.keyboard_event.pressed,
        id < 19 || 28 <= id <= 36 || id > 40,
    ensures
        ({
            let asked = action_asked(event, num_profiles, features);
            &&& id < num_profiles ==> asked == UserKeyAction::Profile(BleProfileAction::Switch(id))
            &&& id == num_profiles ==> asked == UserKeyAction::Profile(BleProfileAction::Next)
            &&& id == num_profiles + 1 ==> asked == UserKeyAction::Profile(BleProfileAction::Previous)
            &&& id == num_profiles + 2 ==> asked == UserKeyAction::Profile(BleProfileAction::ClearBond)
            &&& id == num_profiles + 3 && !features.no_usb ==> asked == UserKeyAction::TogglePreferredConnection
            &&& id > num_profiles + 3 ==> asked == UserKeyAction::Nothing
        }),
{
}

/// A press of key 40, or of the last key of the common layout, starts a count of five
/// seconds where there are split peripherals; no other action starts or changes one. The
/// event of that press leaves the count running, and any other key event ends it. When
/// it is over the peers are cleared, once.
pub proof fn law_peers_are_cleared_after_five_seconds(
    keys: ErgohavenUserKeys,
    event: ActionEvent,
    key: KeyboardEvent,
    num_profiles: u8,
    features: Features,
    now: u64,
)
    requires
        num_profiles <= 251,
        now + 5_000_000 <= u64::MAX,
    ensures
        ({
            let after = after_action(keys, event, num_profiles, features, now);
            let starts = event.keyboard_event.pressed && features.split && match event.action {
                Action::User(id) => id == 40 || (id == num_profiles + 4 && (id < 19 || 28 <= id <= 39 || id > 40))
                    || (19 <= id <= 23 && id - 19 == num_profiles + 4),
                Action::Builtin => false,
            };
            &&& !starts ==> after == keys
            &&& starts ==> after.clear_peer_deadline == Some((now + 5_000_000) as u64) && after.clear_peer_key == Some(
                event.keyboard_event,
            )
        }),
        keys.clear_peer_deadline is Some && keys.clear_peer_key == Some(key) ==> after_key(keys, key) == keys,
        keys.clear_peer_deadline is Some && keys.clear_peer_key != Some(key) ==> after_key(keys, key).clear_peer_deadline
            is None,
        keys.clear_peer_deadline is None ==> after_key(keys, key) == keys,
        ({
            let (cleared, after) = after_poll(keys, features, now);
            let over = keys.clear_peer_deadline is Some && now >= keys.clear_peer_deadline->0;
            &&& cleared <==> over && features.split
            &&& over ==> after.clear_peer_deadline is None
            &&& !over ==> after == keys
        }),
{
}

} // verus!
