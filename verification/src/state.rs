//! Connection state of the keyboard as its parts see it.

use vstd::prelude::*;

use crate::ble::advertise::BleAdvertisingMode;

verus! {

/// State of the BLE transport.
#[derive(Clone, Copy, Debug, PartialEq, Eq, Structural)]
pub enum BleState {
    Advertising,
    Connected,
    Inactive,
}

/// Active profile and its state.
#[derive(Clone, Copy, Debug, PartialEq, Eq, Structural)]
pub struct BleStatus {
    pub profile: u8,
    pub state: BleState,
}

/// Where reports go.
#[derive(Clone, Copy, Debug, PartialEq, Eq, Structural)]
pub enum ConnectionType {
    Usb,
    Ble,
}

/// Snapshot of the BLE transport.
#[derive(Clone, Copy, Debug, PartialEq, Eq, Structural)]
pub struct ConnectionState {
    pub status: BleStatus,
    pub advertising_mode: BleAdvertisingMode,
}

/// Snapshot with the active profile in a state.
pub open spec fn in_state(c: ConnectionState, state: BleState) -> ConnectionState {
    ConnectionState { status: BleStatus { profile: c.status.profile, state }, ..c }
}

/// Snapshot with a profile made active.
pub open spec fn on_profile(c: ConnectionState, profile: u8) -> ConnectionState {
    ConnectionState {
        status: BleStatus {
            profile,
            state: if profile == c.status.profile {
                c.status.state
            } else {
                BleState::Inactive
            },
        },
        ..c
    }
}

/// Snapshot with a purpose of advertisements.
pub open spec fn advertising_for(c: ConnectionState, mode: BleAdvertisingMode) -> ConnectionState {
    ConnectionState { advertising_mode: mode, ..c }
}

impl ConnectionState {
    /// No connection, on the first profile.
    pub fn new() -> (this: Self)
        ensures
            this == (ConnectionState {
                status: BleStatus { profile: 0, state: BleState::Inactive },
                advertising_mode: BleAdvertisingMode::Pairing,
            }),
    {
        ConnectionState {
            status: BleStatus { profile: 0, state: BleState::Inactive },
            advertising_mode: BleAdvertisingMode::Pairing,
        }
    }

    /// Moves the active profile to a state.
    pub fn set_ble_state(&mut self, state: BleState)
        ensures
            *final(self) == in_state(*old(self), state),
    {
        self.status.state = state;
    }

    /// Makes a profile active. Another profile starts out without a connection.
    pub fn set_ble_profile(&mut self, profile: u8)
        ensures
            *final(self) == on_profile(*old(self), profile),
    {
        if profile != self.status.profile {
            self.status.profile = profile;
            self.status.state = BleState::Inactive;
        }
    }

    /// Notes what advertisements are for.
    pub fn set_ble_advertising_mode(&mut self, mode: BleAdvertisingMode)
        ensures
            *final(self) == advertising_for(*old(self), mode),
    {
        self.advertising_mode = mode;
    }
}

/// A state belongs to the active profile and stays with it: choosing the same profile
/// keeps it, and another one starts without a connection. The purpose of advertisements
/// is noted beside them and changes with nothing else.
pub proof fn law_states_belong_to_their_profile(
    c: ConnectionState,
    state: BleState,
    profile: u8,
    mode: BleAdvertisingMode,
)
    ensures
        in_state(c, state).status.state == state,
        in_state(c, state).status.profile == c.status.profile,
        in_state(c, state).advertising_mode == c.advertising_mode,
        on_profile(c, profile).status.profile == profile,
        on_profile(c, c.status.profile) == c,
        profile != c.status.profile ==> on_profile(c, profile).status.state == BleState::Inactive,
        on_profile(c, profile).advertising_mode == c.advertising_mode,
        advertising_for(c, mode).advertising_mode == mode,
        advertising_for(c, mode).status == c.status,
{
}

} // verus!
