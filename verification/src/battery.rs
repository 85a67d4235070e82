//! Battery level: the last measurement and what hosts read.

use vstd::prelude::*;

verus! {

/// Charger state.
#[derive(Clone, Copy, Debug, PartialEq, Eq, Structural)]
pub enum ChargeState {
    Charging,
    Discharging,
    Unknown,
}

/// What is known of the battery.
#[derive(Clone, Copy, Debug, PartialEq, Eq, Structural)]
pub enum BatteryStatus {
    Unavailable,
    Available { charge_state: ChargeState, level: Option<u8> },
}

/// Last battery level that was measured on this half, in percent.
#[derive(Clone, Copy, Debug, PartialEq, Eq, Structural)]
pub struct LocalBattery {
    pub percent: Option<u8>,
}

impl LocalBattery {
    /// Nothing was measured yet.
    pub fn new() -> (this: Self)
        ensures
            this.percent is None,
    {
        LocalBattery { percent: None }
    }

    /// Notes a measurement.
    pub fn set_local_battery_percent(&mut self, percent: u8)
        ensures
            final(self).percent == Some(percent),
    {
        self.percent = Some(percent);
    }

    /// Last measurement.
    pub fn current_local_battery_percent(&self) -> (percent: Option<u8>)
        ensures
            percent == self.percent,
    {
        self.percent
    }
}

/// Level that hosts read once the status is known.
pub open spec fn seeded(level: u8, status: BatteryStatus) -> u8 {
    match status {
        BatteryStatus::Available { level: Some(known), .. } => known,
        _ => level,
    }
}

/// Puts a known battery level where hosts read it, before the first host request is
/// handled. Without a known level the value stays as it is.
pub fn seed_battery_level(level: &mut u8, status: BatteryStatus)
    ensures
        *final(level) == seeded(*old(level), status),
{
    if let BatteryStatus::Available { level: Some(known), .. } = status {
        *level = known;
    }
}

/// Hosts read the known level of the battery, charging or not, and what was there before
/// while none is known.
pub proof fn law_hosts_read_the_known_level(level: u8, known: u8, charge_state: ChargeState)
    ensures
        seeded(level, BatteryStatus::Available { charge_state, level: Some(known) }) == known,
        seeded(level, BatteryStatus::Available { charge_state, level: None }) == level,
        seeded(level, BatteryStatus::Unavailable) == level,
{
}

} // verus!
