//! Build options of a keyboard.

use vstd::prelude::*;

verus! {

/// Parts that a keyboard is built with.
#[derive(Clone, Copy, Debug, PartialEq, Eq, Structural)]
pub struct Features {
    /// The keyboard has split peripherals.
    pub split: bool,
    /// The keyboard can be configured by a host program.
    pub host: bool,
    /// The host link runs without peripheral latency.
    pub ble_zero_latency: bool,
    /// The keyboard has no USB port.
    pub no_usb: bool,
}

} // verus!
