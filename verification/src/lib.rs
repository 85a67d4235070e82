//! Input pipeline and radio links of a split keyboard with pointing devices.
//!
//! The library takes the decisions of the firmware: what motion becomes on its way from
//! a sensor to a report, what is advertised to whom and for how long, how requests of a
//! host are answered, and how split halves are found, proved and put to sleep. It does
//! no I/O. Where work on a bus, a radio or a timer lies between two decisions, they are
//! one step of a state machine, which names the work to be done and takes its outcome.

pub mod battery;
pub mod ble;
pub mod ergohaven;
pub mod event;
pub mod features;
pub mod num;
pub mod pointing;
pub mod split;
pub mod state;
pub mod touch_poll;
pub mod touchpad;
pub mod vial;
