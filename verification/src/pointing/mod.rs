//! Pointing devices: sampling, motion accumulation and the processors that turn
//! motion into HID reports.

pub mod accumulator;
pub mod caret;
pub mod config;
pub mod device;
pub mod figures;
pub mod processor;
pub mod processor_laws;
pub mod qube;
pub mod qube_laws;
pub mod qube_processor;
pub mod qube_settings;
