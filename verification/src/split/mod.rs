//! Links between the central half and its split peripherals.

pub mod advertisement;
pub mod manager;
pub mod peers;
pub mod power;
pub mod supervisor;
