//! Bluetooth LE transport to the host: report coalescing, advertising, GATT event
//! handling and link management.

pub mod advertise;
pub mod bond;
pub mod gatt;
pub mod link;
pub mod motion;
pub mod transport;
pub mod writer;
