//! Verified model of a per-key RGB keyboard's vendor protocol: USB capture
//! records, the color/flush wire packets, the replay state machine, and the
//! session bookkeeping that drives a live device.

pub mod bytes;
pub mod capture;
pub mod claims;
pub mod color;
pub mod keys;
pub mod memory;
pub mod replay;
pub mod session;
pub mod text;
pub mod usb;
pub mod utils;
