//! Host-controller protocol constants, the decode chain from raw event frames
//! to hydrometer readings, and the decisions of the reading emitters.

pub mod bluez;
pub mod bt_parsing;
pub mod ibeacon_parsing;
pub mod event;
pub mod emitters;
