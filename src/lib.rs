//! Discovery and connection management for nearby Bluetooth devices.
//!
//! The library holds the decisions: which discovered devices become records,
//! how the device list is replaced by a scan, and what a connect or disconnect
//! request does given the state the adapter reports. Talking to the platform
//! Bluetooth service is left to the caller.

pub mod address;
pub mod scan;
pub mod control;
