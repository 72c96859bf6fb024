//! Telemetry core for a UPS monitoring daemon.
//!
//! The library holds the device-facing logic of the daemon: composing and
//! matching device names, resolving the inbound communication endpoint,
//! decoding byte-tagged telemetry reports, and maintaining the shared
//! telemetry record. All device and network I/O lives outside the library;
//! callers hand in plain values (descriptor strings, endpoint listings, raw
//! report buffers, read outcomes) and apply the decisions returned.

pub mod acquisition;
pub mod endpoint;
pub mod locator;
pub mod report;
pub mod state;
