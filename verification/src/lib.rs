//! Verified core of a DualSense controller battery monitor.
//!
//! The crate decodes the controller's raw input reports (battery level and
//! mute-button flag, at transport-dependent offsets), tracks one session per
//! connected device, and decides which events a polling loop should emit:
//! connects, disconnects, de-duplicated and throttled battery updates, and
//! mute-button press edges. All device I/O (enumerating the bus, opening
//! handles, reading reports) happens outside this crate; the functions here
//! take plain bytes, paths and timestamps and return the events to send.

pub mod dualsense;
pub mod laws;
pub mod polling;
