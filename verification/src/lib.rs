//! Host-side driver core for a USB-attached mixed-signal instrument.
//!
//! The library holds the verified per-device command/response engine: the
//! wire codecs for the two packet generations, the typed requests, the
//! shared device state, and the worker state machine that serializes all
//! traffic to the device.  The unverified shell around it (USB and HID
//! transports, threads, device enumeration) lives outside this crate's
//! verified surface and drives the engine through the functions here.

pub mod error;
pub mod scope;

pub use error::BadConfigKind;
pub use error::NscopeError;
