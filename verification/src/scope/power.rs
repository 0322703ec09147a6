//! Power state of the device, decoded from the status prefix of every
//! inbound packet.

use vstd::prelude::*;

verus! {

/// The power state reported by the device.
#[derive(Clone, Copy, Debug, PartialEq, Eq, Structural)]
pub enum PowerState {
    PoweredOff,
    PoweredOn,
    /// The status byte held a value outside the known states.
    Unknown,
}

impl PowerState {
    /// The state encoded by a status byte.
    pub open spec fn spec_from_byte(b: u8) -> PowerState {
        if b == 0 {
            PowerState::PoweredOff
        } else if b == 1 {
            PowerState::PoweredOn
        } else {
            PowerState::Unknown
        }
    }

    /// Decodes the power-state field of a status packet.
    pub fn from_byte(b: u8) -> (r: PowerState)
        ensures
            r == PowerState::spec_from_byte(b),
    {
        match b {
            0 => PowerState::PoweredOff,
            1 => PowerState::PoweredOn,
            _ => PowerState::Unknown,
        }
    }
}

/// Power state together with the device's relative power-usage indicator.
#[derive(Clone, Copy, Debug, PartialEq, Eq, Structural)]
pub struct PowerStatus {
    pub state: PowerState,
    pub usage: u8,
}

impl PowerStatus {
    /// The status assumed before any packet was seen.
    pub open spec fn spec_default() -> PowerStatus {
        PowerStatus { state: PowerState::Unknown, usage: 0 }
    }
}

impl Default for PowerStatus {
    /// The status assumed before any packet was seen.
    fn default() -> (r: Self)
        ensures
            r == PowerStatus::spec_default(),
    {
        PowerStatus { state: PowerState::Unknown, usage: 0 }
    }
}

} // verus!
