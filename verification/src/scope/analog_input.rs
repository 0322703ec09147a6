//! Analog input channel configuration.

use vstd::prelude::*;

verus! {

/// Configuration of one analog input channel: on/off and the gain and
/// offset settings chosen from the device's gain/offset table.
#[derive(Clone, Copy, Debug, PartialEq, Eq, Structural)]
pub struct AnalogInput {
    pub is_on: bool,
    pub gain_setting: u8,
    pub offset_setting: u8,
}

impl AnalogInput {
    /// The configuration a channel starts with: on, at the widest range.
    pub open spec fn spec_default() -> AnalogInput {
        AnalogInput { is_on: true, gain_setting: 0, offset_setting: 0 }
    }

    /// Whether the channel is on.
    pub fn is_on(&self) -> (r: bool)
        ensures
            r == self.is_on,
    {
        self.is_on
    }

    /// Turns the channel on.
    pub fn turn_on(&mut self)
        ensures
            *final(self) == (AnalogInput { is_on: true, ..*old(self) }),
    {
        self.is_on = true;
    }

    /// Turns the channel off.
    pub fn turn_off(&mut self)
        ensures
            *final(self) == (AnalogInput { is_on: false, ..*old(self) }),
    {
        self.is_on = false;
    }
}

impl Default for AnalogInput {
    /// The configuration a channel starts with: on, at the widest range.
    fn default() -> (r: Self)
        ensures
            r == AnalogInput::spec_default(),
    {
        AnalogInput { is_on: true, gain_setting: 0, offset_setting: 0 }
    }
}

} // verus!
