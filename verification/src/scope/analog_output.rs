//! Analog output channel configuration.

use vstd::prelude::*;

verus! {

/// The waveform shape an analog output generates.
#[derive(Clone, Copy, Debug, PartialEq, Eq, Structural)]
pub enum Waveform {
    Sine,
    Triangle,
    Square,
}

/// Configuration of one analog output channel.  Frequency is held in
/// millihertz and amplitude and DC offset in millivolts, so that the
/// configuration is exact integer data.
#[derive(Clone, Copy, Debug, PartialEq, Eq, Structural)]
pub struct AnalogOutput {
    pub is_on: bool,
    pub frequency_millihz: u64,
    pub amplitude_millivolts: u32,
    pub offset_millivolts: i32,
    pub waveform: Waveform,
}

impl AnalogOutput {
    /// The configuration a channel starts with: off, a 1 Hz unit sine.
    pub open spec fn spec_default() -> AnalogOutput {
        AnalogOutput {
            is_on: false,
            frequency_millihz: 1000,
            amplitude_millivolts: 1000,
            offset_millivolts: 0,
            waveform: Waveform::Sine,
        }
    }
}

impl Default for AnalogOutput {
    /// The configuration a channel starts with: off, a 1 Hz unit sine.
    fn default() -> (r: Self)
        ensures
            r == AnalogOutput::spec_default(),
    {
        AnalogOutput {
            is_on: false,
            frequency_millihz: 1000,
            amplitude_millivolts: 1000,
            offset_millivolts: 0,
            waveform: Waveform::Sine,
        }
    }
}

} // verus!
