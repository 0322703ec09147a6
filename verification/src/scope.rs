//! The verified core of one open device: status decoding, shared device
//! state, and the identifiers under which the hardware enumerates.

pub mod analog_input;
pub mod analog_output;
pub mod commands;
pub mod data_requests;
pub mod power;
pub mod pulse_output;
pub mod run_loop;

use vstd::prelude::*;

use analog_input::AnalogInput;
use analog_output::AnalogOutput;
use power::PowerState;
use power::PowerStatus;
use pulse_output::PulseOutput;

verus! {

/// Vendor id under which the instrument enumerates.
pub const SCOPE_VENDOR_ID: u16 = 0x04D8;

/// Product id under which the instrument enumerates.
pub const SCOPE_PRODUCT_ID: u16 = 0xF3F6;

/// Vendor id of the firmware-update personality.
pub const DFU_VENDOR_ID: u16 = 0x0483;

/// Product id of the firmware-update personality.
pub const DFU_PRODUCT_ID: u16 = 0xA4AB;

/// Whether a USB descriptor names the instrument.
pub fn matches_scope_ids(vendor_id: u16, product_id: u16) -> (r: bool)
    ensures
        r == (vendor_id == SCOPE_VENDOR_ID && product_id == SCOPE_PRODUCT_ID),
{
    vendor_id == SCOPE_VENDOR_ID && product_id == SCOPE_PRODUCT_ID
}

/// Whether a USB descriptor names the firmware-update personality.
pub fn matches_dfu_ids(vendor_id: u16, product_id: u16) -> (r: bool)
    ensures
        r == (vendor_id == DFU_VENDOR_ID && product_id == DFU_PRODUCT_ID),
{
    vendor_id == DFU_VENDOR_ID && product_id == DFU_PRODUCT_ID
}

/// The status prefix of an inbound packet in the legacy framing: firmware
/// version and power state packed into byte 0, power usage in byte 1 and
/// the acknowledged request id in byte 2.
#[derive(Clone, Copy, Debug, PartialEq, Eq, Structural)]
pub struct StatusResponseLegacy {
    pub fw_version: u8,
    pub power_state: PowerState,
    pub power_usage: u8,
    pub request_id: u8,
}

impl StatusResponseLegacy {
    /// Decodes the legacy status prefix of an inbound packet.
    pub fn new(buf: &[u8]) -> (r: Self)
        requires
            buf@.len() >= 3,
        ensures
            r.fw_version == buf@[0] & 0x3F,
            r.power_state == PowerState::spec_from_byte((buf@[0] & 0xC0) >> 6),
            r.power_usage == buf@[1],
            r.request_id == buf@[2],
    {
        StatusResponseLegacy {
            fw_version: buf[0] & 0x3F,
            power_state: PowerState::from_byte((buf[0] & 0xC0) >> 6),
            power_usage: buf[1],
            request_id: buf[2],
        }
    }
}

/// The status prefix of an inbound packet in the newer framing: the
/// acknowledged request id in byte 0, then firmware version, power state
/// and power usage in bytes 1 to 3.
#[derive(Clone, Copy, Debug, PartialEq, Eq, Structural)]
pub struct StatusResponse {
    pub fw_version: u8,
    pub power_state: PowerState,
    pub power_usage: u8,
    pub request_id: u8,
}

impl StatusResponse {
    /// Decodes the status prefix of an inbound packet.
    pub fn new(buf: &[u8]) -> (r: Self)
        requires
            buf@.len() >= 4,
        ensures
            r.request_id == buf@[0],
            r.fw_version == buf@[1],
            r.power_state == PowerState::spec_from_byte(buf@[2]),
            r.power_usage == buf@[3],
    {
        StatusResponse {
            request_id: buf[0],
            fw_version: buf[1],
            power_state: PowerState::from_byte(buf[2]),
            power_usage: buf[3],
        }
    }
}

/// Shared per-device configuration and status.  The worker is the sole
/// writer; callers read snapshots of it.
#[derive(Clone, Debug)]
pub struct NscopeState {
    /// The four analog input channels.
    pub analog_inputs: Vec<AnalogInput>,
    /// The two analog output channels.
    pub analog_outputs: Vec<AnalogOutput>,
    /// The two pulse output channels.
    pub pulse_outputs: Vec<PulseOutput>,
    /// Firmware version from the first status packet, once one was seen.
    pub fw_version: Option<u8>,
    /// Power status from the most recent status packet.
    pub power_status: PowerStatus,
}

impl NscopeState {
    /// The channel counts the device actually has.
    pub open spec fn wf(self) -> bool {
        &&& self.analog_inputs@.len() == 4
        &&& self.analog_outputs@.len() == 2
        &&& self.pulse_outputs@.len() == 2
    }

    /// The state at construction: default channel configurations, no
    /// firmware version seen yet, power status unknown.
    pub fn new() -> (r: Self)
        ensures
            r.wf(),
            forall|i: int| 0 <= i < 4 ==> r.analog_inputs@[i] == AnalogInput::spec_default(),
            forall|i: int| 0 <= i < 2 ==> r.analog_outputs@[i] == AnalogOutput::spec_default(),
            forall|i: int|
                0 <= i < 2 ==> r.pulse_outputs@[i] == (PulseOutput {
                    is_on: false,
                    period_ns: 1_000_000_000u64,
                    duty_ns: 500_000_000u64,
                }),
            r.fw_version is None,
            r.power_status == PowerStatus::spec_default(),
    {
        let mut analog_inputs: Vec<AnalogInput> = Vec::new();
        analog_inputs.push(AnalogInput::default());
        analog_inputs.push(AnalogInput::default());
        analog_inputs.push(AnalogInput::default());
        analog_inputs.push(AnalogInput::default());
        let mut analog_outputs: Vec<AnalogOutput> = Vec::new();
        analog_outputs.push(AnalogOutput::default());
        analog_outputs.push(AnalogOutput::default());
        let mut pulse_outputs: Vec<PulseOutput> = Vec::new();
        pulse_outputs.push(PulseOutput::default());
        pulse_outputs.push(PulseOutput::default());
        NscopeState {
            analog_inputs,
            analog_outputs,
            pulse_outputs,
            fw_version: None,
            power_status: PowerStatus::default(),
        }
    }

    /// The analog input behind a 1-based channel number, if there is one.
    pub fn channel(&self, channel: usize) -> (r: Option<&AnalogInput>)
        requires
            self.wf(),
        ensures
            1 <= channel <= 4 ==> r == Some(&self.analog_inputs@[channel - 1]),
            !(1 <= channel <= 4) ==> r is None,
    {
        match channel {
            1 => Some(&self.analog_inputs[0]),
            2 => Some(&self.analog_inputs[1]),
            3 => Some(&self.analog_inputs[2]),
            4 => Some(&self.analog_inputs[3]),
            _ => None,
        }
    }

    /// The analog output behind a 1-based channel number, if there is one.
    pub fn analog_output(&self, channel: usize) -> (r: Option<&AnalogOutput>)
        requires
            self.wf(),
        ensures
            1 <= channel <= 2 ==> r == Some(&self.analog_outputs@[channel - 1]),
            !(1 <= channel <= 2) ==> r is None,
    {
        match channel {
            1 => Some(&self.analog_outputs[0]),
            2 => Some(&self.analog_outputs[1]),
            _ => None,
        }
    }

    /// The pulse output behind a 1-based channel number, if there is one.
    pub fn pulse_output(&self, channel: usize) -> (r: Option<&PulseOutput>)
        requires
            self.wf(),
        ensures
            1 <= channel <= 2 ==> r == Some(&self.pulse_outputs@[channel - 1]),
            !(1 <= channel <= 2) ==> r is None,
    {
        match channel {
            1 => Some(&self.pulse_outputs[0]),
            2 => Some(&self.pulse_outputs[1]),
            _ => None,
        }
    }

    /// The configuration of a 0-based pulse channel.
    pub fn get_px(&self, channel: usize) -> (r: PulseOutput)
        requires
            self.wf(),
            channel < 2,
        ensures
            r == self.pulse_outputs@[channel as int],
    {
        self.pulse_outputs[channel]
    }
}

} // verus!
