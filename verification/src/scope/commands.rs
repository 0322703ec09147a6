//! Commands accepted by the worker and their outbound packet encoding.
//!
//! Every outbound packet is 65 bytes: byte 0 is the report id (always 0),
//! byte 1 the command opcode, byte 2 the request id assigned by the worker
//! on dispatch (0 for fire-and-forget commands), and the rest the
//! opcode-specific payload.

use vstd::prelude::*;

use crate::error::NscopeError;
use crate::scope::data_requests::DataRequest;
use crate::scope::data_requests::StopRequest;
use crate::scope::data_requests::spec_data_packet;
use crate::scope::pulse_output::PxRequest;
use crate::scope::pulse_output::spec_px_packet;
use crate::scope::pulse_output::spec_px_rejection;

verus! {

/// Length of an outbound packet.
pub const TX_PACKET_LEN: usize = 65;

/// Length of an inbound packet.
pub const RX_PACKET_LEN: usize = 64;

/// Opcode of the initialize command with power left off.
pub const OPCODE_INITIALIZE_OFF: u8 = 0x06;

/// Opcode of the initialize command with power on.
pub const OPCODE_INITIALIZE_ON: u8 = 0x07;

/// Opcode of the pulse-output command.
pub const OPCODE_SET_PULSE_OUTPUT: u8 = 0x01;

/// Opcode of a finite data request.
pub const OPCODE_FINITE_DATA: u8 = 0x03;

/// Opcode of a continuous data request.
pub const OPCODE_CONTINUOUS_DATA: u8 = 0x04;

/// An outbound packet before any command wrote to it.
pub open spec fn spec_zero_packet() -> Seq<u8> {
    Seq::new(TX_PACKET_LEN as nat, |j: int| 0u8)
}

/// The two-byte frame sent on an idle exchange cycle, to elicit the
/// device's status heartbeat without naming a request.
pub fn null_request() -> (r: Vec<u8>)
    ensures
        r@ == seq![0u8, 0xFFu8],
{
    let mut v: Vec<u8> = Vec::new();
    v.push(0);
    v.push(0xFF);
    proof {
        assert(v@ =~= seq![0u8, 0xFFu8]);
    }
    v
}

/// Allocates a zeroed outbound packet.
pub fn zero_packet() -> (r: Vec<u8>)
    ensures
        r@ == spec_zero_packet(),
{
    let mut v: Vec<u8> = Vec::new();
    let mut i: usize = 0;
    while i < TX_PACKET_LEN
        invariant
            i <= TX_PACKET_LEN,
            v@.len() == i,
            forall|j: int| 0 <= j < i ==> v@[j] == 0u8,
        decreases TX_PACKET_LEN - i,
    {
        v.push(0);
        i += 1;
    }
    proof {
        assert(v@ =~= spec_zero_packet());
    }
    v
}

/// A command handed to the worker through its inbox.
#[derive(Clone, Copy, Debug)]
pub enum Command {
    /// Terminate the worker.
    Quit,
    /// Initialize the device, with or without output power.
    Initialize(bool),
    /// Configure one pulse output channel.
    SetPulseOutput(PxRequest),
    /// Start a sample stream.
    RequestData(DataRequest),
    /// Stop the stream with the given request id.
    StopData(StopRequest),
}

impl Command {
    /// Whether the command names only channels the device has.
    pub open spec fn wf(self) -> bool {
        match self {
            Command::SetPulseOutput(req) => req.channel < 2,
            _ => true,
        }
    }

    /// Why serializing this command fails, if it does.
    pub open spec fn spec_fill_result(self) -> Option<NscopeError> {
        match self {
            Command::SetPulseOutput(req) => spec_px_rejection(req.px),
            _ => None,
        }
    }

    /// The outbound packet this command fills, before the request id is
    /// stamped into byte 2.
    pub open spec fn spec_filled(self) -> Seq<u8> {
        match self {
            Command::Quit => spec_zero_packet(),
            Command::Initialize(power_on) => spec_zero_packet().update(
                1,
                if power_on {
                    OPCODE_INITIALIZE_ON
                } else {
                    OPCODE_INITIALIZE_OFF
                },
            ),
            Command::SetPulseOutput(req) => spec_px_packet(req),
            Command::RequestData(dr) => spec_data_packet(dr),
            Command::StopData(_) => spec_zero_packet(),
        }
    }

    /// Serializes the command's parameters into a zeroed outbound packet.
    pub fn fill_tx_buffer(&self, usb_buf: &mut Vec<u8>) -> (r: Result<(), NscopeError>)
        requires
            old(usb_buf)@ == spec_zero_packet(),
            self.wf(),
        ensures
            final(usb_buf)@.len() == TX_PACKET_LEN,
            match self.spec_fill_result() {
                None => r is Ok && final(usb_buf)@ == self.spec_filled(),
                Some(e) => r == Err::<(), NscopeError>(e) && final(usb_buf)@ == spec_zero_packet()
                    .update(1, OPCODE_SET_PULSE_OUTPUT),
            },
    {
        match self {
            Command::Quit => Ok(()),
            Command::Initialize(power_on) => {
                if *power_on {
                    usb_buf.set(1, OPCODE_INITIALIZE_ON);
                } else {
                    usb_buf.set(1, OPCODE_INITIALIZE_OFF);
                }
                Ok(())
            },
            Command::SetPulseOutput(cmd) => cmd.fill_tx_buffer(usb_buf),
            Command::RequestData(cmd) => {
                cmd.fill_tx_buffer(usb_buf);
                Ok(())
            },
            Command::StopData(_) => Ok(()),
        }
    }

    /// Whether the command can be retired without waiting for a reply.
    pub fn is_finished(&self) -> (r: bool)
        ensures
            r == (self is Quit || self is Initialize),
    {
        match self {
            Command::Quit => true,
            Command::Initialize(_) => true,
            Command::SetPulseOutput(_) => false,
            Command::RequestData(_) => false,
            Command::StopData(_) => false,
        }
    }
}

} // verus!
