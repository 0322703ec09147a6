//! Sample-stream requests: starting a stream and stopping one.

use vstd::prelude::*;

use vstd::bytes::lemma_auto_spec_u32_to_from_le_bytes;
use vstd::bytes::spec_u32_to_le_bytes;
use vstd::bytes::u32_to_le_bytes;

use crate::scope::commands::OPCODE_CONTINUOUS_DATA;
use crate::scope::commands::OPCODE_FINITE_DATA;
use crate::scope::commands::TX_PACKET_LEN;
use crate::scope::commands::spec_zero_packet;

verus! {

/// A request for a stream of sampled data.
///
/// `sample_count` is the number of sample batches to deliver; 0 asks for a
/// continuous stream that runs until stopped.  One flag per input channel
/// says which channels the device samples.
#[derive(Clone, Copy, Debug)]
pub struct DataRequest {
    pub sample_rate_hz: u32,
    pub sample_count: u32,
    pub channels_on: [bool; 4],
}

/// A control request that stops the stream with the given request id.
/// It completes immediately: the worker retires the named stream from
/// its in-flight table without a frame of its own on the wire.
#[derive(Clone, Copy, Debug)]
pub struct StopRequest {
    pub request_id: u8,
}

/// The channel-selection bitmask: bit `c` is set when input channel `c`
/// is sampled.
pub open spec fn spec_channel_mask(channels_on: [bool; 4]) -> u8 {
    ((if channels_on[0] {
        1int
    } else {
        0int
    }) + (if channels_on[1] {
        2int
    } else {
        0int
    }) + (if channels_on[2] {
        4int
    } else {
        0int
    }) + (if channels_on[3] {
        8int
    } else {
        0int
    })) as u8
}

/// The outbound packet of a data request, before the request id is
/// stamped: the opcode for a finite or continuous stream, the sample rate
/// and batch count as little-endian words, and the channel bitmask.
pub open spec fn spec_data_packet(dr: DataRequest) -> Seq<u8> {
    Seq::new(
        TX_PACKET_LEN as nat,
        |j: int|
            {
                if j == 1 {
                    if dr.sample_count == 0 {
                        OPCODE_CONTINUOUS_DATA
                    } else {
                        OPCODE_FINITE_DATA
                    }
                } else if 3 <= j < 7 {
                    spec_u32_to_le_bytes(dr.sample_rate_hz)[j - 3]
                } else if 7 <= j < 11 {
                    spec_u32_to_le_bytes(dr.sample_count)[j - 7]
                } else if j == 11 {
                    spec_channel_mask(dr.channels_on)
                } else {
                    0u8
                }
            },
    )
}

/// The remaining batch count after one reply carrying `batch_count`
/// batches, and whether the stream is then complete.  A continuous
/// stream (`sample_count` 0) never completes on a reply.
pub open spec fn spec_apply_batch(request: DataRequest, remaining: u32, batch_count: u8) -> (
    u32,
    bool,
) {
    if request.sample_count == 0 {
        (remaining, false)
    } else if batch_count >= remaining {
        (0u32, true)
    } else {
        ((remaining - batch_count) as u32, false)
    }
}

impl DataRequest {
    /// Serializes the request into a zeroed outbound packet.
    pub fn fill_tx_buffer(&self, usb_buf: &mut Vec<u8>)
        requires
            old(usb_buf)@ == spec_zero_packet(),
        ensures
            final(usb_buf)@ == spec_data_packet(*self),
    {
        proof {
            lemma_auto_spec_u32_to_from_le_bytes();
        }
        if self.sample_count == 0 {
            usb_buf.set(1, OPCODE_CONTINUOUS_DATA);
        } else {
            usb_buf.set(1, OPCODE_FINITE_DATA);
        }
        let rate = u32_to_le_bytes(self.sample_rate_hz);
        usb_buf.set(3, rate[0]);
        usb_buf.set(4, rate[1]);
        usb_buf.set(5, rate[2]);
        usb_buf.set(6, rate[3]);
        let count = u32_to_le_bytes(self.sample_count);
        usb_buf.set(7, count[0]);
        usb_buf.set(8, count[1]);
        usb_buf.set(9, count[2]);
        usb_buf.set(10, count[3]);
        let mut mask: u8 = 0;
        if self.channels_on[0] {
            mask += 1;
        }
        if self.channels_on[1] {
            mask += 2;
        }
        if self.channels_on[2] {
            mask += 4;
        }
        if self.channels_on[3] {
            mask += 8;
        }
        usb_buf.set(11, mask);
        proof {
            assert(usb_buf@ =~= spec_data_packet(*self));
        }
    }

    /// The remaining batch count after one reply carrying `batch_count`
    /// batches, and whether the stream is then complete.  A continuous
    /// stream never completes on a reply.
    pub fn apply_batch(&self, remaining: u32, batch_count: u8) -> (r: (u32, bool))
        ensures
            r == spec_apply_batch(*self, remaining, batch_count),
    {
        if self.sample_count == 0 {
            (remaining, false)
        } else if batch_count as u32 >= remaining {
            (0, true)
        } else {
            (remaining - batch_count as u32, false)
        }
    }
}

} // verus!
