//! The worker state machine of one open device.
//!
//! One worker owns all traffic to a device.  Each exchange cycle the
//! surrounding loop drains its inbox into [`Worker::accept`], asks
//! [`Worker::dispatch`] for the next outbound packet, performs the
//! transport write and read, and feeds the inbound packet to
//! [`Worker::handle_rx`] (or [`Worker::handle_timeout`] when the read
//! timed out).  The worker keeps the pending queue, the in-flight table
//! keyed by request id, and the shared device state; the loop only moves
//! bytes and delivers the returned outcomes to the callers' reply sinks.

use vstd::prelude::*;

use vstd::pervasive::VecAdditionalExecFns;

use crate::error::BadConfigKind;
use crate::error::NscopeError;
use crate::scope::NscopeState;
use crate::scope::StatusResponse;
use crate::scope::StatusResponseLegacy;
use crate::scope::commands::Command;
use crate::scope::commands::RX_PACKET_LEN;
use crate::scope::commands::TX_PACKET_LEN;
use crate::scope::commands::zero_packet;
use crate::scope::data_requests::DataRequest;
use crate::scope::data_requests::spec_apply_batch;
use crate::scope::power::PowerState;
use crate::scope::power::PowerStatus;
use crate::scope::pulse_output::PulseOutput;
use crate::scope::pulse_output::PxRequest;

verus! {

/// Consecutive read timeouts after which the device is considered
/// disconnected and the worker terminates.
pub const MAX_CONSECUTIVE_TIMEOUTS: u32 = 10;

/// Which wire framing the open device speaks.
#[derive(Clone, Copy, Debug, PartialEq, Eq, Structural)]
pub enum WireVariant {
    /// The legacy HID framing.
    V1,
    /// The newer bulk framing.
    V2,
}

/// A request that was dispatched and awaits one or more replies.
#[derive(Clone, Copy, Debug)]
pub enum InFlight {
    /// A pulse configuration awaiting its acknowledgement.
    Pulse(PxRequest),
    /// A sample stream with its remaining batch count.
    Data { request: DataRequest, remaining: u32 },
}

/// What [`Worker::dispatch`] asks the surrounding loop to do.
#[derive(Debug)]
pub enum Dispatch {
    /// Nothing to send; the loop sends the null request to elicit the
    /// status heartbeat.
    Idle,
    /// Send this packet.  A request id of 0 means fire-and-forget; any
    /// other id now names an in-flight request.
    Sent { packet: Vec<u8>, request_id: u8 },
    /// The popped command could not be serialized; forward the error to
    /// its reply sink.
    Failed { error: NscopeError },
    /// A stop was processed; drop the sink of the named stream.
    Stopped { request_id: u8, was_active: bool },
    /// A quit was processed: the worker stopped; drop the sinks of all
    /// the listed in-flight requests (their streams end here).
    Shutdown { ended: Vec<u8> },
}

/// Where [`Worker::handle_rx`] routed an inbound packet.
#[derive(Debug)]
pub enum RxOutcome {
    /// The packet named no request: status heartbeat only.
    StatusOnly,
    /// A pulse request was acknowledged; send the configuration to its
    /// sink and drop the sink.
    PulseAck { request_id: u8, channel: usize, px: PulseOutput },
    /// A sample batch for the named stream; when `finished`, drop the
    /// sink after delivering it.
    Samples { request_id: u8, data: Vec<u8>, finished: bool },
    /// The packet named a request id with nothing in flight; it was
    /// discarded and counted.
    Unknown,
}

/// What [`Worker::handle_timeout`] decided.
#[derive(Debug)]
pub enum TimeoutOutcome {
    /// The cycle is lost; keep going.
    Continue,
    /// Too many consecutive timeouts: the worker stopped; drop the sinks
    /// of all the listed in-flight requests.
    Disconnected { ended: Vec<u8> },
}

/// The worker's whole state: shared device state, the pending command
/// queue, and the in-flight table keyed by request id.
pub struct Worker {
    /// Which framing the device speaks.
    pub variant: WireVariant,
    /// Shared device configuration and status; this worker is its sole
    /// writer.
    pub state: NscopeState,
    /// Commands accepted from the inbox and not yet dispatched, oldest
    /// first.
    pub pending: Vec<Command>,
    /// The in-flight request behind each request id.  Id 0 denotes "no
    /// request" and is never occupied.
    pub in_flight: Vec<Option<InFlight>>,
    /// The id dispatch tries first; ids are assigned monotonically
    /// modulo 256, skipping 0 and occupied ids.
    pub next_id: u8,
    /// Inbound packets whose request id matched nothing in flight.
    pub unknown_replies: u64,
    /// Read timeouts since the last inbound packet.
    pub consecutive_timeouts: u32,
    /// Whether the worker is still serving the device.
    pub running: bool,
}

impl Worker {
    /// The worker's structural invariant.
    pub open spec fn wf(self) -> bool {
        &&& self.state.wf()
        &&& self.in_flight@.len() == 256
        &&& self.in_flight@[0] is None
        &&& forall|i: int|
            0 <= i < 256 ==> ((#[trigger] self.in_flight@[i]) matches Some(InFlight::Pulse(req))
                ==> req.channel < 2)
        &&& forall|i: int| 0 <= i < self.pending@.len() ==> self.pending@[i].wf()
        &&& self.running ==> self.consecutive_timeouts < MAX_CONSECUTIVE_TIMEOUTS
    }

    /// A fresh worker for an opened device: default state, no request in
    /// flight, and the initialization command already queued.
    pub fn new(variant: WireVariant, power_on: bool) -> (r: Worker)
        ensures
            r.wf(),
            r.variant == variant,
            r.running,
            r.pending@.len() == 1 && r.pending@[0] == Command::Initialize(power_on),
            forall|i: int| 0 <= i < 256 ==> r.in_flight@[i] is None,
            r.next_id == 1,
            r.unknown_replies == 0,
            r.consecutive_timeouts == 0,
            r.state.wf(),
            r.state.fw_version is None,
            r.state.power_status == PowerStatus::spec_default(),
            forall|i: int|
                0 <= i < 2 ==> r.state.pulse_outputs@[i] == (PulseOutput {
                    is_on: false,
                    period_ns: 1_000_000_000u64,
                    duty_ns: 500_000_000u64,
                }),
    {
        let mut in_flight: Vec<Option<InFlight>> = Vec::new();
        let mut i: usize = 0;
        while i < 256
            invariant
                i <= 256,
                in_flight@.len() == i,
                forall|j: int| 0 <= j < i ==> in_flight@[j] is None,
            decreases 256 - i,
        {
            in_flight.push(None);
            i += 1;
        }
        let mut pending: Vec<Command> = Vec::new();
        pending.push(Command::Initialize(power_on));
        Worker {
            variant,
            state: NscopeState::new(),
            pending,
            in_flight,
            next_id: 1,
            unknown_replies: 0,
            consecutive_timeouts: 0,
            running: true,
        }
    }

    /// Whether the worker is still serving the device.
    pub fn is_running(&self) -> (r: bool)
        ensures
            r == self.running,
    {
        self.running
    }

    /// Accepts a command from the inbox into the pending queue, in
    /// submission order.  A command naming a channel the device does not
    /// have is rejected here; a stopped worker rejects everything.
    pub fn accept(&mut self, command: Command) -> (r: Result<(), NscopeError>)
        requires
            old(self).wf(),
        ensures
            final(self).wf(),
            !old(self).running ==> r == Err::<(), NscopeError>(NscopeError::Disconnected)
                && *final(self) == *old(self),
            old(self).running && !command.wf() ==> r == Err::<(), NscopeError>(
                NscopeError::BadConfig(BadConfigKind::InvalidChannel),
            ) && *final(self) == *old(self),
            old(self).running && command.wf() ==> r is Ok && final(self).pending@ == old(self).pending@.push(command),
            final(self).variant == old(self).variant,
            final(self).state == old(self).state,
            final(self).in_flight == old(self).in_flight,
            final(self).next_id == old(self).next_id,
            final(self).unknown_replies == old(self).unknown_replies,
            final(self).consecutive_timeouts == old(self).consecutive_timeouts,
            final(self).running == old(self).running,
    {
        if !self.running {
            return Err(NscopeError::Disconnected);
        }
        let ok = match &command {
            Command::SetPulseOutput(req) => req.channel < 2,
            _ => true,
        };
        if !ok {
            return Err(NscopeError::BadConfig(BadConfigKind::InvalidChannel));
        }
        self.pending.push(command);
        Ok(())
    }

    /// The next unoccupied request id at or after `next_id`, wrapping
    /// around and skipping 0; nothing when all 255 ids are in flight.
    fn fresh_request_id(&self) -> (r: Option<u8>)
        requires
            self.wf(),
        ensures
            match r {
                Some(id) => id != 0 && self.in_flight@[id as int] is None,
                None => forall|i: int| 1 <= i < 256 ==> self.in_flight@[i] is Some,
            },
            ({
                let first = if self.next_id == 0 {
                    1int
                } else {
                    self.next_id as int
                };
                self.in_flight@[first] is None ==> r == Some(first as u8)
            }),
    {
        let start: usize = if self.next_id == 0 {
            1
        } else {
            self.next_id as usize
        };
        let mut i: usize = start;
        while i < 256
            invariant
                self.wf(),
                1 <= start < 256,
                start == (if self.next_id == 0 { 1int } else { self.next_id as int }),
                start <= i,
                forall|j: int| start <= j < i ==> self.in_flight@[j] is Some,
            decreases 256 - i,
        {
            if self.in_flight[i].is_none() {
                proof {
                    if i != start {
                        assert(self.in_flight@[start as int] is Some);
                    }
                }
                return Some(i as u8);
            }
            i += 1;
        }
        let mut k: usize = 1;
        while k < start
            invariant
                self.wf(),
                1 <= start < 256,
                start == (if self.next_id == 0 { 1int } else { self.next_id as int }),
                1 <= k <= start,
                forall|j: int| start <= j < 256 ==> self.in_flight@[j] is Some,
                forall|j: int| 1 <= j < k ==> self.in_flight@[j] is Some,
            decreases start - k,
        {
            if self.in_flight[k].is_none() {
                proof {
                    assert(self.in_flight@[start as int] is Some);
                }
                return Some(k as u8);
            }
            k += 1;
        }
        None
    }

    /// Stops the worker and empties the pending queue and the in-flight
    /// table, returning the ids of the requests that were in flight, in
    /// ascending order, so that the loop can drop their sinks.
    fn drain(&mut self) -> (ended: Vec<u8>)
        requires
            old(self).wf(),
        ensures
            final(self).wf(),
            !final(self).running,
            final(self).pending@.len() == 0,
            forall|i: int| 0 <= i < 256 ==> final(self).in_flight@[i] is None,
            final(self).variant == old(self).variant,
            final(self).state == old(self).state,
            final(self).next_id == old(self).next_id,
            final(self).unknown_replies == old(self).unknown_replies,
            final(self).consecutive_timeouts == old(self).consecutive_timeouts,
            forall|k: int|
                0 <= k < ended@.len() ==> old(self).in_flight@[ended@[k] as int] is Some,
            forall|i: int|
                0 <= i < 256 && old(self).in_flight@[i] is Some ==> ended@.contains(i as u8),
            forall|k1: int, k2: int| 0 <= k1 < k2 < ended@.len() ==> ended@[k1] < ended@[k2],
    {
        self.running = false;
        self.pending.clear();
        let mut ended: Vec<u8> = Vec::new();
        let mut i: usize = 0;
        while i < 256
            invariant
                self.in_flight@.len() == 256,
                i <= 256,
                !self.running,
                self.pending@.len() == 0,
                self.variant == old(self).variant,
                self.state == old(self).state,
                self.next_id == old(self).next_id,
                self.unknown_replies == old(self).unknown_replies,
                self.consecutive_timeouts == old(self).consecutive_timeouts,
                forall|j: int| 0 <= j < i ==> self.in_flight@[j] is None,
                forall|j: int| i <= j < 256 ==> self.in_flight@[j] == old(self).in_flight@[j],
                forall|k: int|
                    0 <= k < ended@.len() ==> ended@[k] < i && old(self).in_flight@[ended@[k] as int]
                        is Some,
                forall|j: int|
                    0 <= j < i && old(self).in_flight@[j] is Some ==> ended@.contains(j as u8),
                forall|k1: int, k2: int| 0 <= k1 < k2 < ended@.len() ==> ended@[k1] < ended@[k2],
            decreases 256 - i,
        {
            let ghost prior = ended@;
            if self.in_flight[i].is_some() {
                self.in_flight.set(i, None);
                ended.push(i as u8);
            }
            proof {
                assert forall|j: int|
                    0 <= j < i + 1 && old(self).in_flight@[j] is Some implies ended@.contains(
                    j as u8,
                ) by {
                    if j < i {
                        let k = choose|k: int| 0 <= k < prior.len() && prior[k] == j as u8;
                        assert(ended@[k] == j as u8);
                    } else {
                        assert(ended@.last() == i as u8);
                    }
                }
            }
            i += 1;
        }
        ended
    }

    /// Pops and performs the next pending command.
    ///
    /// A quit stops the worker and drains everything in flight; a stop
    /// retires the named stream; the other commands are serialized into a
    /// packet carrying a freshly assigned request id (0 for the
    /// fire-and-forget initialization), and a request awaiting replies is
    /// entered into the in-flight table under that id.  When nothing is
    /// pending, or no id is free, nothing changes and the cycle is idle.
    pub fn dispatch(&mut self) -> (r: Dispatch)
        requires
            old(self).wf(),
            old(self).running,
        ensures
            final(self).wf(),
            final(self).variant == old(self).variant,
            final(self).unknown_replies == old(self).unknown_replies,
            final(self).consecutive_timeouts == old(self).consecutive_timeouts,
            r is Idle ==> *final(self) == *old(self),
            old(self).pending@.len() == 0 ==> r is Idle,
            old(self).pending@.len() > 0 && (exists|i: int|
                1 <= i < 256 && old(self).in_flight@[i] is None) ==> !(r is Idle),
            !(r is Idle) ==> old(self).pending@.len() > 0,
            !(r is Idle) && !(r is Shutdown) ==> final(self).pending@ == old(
                self,
            ).pending@.drop_first() && final(self).running && final(self).state == old(self).state,
            r matches Dispatch::Sent { packet, request_id } ==> {
                let cmd = old(self).pending@[0];
                &&& cmd.spec_fill_result() is None
                &&& packet@ == cmd.spec_filled().update(2, request_id)
                &&& packet@.len() == TX_PACKET_LEN
                &&& (cmd is Initialize ==> request_id == 0 && final(self).in_flight == old(self).in_flight)
                &&& (cmd matches Command::SetPulseOutput(req) ==> request_id != 0 && old(self).in_flight@[request_id as int] is None && final(self).in_flight@ == old(self).in_flight@.update(request_id as int, Some(InFlight::Pulse(req))))
                &&& (cmd matches Command::RequestData(dr) ==> request_id != 0 && old(self).in_flight@[request_id as int] is None && final(self).in_flight@ == old(self).in_flight@.update(
                    request_id as int,
                    Some(InFlight::Data { request: dr, remaining: dr.sample_count }),
                ))
                &&& (cmd is Quit || cmd is StopData) == false
                &&& (request_id != 0 ==> final(self).next_id == (if request_id == 255 {
                    1u8
                } else {
                    (request_id + 1) as u8
                }))
                &&& (request_id == 0 ==> final(self).next_id == old(self).next_id)
                &&& ((cmd is SetPulseOutput || cmd is RequestData) && old(self).next_id != 0 && old(
                    self,
                ).in_flight@[old(self).next_id as int] is None ==> request_id == old(self).next_id)
            },
            r matches Dispatch::Failed { error } ==> old(self).pending@[0].spec_fill_result()
                == Some(error) && final(self).in_flight == old(self).in_flight,
            r matches Dispatch::Stopped { request_id, was_active } ==> {
                let cmd = old(self).pending@[0];
                &&& cmd matches Command::StopData(sr) && sr.request_id == request_id
                &&& was_active == (old(self).in_flight@[request_id as int] is Some)
                &&& final(self).in_flight@ == old(self).in_flight@.update(request_id as int, None)
            },
            r matches Dispatch::Shutdown { ended } ==> {
                &&& old(self).pending@[0] is Quit
                &&& !final(self).running
                &&& final(self).pending@.len() == 0
                &&& (forall|i: int| 0 <= i < 256 ==> final(self).in_flight@[i] is None)
                &&& (forall|k: int|
                    0 <= k < ended@.len() ==> old(self).in_flight@[ended@[k] as int] is Some)
                &&& (forall|i: int|
                    0 <= i < 256 && old(self).in_flight@[i] is Some ==> ended@.contains(i as u8))
                &&& final(self).state == old(self).state
            },
    {
        if self.pending.len() == 0 {
            return Dispatch::Idle;
        }
        let front = self.pending[0];
        let needs_id = match &front {
            Command::SetPulseOutput(_) => true,
            Command::RequestData(_) => true,
            _ => false,
        };
        let assigned: u8 = if needs_id {
            match self.fresh_request_id() {
                Some(id) => id,
                None => {
                    return Dispatch::Idle;
                },
            }
        } else {
            0
        };
        let cmd = self.pending.remove(0);
        proof {
            assert(self.pending@ =~= old(self).pending@.drop_first());
        }
        match cmd {
            Command::Quit => {
                let ended = self.drain();
                Dispatch::Shutdown { ended }
            },
            Command::StopData(sr) => {
                let idx = sr.request_id as usize;
                let was_active = self.in_flight[idx].is_some();
                self.in_flight.set(idx, None);
                Dispatch::Stopped { request_id: sr.request_id, was_active }
            },
            _ => {
                let mut buf = zero_packet();
                match cmd.fill_tx_buffer(&mut buf) {
                    Err(error) => Dispatch::Failed { error },
                    Ok(_) => {
                        buf.set(2, assigned);
                        match cmd {
                            Command::SetPulseOutput(req) => {
                                self.in_flight.set(
                                    assigned as usize,
                                    Some(InFlight::Pulse(req)),
                                );
                                self.next_id = if assigned == 255 {
                                    1
                                } else {
                                    assigned + 1
                                };
                            },
                            Command::RequestData(dr) => {
                                self.in_flight.set(
                                    assigned as usize,
                                    Some(InFlight::Data { request: dr, remaining: dr.sample_count }),
                                );
                                self.next_id = if assigned == 255 {
                                    1
                                } else {
                                    assigned + 1
                                };
                            },
                            _ => {},
                        }
                        Dispatch::Sent { packet: buf, request_id: assigned }
                    },
                }
            },
        }
    }
}

/// The request id named by an inbound packet under the given framing.
pub open spec fn spec_status_request_id(buf: Seq<u8>, variant: WireVariant) -> u8 {
    match variant {
        WireVariant::V1 => buf[2],
        WireVariant::V2 => buf[0],
    }
}

/// The firmware version carried by an inbound packet.
pub open spec fn spec_status_fw(buf: Seq<u8>, variant: WireVariant) -> u8 {
    match variant {
        WireVariant::V1 => buf[0] & 0x3F,
        WireVariant::V2 => buf[1],
    }
}

/// The power status carried by an inbound packet.
pub open spec fn spec_status_power(buf: Seq<u8>, variant: WireVariant) -> PowerStatus {
    match variant {
        WireVariant::V1 => PowerStatus {
            state: PowerState::spec_from_byte((buf[0] & 0xC0) >> 6),
            usage: buf[1],
        },
        WireVariant::V2 => PowerStatus { state: PowerState::spec_from_byte(buf[2]), usage: buf[3] },
    }
}

/// Where the opcode-specific payload starts in an inbound packet: right
/// after the status prefix.
pub open spec fn spec_payload_offset(variant: WireVariant) -> int {
    match variant {
        WireVariant::V1 => 3,
        WireVariant::V2 => 4,
    }
}

/// Copies the tail of a packet starting at `from`.
fn copy_tail(buf: &Vec<u8>, from: usize) -> (r: Vec<u8>)
    requires
        from <= buf@.len(),
    ensures
        r@ == buf@.subrange(from as int, buf@.len() as int),
{
    let mut r: Vec<u8> = Vec::new();
    let mut i: usize = from;
    while i < buf.len()
        invariant
            from <= i <= buf@.len(),
            r@.len() == i - from,
            forall|j: int| 0 <= j < r@.len() ==> r@[j] == buf@[from + j],
        decreases buf@.len() - i,
    {
        r.push(buf[i]);
        i += 1;
    }
    proof {
        assert(r@ =~= buf@.subrange(from as int, buf@.len() as int));
    }
    r
}

impl Worker {
    /// Routes one inbound packet.
    ///
    /// The always-present status prefix updates the shared firmware
    /// version (first write wins) and power status and resets the timeout
    /// count.  The packet's request id then routes the payload: id 0 is
    /// the heartbeat alone; an id with a pulse request in flight retires
    /// it and acknowledges its configuration; an id with a stream in
    /// flight delivers one sample batch and retires the stream when its
    /// count is exhausted; any other id matches nothing and is discarded
    /// and counted.
    pub fn handle_rx(&mut self, usb_buf: &Vec<u8>) -> (r: RxOutcome)
        requires
            old(self).wf(),
            usb_buf@.len() == RX_PACKET_LEN,
        ensures
            final(self).wf(),
            final(self).variant == old(self).variant,
            final(self).running == old(self).running,
            final(self).pending == old(self).pending,
            final(self).next_id == old(self).next_id,
            final(self).consecutive_timeouts == 0,
            final(self).state.analog_inputs == old(self).state.analog_inputs,
            final(self).state.analog_outputs == old(self).state.analog_outputs,
            final(self).state.fw_version == (if old(self).state.fw_version is Some {
                old(self).state.fw_version
            } else {
                Some(spec_status_fw(usb_buf@, old(self).variant))
            }),
            final(self).state.power_status == spec_status_power(usb_buf@, old(self).variant),
            ({
                let id = spec_status_request_id(usb_buf@, old(self).variant) as int;
                &&& (id == 0 ==> r is StatusOnly && final(self).in_flight == old(self).in_flight
                    && final(self).unknown_replies == old(self).unknown_replies && final(self).state.pulse_outputs == old(self).state.pulse_outputs)
                &&& (id != 0 && old(self).in_flight@[id] is None ==> r is Unknown && final(self).in_flight == old(self).in_flight && final(self).state.pulse_outputs == old(self).state.pulse_outputs && final(self).unknown_replies == (if old(self).unknown_replies == u64::MAX {
                    old(self).unknown_replies
                } else {
                    (old(self).unknown_replies + 1) as u64
                }))
                &&& (old(self).in_flight@[id] matches Some(InFlight::Pulse(req)) ==> (
                r matches RxOutcome::PulseAck { request_id, channel, px } && request_id == id
                    && channel == req.channel && px == req.px) && final(self).state.pulse_outputs@
                    == old(self).state.pulse_outputs@.update(req.channel as int, req.px) && final(self).in_flight@ == old(self).in_flight@.update(id, None) && final(self).unknown_replies
                    == old(self).unknown_replies)
                &&& (old(self).in_flight@[id] matches Some(InFlight::Data { request, remaining })
                    ==> {
                    let batch = usb_buf@[spec_payload_offset(old(self).variant)];
                    let outcome = spec_apply_batch(request, remaining, batch);
                    &&& (r matches RxOutcome::Samples { request_id, data, finished } && request_id
                        == id && data@ == usb_buf@.subrange(
                        spec_payload_offset(old(self).variant) + 1,
                        RX_PACKET_LEN as int,
                    ) && finished == outcome.1)
                    &&& final(self).in_flight@ == (if outcome.1 {
                        old(self).in_flight@.update(id, None)
                    } else {
                        old(self).in_flight@.update(
                            id,
                            Some(InFlight::Data { request, remaining: outcome.0 }),
                        )
                    })
                    &&& final(self).state.pulse_outputs == old(self).state.pulse_outputs
                    &&& final(self).unknown_replies == old(self).unknown_replies
                })
            }),
    {
        self.consecutive_timeouts = 0;
        let (id, fw, power) = match self.variant {
            WireVariant::V1 => {
                let status = StatusResponseLegacy::new(usb_buf.as_slice());
                (
                    status.request_id,
                    status.fw_version,
                    PowerStatus { state: status.power_state, usage: status.power_usage },
                )
            },
            WireVariant::V2 => {
                let status = StatusResponse::new(usb_buf.as_slice());
                (
                    status.request_id,
                    status.fw_version,
                    PowerStatus { state: status.power_state, usage: status.power_usage },
                )
            },
        };
        if self.state.fw_version.is_none() {
            self.state.fw_version = Some(fw);
        }
        self.state.power_status = power;
        if id == 0 {
            return RxOutcome::StatusOnly;
        }
        let idx = id as usize;
        let entry = self.in_flight[idx];
        match entry {
            None => {
                if self.unknown_replies != u64::MAX {
                    self.unknown_replies = self.unknown_replies + 1;
                }
                RxOutcome::Unknown
            },
            Some(InFlight::Pulse(req)) => {
                let px = req.handle_rx(&mut self.state);
                self.in_flight.set(idx, None);
                RxOutcome::PulseAck { request_id: id, channel: req.channel, px }
            },
            Some(InFlight::Data { request, remaining }) => {
                let offset: usize = match self.variant {
                    WireVariant::V1 => 3,
                    WireVariant::V2 => 4,
                };
                let batch = usb_buf[offset];
                let (new_remaining, finished) = request.apply_batch(remaining, batch);
                if finished {
                    self.in_flight.set(idx, None);
                } else {
                    self.in_flight.set(
                        idx,
                        Some(InFlight::Data { request, remaining: new_remaining }),
                    );
                }
                let data = copy_tail(usb_buf, offset + 1);
                RxOutcome::Samples { request_id: id, data, finished }
            },
        }
    }

    /// Records a lost exchange cycle.  Crossing the consecutive-timeout
    /// threshold marks the device disconnected: the worker stops and
    /// everything in flight is drained as on shutdown.
    pub fn handle_timeout(&mut self) -> (r: TimeoutOutcome)
        requires
            old(self).wf(),
            old(self).running,
        ensures
            final(self).wf(),
            final(self).variant == old(self).variant,
            final(self).state == old(self).state,
            final(self).unknown_replies == old(self).unknown_replies,
            final(self).consecutive_timeouts == old(self).consecutive_timeouts + 1,
            old(self).consecutive_timeouts + 1 < MAX_CONSECUTIVE_TIMEOUTS ==> r is Continue
                && final(self).running && final(self).pending == old(self).pending && final(self).in_flight == old(self).in_flight,
            old(self).consecutive_timeouts + 1 >= MAX_CONSECUTIVE_TIMEOUTS ==> (
            r matches TimeoutOutcome::Disconnected { ended } && !final(self).running && final(self).pending@.len() == 0 && (forall|i: int| 0 <= i < 256 ==> final(self).in_flight@[i]
                is None) && (forall|k: int|
                0 <= k < ended@.len() ==> old(self).in_flight@[ended@[k] as int] is Some) && (
            forall|i: int|
                0 <= i < 256 && old(self).in_flight@[i] is Some ==> ended@.contains(i as u8))),
    {
        let next = self.consecutive_timeouts + 1;
        if next >= MAX_CONSECUTIVE_TIMEOUTS {
            let ended = self.drain();
            self.consecutive_timeouts = next;
            TimeoutOutcome::Disconnected { ended }
        } else {
            self.consecutive_timeouts = next;
            TimeoutOutcome::Continue
        }
    }

    /// Retires the stream whose reply sink the loop found closed; the
    /// caller went away and no more batches can be delivered.
    pub fn handle_sink_closed(&mut self, request_id: u8)
        requires
            old(self).wf(),
        ensures
            final(self).wf(),
            final(self).in_flight@ == old(self).in_flight@.update(request_id as int, None),
            final(self).variant == old(self).variant,
            final(self).state == old(self).state,
            final(self).pending == old(self).pending,
            final(self).next_id == old(self).next_id,
            final(self).unknown_replies == old(self).unknown_replies,
            final(self).consecutive_timeouts == old(self).consecutive_timeouts,
            final(self).running == old(self).running,
    {
        self.in_flight.set(request_id as usize, None);
    }
}

} // verus!
