//! Pulse output configuration and its wire registers.
//!
//! A pulse channel is described by an on/off flag, a period and a pulse
//! width, both in nanoseconds.  On the wire the configuration becomes three
//! registers `(prescale, period, duty)` counted against the device's 16 MHz
//! timebase: one tick is 1/16 us, and the prescaler divides the timebase by
//! 1, 8, 64 or 256 so that the period fits a 16-bit counter.

use vstd::prelude::*;

use vstd::bytes::lemma_auto_spec_u32_to_from_le_bytes;
use vstd::bytes::spec_u32_from_le_bytes;
use vstd::bytes::spec_u32_to_le_bytes;
use vstd::bytes::u32_from_le_bytes;
use vstd::bytes::u32_to_le_bytes;
use vstd::pervasive::VecAdditionalExecFns;

use crate::error::BadConfigKind;
use crate::error::NscopeError;
use crate::scope::NscopeState;
use crate::scope::commands::OPCODE_SET_PULSE_OUTPUT;
use crate::scope::commands::TX_PACKET_LEN;
use crate::scope::commands::spec_zero_packet;

verus! {

/// Smallest accepted period, in 16 MHz ticks.
pub const MIN_PERIOD_TICKS: u64 = 4;

/// Largest accepted period, in 16 MHz ticks: a full 16-bit counter at the
/// largest prescale value.
pub const MAX_PERIOD_TICKS: u64 = 65535 * 256;

/// The clock divider applied to the 16 MHz timebase before the pulse
/// period and duty counters.
#[derive(Clone, Copy, Debug, PartialEq, Eq, Structural)]
pub enum PulsePreScale {
    One,
    Eight,
    SixtyFour,
    TwoFiftySix,
}

impl PulsePreScale {
    /// The divider as a number.
    pub open spec fn spec_value(self) -> u64 {
        match self {
            PulsePreScale::One => 1,
            PulsePreScale::Eight => 8,
            PulsePreScale::SixtyFour => 64,
            PulsePreScale::TwoFiftySix => 256,
        }
    }

    /// The two-bit field that selects this divider on the wire.
    pub open spec fn spec_register(self) -> u8 {
        match self {
            PulsePreScale::One => 0,
            PulsePreScale::Eight => 1,
            PulsePreScale::SixtyFour => 2,
            PulsePreScale::TwoFiftySix => 3,
        }
    }

    /// The divider as a number.
    pub fn value(&self) -> (r: u64)
        ensures
            r == self.spec_value(),
    {
        match *self {
            PulsePreScale::One => 1,
            PulsePreScale::Eight => 8,
            PulsePreScale::SixtyFour => 64,
            PulsePreScale::TwoFiftySix => 256,
        }
    }

    /// The two-bit field that selects this divider on the wire.
    pub fn register(&self) -> (r: u8)
        ensures
            r == self.spec_register(),
    {
        match *self {
            PulsePreScale::One => 0,
            PulsePreScale::Eight => 1,
            PulsePreScale::SixtyFour => 2,
            PulsePreScale::TwoFiftySix => 3,
        }
    }

    /// The divider selected by a two-bit wire field, if the field is valid.
    pub fn from_register(bits: u8) -> (r: Option<PulsePreScale>)
        ensures
            bits <= 3 ==> (r matches Some(ps) && ps.spec_register() == bits),
            bits > 3 ==> r is None,
    {
        match bits {
            0 => Some(PulsePreScale::One),
            1 => Some(PulsePreScale::Eight),
            2 => Some(PulsePreScale::SixtyFour),
            3 => Some(PulsePreScale::TwoFiftySix),
            _ => None,
        }
    }
}

/// Configuration of one pulse output channel.
///
/// `period_ns` is the pulse period and `duty_ns` the on-time within one
/// period, both in nanoseconds.
#[derive(Clone, Copy, Debug, PartialEq, Eq, Structural)]
pub struct PulseOutput {
    pub is_on: bool,
    pub period_ns: u64,
    pub duty_ns: u64,
}

impl Default for PulseOutput {
    /// A channel that is off, at a 1 second period with a 50% duty cycle.
    fn default() -> (r: Self)
        ensures
            r == (PulseOutput { is_on: false, period_ns: 1_000_000_000u64, duty_ns: 500_000_000u64 }),
    {
        PulseOutput { is_on: false, period_ns: 1_000_000_000, duty_ns: 500_000_000 }
    }
}

impl PulseOutput {
    /// The pulse period in nanoseconds.
    pub fn period_ns(&self) -> (r: u64)
        ensures
            r == self.period_ns,
    {
        self.period_ns
    }

    /// The pulse width (on-time within one period) in nanoseconds.
    pub fn pulse_width_ns(&self) -> (r: u64)
        ensures
            r == self.duty_ns,
    {
        self.duty_ns
    }
}

/// A nanosecond count converted to 16 MHz ticks, rounding down.
pub open spec fn ticks_of_ns(ns: u64) -> int {
    ns * 16 / 1000
}

/// The smallest prescale whose divided period fits a 16-bit counter.
pub open spec fn prescale_for(period_ticks: int) -> PulsePreScale
    recommends
        MIN_PERIOD_TICKS <= period_ticks <= MAX_PERIOD_TICKS,
{
    if period_ticks <= 65535 {
        PulsePreScale::One
    } else if period_ticks <= 65535 * 8 {
        PulsePreScale::Eight
    } else if period_ticks <= 65535 * 64 {
        PulsePreScale::SixtyFour
    } else {
        PulsePreScale::TwoFiftySix
    }
}

/// The wire registers of an accepted configuration: the prescale field and
/// the period and duty counters, each the tick count divided by the
/// prescale value.
pub open spec fn spec_px_registers(px: PulseOutput) -> (u8, u32, u32) {
    let p = ticks_of_ns(px.period_ns);
    let d = ticks_of_ns(px.duty_ns);
    let v = prescale_for(p).spec_value() as int;
    (prescale_for(p).spec_register(), (p / v) as u32, (d / v) as u32)
}

/// Whether a configuration is rejected, and why: a period under
/// `MIN_PERIOD_TICKS` ticks is too short, one over `MAX_PERIOD_TICKS` ticks
/// is too long, and a pulse width longer than the period is an invalid
/// duty cycle.
pub open spec fn spec_px_rejection(px: PulseOutput) -> Option<NscopeError> {
    let p = ticks_of_ns(px.period_ns);
    let d = ticks_of_ns(px.duty_ns);
    if p < MIN_PERIOD_TICKS {
        Some(NscopeError::BadConfig(BadConfigKind::TooShort))
    } else if p > MAX_PERIOD_TICKS {
        Some(NscopeError::BadConfig(BadConfigKind::TooLong))
    } else if d > p {
        Some(NscopeError::BadConfig(BadConfigKind::InvalidDuty))
    } else {
        None
    }
}

/// The period and duty registers for a pulse configuration.
///
/// Both counters are an integer number of prescaled 16 MHz clock cycles;
/// the prescale is the smallest of 1, 8, 64, 256 that brings the period
/// counter within 16 bits.
pub fn get_registers(pulse_output: &PulseOutput) -> (r: Result<(u8, u32, u32), NscopeError>)
    ensures
        match spec_px_rejection(*pulse_output) {
            Some(e) => r == Err::<(u8, u32, u32), NscopeError>(e),
            None => r == Ok::<(u8, u32, u32), NscopeError>(spec_px_registers(*pulse_output)),
        },
{
    let period: u128 = pulse_output.period_ns as u128 * 16 / 1000;
    let duty: u128 = pulse_output.duty_ns as u128 * 16 / 1000;

    let prescale = if period < MIN_PERIOD_TICKS as u128 {
        return Err(NscopeError::BadConfig(BadConfigKind::TooShort));
    } else if period <= 65535 {
        PulsePreScale::One
    } else if period <= 65535 * 8 {
        PulsePreScale::Eight
    } else if period <= 65535 * 64 {
        PulsePreScale::SixtyFour
    } else if period <= 65535 * 256 {
        PulsePreScale::TwoFiftySix
    } else {
        return Err(NscopeError::BadConfig(BadConfigKind::TooLong));
    };

    if duty > period {
        return Err(NscopeError::BadConfig(BadConfigKind::InvalidDuty));
    }

    let value = prescale.value() as u128;
    let period_register = (period / value) as u32;
    let duty_register = (duty / value) as u32;

    Ok((prescale.register(), period_register, duty_register))
}

/// The registers of an accepted configuration recover the tick counts to
/// within one prescale step: the period counter times the prescale value
/// falls short of the period ticks by less than one prescale value, the
/// counter itself fits 16 bits and is positive, and the duty counter never
/// exceeds the period counter.  The duty counter is positive whenever the
/// pulse width spans at least one prescale value of ticks.  The prescale
/// is the smallest divider that brings the period counter within 16 bits.
pub proof fn lemma_register_rounding(p: int, d: int)
    requires
        MIN_PERIOD_TICKS <= p <= MAX_PERIOD_TICKS,
        0 <= d <= p,
    ensures
        ({
            let ps = prescale_for(p);
            let v = ps.spec_value() as int;
            &&& 1 <= v
            &&& (p / v) * v <= p < (p / v) * v + v
            &&& 1 <= p / v <= 65535
            &&& 0 <= d / v <= p / v
            &&& v <= d ==> 1 <= d / v
            &&& ps != PulsePreScale::One ==> p > 65535
            &&& ps == PulsePreScale::SixtyFour ==> p > 65535 * 8
            &&& ps == PulsePreScale::TwoFiftySix ==> p > 65535 * 64
        }),
{
    let ps = prescale_for(p);
    let v = ps.spec_value() as int;
    assert((p / v) * v <= p < (p / v) * v + v) by (nonlinear_arith)
        requires
            1 <= v,
            0 <= p,
    ;
    assert(d / v <= p / v) by (nonlinear_arith)
        requires
            1 <= v,
            0 <= d <= p,
    ;
}

/// The nine payload bytes of an on-channel: the prescale field with the
/// high bit set, then the period and duty counters as little-endian words.
pub open spec fn spec_pulse_on_bytes(prescale: u8, period_register: u32, duty_register: u32) -> Seq<
    u8,
> {
    seq![(0x80 | prescale) as u8] + spec_u32_to_le_bytes(period_register) + spec_u32_to_le_bytes(
        duty_register,
    )
}

/// The registers encoded in a nine-byte channel payload, if the payload
/// carries an on-channel configuration.  A leading `0xFF` (channel off) or
/// an untouched payload decodes to nothing.
pub open spec fn spec_decode_pulse(bytes: Seq<u8>) -> Option<(u8, u32, u32)>
    recommends
        bytes.len() == 9,
{
    let marker = bytes[0];
    if marker & 0x80 != 0 && marker & 0x7F <= 3 {
        Some(
            (
                (marker & 0x7F) as u8,
                spec_u32_from_le_bytes(bytes.subrange(1, 5)),
                spec_u32_from_le_bytes(bytes.subrange(5, 9)),
            ),
        )
    } else {
        None
    }
}

/// Decoding the payload of an encoded on-channel reproduces the register
/// triple exactly.
pub proof fn lemma_pulse_round_trip(prescale: u8, period_register: u32, duty_register: u32)
    requires
        prescale <= 3,
    ensures
        spec_decode_pulse(spec_pulse_on_bytes(prescale, period_register, duty_register)) == Some(
            (prescale, period_register, duty_register),
        ),
{
    lemma_auto_spec_u32_to_from_le_bytes();
    let bytes = spec_pulse_on_bytes(prescale, period_register, duty_register);
    assert(bytes[0] == (0x80 | prescale) as u8);
    assert((0x80 | prescale) & 0x80 != 0 && (0x80 | prescale) & 0x7F == prescale) by (bit_vector)
        requires
            prescale <= 3,
    ;
    assert(bytes.subrange(1, 5) =~= spec_u32_to_le_bytes(period_register));
    assert(bytes.subrange(5, 9) =~= spec_u32_to_le_bytes(duty_register));
}

/// A request to configure one pulse output channel (0-based).
#[derive(Clone, Copy, Debug)]
pub struct PxRequest {
    pub channel: usize,
    pub px: PulseOutput,
}

/// The first payload byte of a pulse channel inside the outbound packet.
pub open spec fn spec_px_base(channel: int) -> int {
    3 + 10 * channel
}

/// The outbound packet of a pulse request, before the request id is
/// stamped: the pulse opcode, and the channel's nine payload bytes (or the
/// single off marker `0xFF`) at its payload base.  The other channel's
/// payload is left untouched.
pub open spec fn spec_px_packet(req: PxRequest) -> Seq<u8> {
    let base = spec_px_base(req.channel as int);
    if req.px.is_on {
        let regs = spec_px_registers(req.px);
        Seq::new(
            TX_PACKET_LEN as nat,
            |j: int|
                {
                    if j == 1 {
                        OPCODE_SET_PULSE_OUTPUT
                    } else if base <= j < base + 9 {
                        spec_pulse_on_bytes(regs.0, regs.1, regs.2)[j - base]
                    } else {
                        0u8
                    }
                },
        )
    } else {
        Seq::new(
            TX_PACKET_LEN as nat,
            |j: int|
                {
                    if j == 1 {
                        OPCODE_SET_PULSE_OUTPUT
                    } else if j == base {
                        0xFFu8
                    } else {
                        0u8
                    }
                },
        )
    }
}

impl PxRequest {
    /// Serializes the requested configuration into a zeroed outbound
    /// packet.  A rejected configuration leaves only the opcode written
    /// and returns the rejection.
    pub fn fill_tx_buffer(&self, usb_buf: &mut Vec<u8>) -> (r: Result<(), NscopeError>)
        requires
            old(usb_buf)@ == spec_zero_packet(),
            self.channel < 2,
        ensures
            final(usb_buf)@.len() == TX_PACKET_LEN,
            match spec_px_rejection(self.px) {
                None => r is Ok && final(usb_buf)@ == spec_px_packet(*self),
                Some(e) => r == Err::<(), NscopeError>(e) && final(usb_buf)@ == spec_zero_packet()
                    .update(1, OPCODE_SET_PULSE_OUTPUT),
            },
    {
        usb_buf.set(1, OPCODE_SET_PULSE_OUTPUT);

        let i_ch = 3 + 10 * self.channel;
        let (prescale, period, duty) = match get_registers(&self.px) {
            Ok(regs) => regs,
            Err(e) => {
                return Err(e);
            },
        };

        if self.px.is_on {
            proof {
                lemma_auto_spec_u32_to_from_le_bytes();
            }
            usb_buf.set(i_ch, 0x80 | prescale);
            let period_bytes = u32_to_le_bytes(period);
            usb_buf.set(i_ch + 1, period_bytes[0]);
            usb_buf.set(i_ch + 2, period_bytes[1]);
            usb_buf.set(i_ch + 3, period_bytes[2]);
            usb_buf.set(i_ch + 4, period_bytes[3]);
            let duty_bytes = u32_to_le_bytes(duty);
            usb_buf.set(i_ch + 5, duty_bytes[0]);
            usb_buf.set(i_ch + 6, duty_bytes[1]);
            usb_buf.set(i_ch + 7, duty_bytes[2]);
            usb_buf.set(i_ch + 8, duty_bytes[3]);
            proof {
                assert(usb_buf@ =~= spec_px_packet(*self));
            }
        } else {
            usb_buf.set(i_ch, 0xFF);
            proof {
                assert(usb_buf@ =~= spec_px_packet(*self));
            }
        }
        Ok(())
    }

    /// Applies the acknowledged configuration to the shared state and
    /// hands back what the caller's reply sink receives.
    pub fn handle_rx(&self, state: &mut NscopeState) -> (r: PulseOutput)
        requires
            old(state).wf(),
            self.channel < 2,
        ensures
            final(state).wf(),
            final(state).pulse_outputs@ == old(state).pulse_outputs@.update(
                self.channel as int,
                self.px,
            ),
            final(state).analog_inputs == old(state).analog_inputs,
            final(state).analog_outputs == old(state).analog_outputs,
            final(state).fw_version == old(state).fw_version,
            final(state).power_status == old(state).power_status,
            r == self.px,
    {
        state.pulse_outputs.set(self.channel, self.px);
        self.px
    }
}

/// Reads one channel's register triple back out of an outbound packet.
pub fn decode_pulse_channel(usb_buf: &Vec<u8>, channel: usize) -> (r: Option<(u8, u32, u32)>)
    requires
        usb_buf@.len() == TX_PACKET_LEN,
        channel < 2,
    ensures
        r == spec_decode_pulse(
            usb_buf@.subrange(spec_px_base(channel as int), spec_px_base(channel as int) + 9),
        ),
{
    let i_ch = 3 + 10 * channel;
    let marker = usb_buf[i_ch];
    let ghost payload = usb_buf@.subrange(
        spec_px_base(channel as int),
        spec_px_base(channel as int) + 9,
    );
    if marker & 0x80 != 0 && marker & 0x7F <= 3 {
        let s = usb_buf.as_slice();
        let period = u32_from_le_bytes(&s[i_ch + 1..i_ch + 5]);
        let duty = u32_from_le_bytes(&s[i_ch + 5..i_ch + 9]);
        proof {
            assert(payload.subrange(1, 5) =~= usb_buf@.subrange(i_ch + 1, i_ch + 5));
            assert(payload.subrange(5, 9) =~= usb_buf@.subrange(i_ch + 5, i_ch + 9));
        }
        Some((marker & 0x7F, period, duty))
    } else {
        None
    }
}

/// Encoding an accepted on-configuration into a packet and decoding the
/// channel's wire bytes back reproduces the register triple exactly.
pub proof fn lemma_px_packet_round_trip(req: PxRequest)
    requires
        req.channel < 2,
        req.px.is_on,
        spec_px_rejection(req.px) is None,
    ensures
        ({
            let base = spec_px_base(req.channel as int);
            spec_decode_pulse(spec_px_packet(req).subrange(base, base + 9)) == Some(
                spec_px_registers(req.px),
            )
        }),
{
    let base = spec_px_base(req.channel as int);
    let regs = spec_px_registers(req.px);
    lemma_register_rounding(ticks_of_ns(req.px.period_ns), ticks_of_ns(req.px.duty_ns));
    assert(regs.0 <= 3);
    assert(spec_px_packet(req).subrange(base, base + 9) =~= spec_pulse_on_bytes(
        regs.0,
        regs.1,
        regs.2,
    )) by {
        lemma_auto_spec_u32_to_from_le_bytes();
    }
    lemma_pulse_round_trip(regs.0, regs.1, regs.2);
}

/// One caller-intended configuration set applied to the channel list.
pub open spec fn spec_apply_px_sets(
    configs: Seq<PulseOutput>,
    channel: int,
    sets: Seq<PulseOutput>,
) -> Seq<PulseOutput>
    decreases sets.len(),
{
    if sets.len() == 0 {
        configs
    } else {
        spec_apply_px_sets(configs.update(channel, sets[0]), channel, sets.drop_first())
    }
}

/// After any sequence of configuration sets on one channel completes, the
/// channel reports exactly the last set's intended configuration, and no
/// other channel is touched.
pub proof fn lemma_last_set_wins(configs: Seq<PulseOutput>, channel: int, sets: Seq<PulseOutput>)
    requires
        0 <= channel < configs.len(),
        sets.len() > 0,
    ensures
        spec_apply_px_sets(configs, channel, sets).len() == configs.len(),
        spec_apply_px_sets(configs, channel, sets)[channel] == sets.last(),
        forall|c: int|
            0 <= c < configs.len() && c != channel ==> spec_apply_px_sets(configs, channel, sets)[c]
                == configs[c],
    decreases sets.len(),
{
    assert(spec_apply_px_sets(configs, channel, sets) == spec_apply_px_sets(
        configs.update(channel, sets[0]),
        channel,
        sets.drop_first(),
    ));
    if sets.len() == 1 {
        assert(spec_apply_px_sets(configs.update(channel, sets[0]), channel, sets.drop_first())
            == configs.update(channel, sets[0]));
    } else {
        lemma_last_set_wins(configs.update(channel, sets[0]), channel, sets.drop_first());
        assert(sets.drop_first().last() == sets.last());
    }
    assert forall|c: int|
        0 <= c < configs.len() && c != channel implies spec_apply_px_sets(configs, channel, sets)[c]
        == configs[c] by {
        assert(configs.update(channel, sets[0])[c] == configs[c]);
    }
}

} // verus!
