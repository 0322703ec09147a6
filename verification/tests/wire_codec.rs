use nscope::scope::StatusResponse;
use nscope::scope::StatusResponseLegacy;
use nscope::scope::commands::Command;
use nscope::scope::commands::null_request;
use nscope::scope::commands::zero_packet;
use nscope::scope::data_requests::DataRequest;
use nscope::scope::power::PowerState;
use nscope::scope::pulse_output::PulseOutput;
use nscope::scope::pulse_output::PxRequest;
use nscope::scope::pulse_output::decode_pulse_channel;

#[test]
fn initialize_with_power_on_uses_opcode_seven() {
    let mut buf = zero_packet();
    Command::Initialize(true).fill_tx_buffer(&mut buf).unwrap();
    assert_eq!(buf[1], 0x07);
    assert_eq!(buf[0], 0x00);
}

#[test]
fn initialize_with_power_off_uses_opcode_six() {
    let mut buf = zero_packet();
    Command::Initialize(false).fill_tx_buffer(&mut buf).unwrap();
    assert_eq!(buf[1], 0x06);
}

#[test]
fn pulse_channel_zero_wire_bytes() {
    // 1 kHz at 50% on channel 0: marker 0x80, then 16000 and 8000 as
    // little-endian words.
    let req = PxRequest {
        channel: 0,
        px: PulseOutput { is_on: true, period_ns: 1_000_000, duty_ns: 500_000 },
    };
    let mut buf = zero_packet();
    req.fill_tx_buffer(&mut buf).unwrap();
    assert_eq!(buf.len(), 65);
    assert_eq!(buf[1], 0x01);
    assert_eq!(buf[3], 0x80);
    assert_eq!(&buf[4..8], &16000u32.to_le_bytes());
    assert_eq!(&buf[8..12], &8000u32.to_le_bytes());
    // The other channel's payload is untouched.
    assert!(buf[13..22].iter().all(|&b| b == 0));
}

#[test]
fn pulse_channel_one_off_frame() {
    let req = PxRequest { channel: 1, px: PulseOutput::default() };
    let mut buf = zero_packet();
    req.fill_tx_buffer(&mut buf).unwrap();
    assert_eq!(buf[13], 0xFF);
    assert!(buf[14..22].iter().all(|&b| b == 0));
    assert!(buf[3..13].iter().all(|&b| b == 0));
}

#[test]
fn rejected_pulse_leaves_only_the_opcode() {
    let req = PxRequest {
        channel: 0,
        px: PulseOutput { is_on: true, period_ns: 100, duty_ns: 50 },
    };
    let mut buf = zero_packet();
    assert!(req.fill_tx_buffer(&mut buf).is_err());
    assert_eq!(buf[1], 0x01);
    assert!(buf[2..].iter().all(|&b| b == 0));
}

#[test]
fn encoded_pulse_decodes_back_to_the_same_registers() {
    // Round trip: 1 Hz at 10% on channel 1 encodes to (3, 62500, 6250)
    // and decodes back to it exactly.
    let req = PxRequest {
        channel: 1,
        px: PulseOutput { is_on: true, period_ns: 1_000_000_000, duty_ns: 100_000_000 },
    };
    let mut buf = zero_packet();
    req.fill_tx_buffer(&mut buf).unwrap();
    let decoded = decode_pulse_channel(&buf, 1).unwrap();
    assert_eq!(decoded, (3, 62500, 6250));
    // The untouched channel decodes to nothing.
    assert!(decode_pulse_channel(&buf, 0).is_none());
}

#[test]
fn off_channel_decodes_to_nothing() {
    let req = PxRequest { channel: 0, px: PulseOutput::default() };
    let mut buf = zero_packet();
    req.fill_tx_buffer(&mut buf).unwrap();
    assert!(decode_pulse_channel(&buf, 0).is_none());
}

#[test]
fn data_request_wire_bytes() {
    let dr = DataRequest {
        sample_rate_hz: 1000,
        sample_count: 20,
        channels_on: [true, false, true, false],
    };
    let mut buf = zero_packet();
    dr.fill_tx_buffer(&mut buf);
    assert_eq!(buf[1], 0x03);
    assert_eq!(&buf[3..7], &1000u32.to_le_bytes());
    assert_eq!(&buf[7..11], &20u32.to_le_bytes());
    assert_eq!(buf[11], 0b0101);
}

#[test]
fn continuous_data_request_uses_the_continuous_opcode() {
    let dr = DataRequest {
        sample_rate_hz: 1000,
        sample_count: 0,
        channels_on: [true, true, true, true],
    };
    let mut buf = zero_packet();
    dr.fill_tx_buffer(&mut buf);
    assert_eq!(buf[1], 0x04);
    assert_eq!(buf[11], 0b1111);
}

#[test]
fn null_request_frame() {
    let frame = null_request();
    assert_eq!(frame, vec![0x00, 0xFF]);
}

#[test]
fn legacy_status_unpacks_packed_byte() {
    // fw 0x12 with power state 1 packed into byte 0.
    let mut buf = vec![0u8; 64];
    buf[0] = 0x12 | 0x40;
    buf[1] = 9;
    buf[2] = 7;
    let s = StatusResponseLegacy::new(&buf);
    assert_eq!(s.fw_version, 0x12);
    assert_eq!(s.power_state, PowerState::PoweredOn);
    assert_eq!(s.power_usage, 9);
    assert_eq!(s.request_id, 7);
}

#[test]
fn status_reads_one_field_per_byte() {
    let mut buf = vec![0u8; 64];
    buf[0] = 5;
    buf[1] = 33;
    buf[2] = 0;
    buf[3] = 14;
    let s = StatusResponse::new(&buf);
    assert_eq!(s.request_id, 5);
    assert_eq!(s.fw_version, 33);
    assert_eq!(s.power_state, PowerState::PoweredOff);
    assert_eq!(s.power_usage, 14);
}
