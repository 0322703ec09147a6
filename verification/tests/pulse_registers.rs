use nscope::BadConfigKind;
use nscope::NscopeError;
use nscope::scope::pulse_output::MAX_PERIOD_TICKS;
use nscope::scope::pulse_output::MIN_PERIOD_TICKS;
use nscope::scope::pulse_output::PulseOutput;
use nscope::scope::pulse_output::PulsePreScale;
use nscope::scope::pulse_output::get_registers;

fn px(period_ns: u64, duty_ns: u64) -> PulseOutput {
    PulseOutput { is_on: true, period_ns, duty_ns }
}

#[test]
fn prescale_values() {
    assert_eq!(PulsePreScale::One.value(), 1);
    assert_eq!(PulsePreScale::Eight.value(), 8);
    assert_eq!(PulsePreScale::SixtyFour.value(), 64);
    assert_eq!(PulsePreScale::TwoFiftySix.value(), 256);
}

#[test]
fn prescale_registers() {
    assert_eq!(PulsePreScale::One.register(), 0);
    assert_eq!(PulsePreScale::Eight.register(), 1);
    assert_eq!(PulsePreScale::SixtyFour.register(), 2);
    assert_eq!(PulsePreScale::TwoFiftySix.register(), 3);
}

#[test]
fn prescale_round_trip_through_register() {
    for bits in 0u8..4 {
        let ps = PulsePreScale::from_register(bits).unwrap();
        assert_eq!(ps.register(), bits);
    }
    assert!(PulsePreScale::from_register(4).is_none());
    assert!(PulsePreScale::from_register(0xFF).is_none());
}

#[test]
fn tick_limits() {
    assert_eq!(MIN_PERIOD_TICKS, 4);
    assert_eq!(MAX_PERIOD_TICKS, 65535 * 256);
}

#[test]
fn one_kilohertz_at_half_duty() {
    // 1 kHz at 50%: period 1_000_000 ns = 16000 ticks, no prescale.
    let r = get_registers(&px(1_000_000, 500_000)).unwrap();
    assert_eq!(r, (0, 16000, 8000));
}

#[test]
fn one_hertz_at_tenth_duty() {
    // 1 Hz at 10%: 16_000_000 ticks need the 256 prescale.
    let r = get_registers(&px(1_000_000_000, 100_000_000)).unwrap();
    assert_eq!(r, (3, 62500, 6250));
}

#[test]
fn ten_megahertz_is_too_short() {
    // 10 MHz: period 100 ns is 1.6 ticks, under the minimum of 4.
    let r = get_registers(&px(100, 50));
    assert_eq!(r, Err(NscopeError::BadConfig(BadConfigKind::TooShort)));
}

#[test]
fn two_second_period_is_too_long() {
    // 2 s: 32_000_000 ticks exceed the largest prescaled counter.
    let r = get_registers(&px(2_000_000_000, 1_000_000_000));
    assert_eq!(r, Err(NscopeError::BadConfig(BadConfigKind::TooLong)));
}

#[test]
fn duty_beyond_period_is_invalid() {
    let r = get_registers(&px(1_000_000, 2_000_000));
    assert_eq!(r, Err(NscopeError::BadConfig(BadConfigKind::InvalidDuty)));
}

#[test]
fn registers_from_frequency_and_duty() {
    // The caller-facing form: a frequency in hertz and a duty fraction,
    // converted to nanoseconds the way the shell converts them.
    let freq: f64 = 1000.0;
    let duty: f64 = 0.5;
    let period_ns = (1e9 / freq).round() as u64;
    let duty_ns = (period_ns as f64 * duty).round() as u64;
    let r = get_registers(&px(period_ns, duty_ns)).unwrap();
    assert_eq!(r, (0, 16000, 8000));
}

#[test]
fn period_recovered_within_one_prescale_step() {
    // Rounding law on a case that does not divide evenly: 100.3 Hz.
    let period_ns: u64 = 9_970_090;
    let ticks: u64 = period_ns * 16 / 1000;
    let (prescale, period_register, _) = get_registers(&px(period_ns, 1_000_000)).unwrap();
    let value = PulsePreScale::from_register(prescale).unwrap().value();
    let recovered = period_register as u64 * value;
    assert!(recovered <= ticks);
    assert!(ticks - recovered < value);
}

#[test]
fn default_pulse_output_is_off_at_one_hertz() {
    let d = PulseOutput::default();
    assert!(!d.is_on);
    assert_eq!(d.period_ns, 1_000_000_000);
    assert_eq!(d.duty_ns, 500_000_000);
    assert_eq!(d.period_ns(), 1_000_000_000);
    assert_eq!(d.pulse_width_ns(), 500_000_000);
}

#[test]
fn error_messages() {
    assert_eq!(
        NscopeError::BadConfig(BadConfigKind::TooShort).message(),
        "Desired pulse length is too short"
    );
    assert_eq!(
        NscopeError::BadConfig(BadConfigKind::TooLong).message(),
        "Desired pulse length is too long"
    );
    assert_eq!(NscopeError::Disconnected.message(), "Device is disconnected");
}
