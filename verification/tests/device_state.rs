use nscope::scope::NscopeState;
use nscope::scope::analog_input::AnalogInput;
use nscope::scope::matches_dfu_ids;
use nscope::scope::matches_scope_ids;
use nscope::scope::power::PowerState;
use nscope::scope::power::PowerStatus;
use nscope::scope::pulse_output::PulseOutput;

#[test]
fn analog_input_switches_on_and_off() {
    let mut ch = AnalogInput::default();
    assert!(ch.is_on());
    ch.turn_off();
    assert!(!ch.is_on());
    ch.turn_on();
    assert!(ch.is_on());
}

#[test]
fn fresh_state_has_default_channels() {
    let state = NscopeState::new();
    assert!(state.fw_version.is_none());
    assert_eq!(state.power_status, PowerStatus::default());
    assert_eq!(state.power_status.state, PowerState::Unknown);
    for c in 0..2 {
        assert_eq!(state.get_px(c), PulseOutput::default());
    }
}

#[test]
fn channel_accessors_are_one_based() {
    let state = NscopeState::new();
    assert!(state.channel(0).is_none());
    assert!(state.channel(1).is_some());
    assert!(state.channel(4).is_some());
    assert!(state.channel(5).is_none());
    assert!(state.analog_output(0).is_none());
    assert!(state.analog_output(1).is_some());
    assert!(state.analog_output(2).is_some());
    assert!(state.analog_output(3).is_none());
    assert!(state.pulse_output(0).is_none());
    assert!(state.pulse_output(1).is_some());
    assert!(state.pulse_output(2).is_some());
    assert!(state.pulse_output(3).is_none());
}

#[test]
fn device_id_matching() {
    assert!(matches_scope_ids(0x04D8, 0xF3F6));
    assert!(!matches_scope_ids(0x04D8, 0xF3F7));
    assert!(!matches_scope_ids(0x0483, 0xF3F6));
    assert!(matches_dfu_ids(0x0483, 0xA4AB));
    assert!(!matches_dfu_ids(0x04D8, 0xA4AB));
}

#[test]
fn power_state_decoding() {
    assert_eq!(PowerState::from_byte(0), PowerState::PoweredOff);
    assert_eq!(PowerState::from_byte(1), PowerState::PoweredOn);
    assert_eq!(PowerState::from_byte(2), PowerState::Unknown);
    assert_eq!(PowerState::from_byte(0xFF), PowerState::Unknown);
}
