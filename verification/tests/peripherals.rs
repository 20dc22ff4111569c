use embedded_core::pwm::PwmChannel;
use embedded_core::sampler::Calibration;
use embedded_core::sampler::startup_delay_us;

#[test]
fn zero_reference_sample_is_rejected() {
    assert!(Calibration::from_reference_sample(0).is_none());
    assert!(Calibration::from_reference_sample(1).is_some());
}

#[test]
fn millivolt_conversion_matches_reference_values() {
    let cal = Calibration::from_reference_sample(1500).unwrap();
    assert_eq!(cal.reference_sample(), 1500);
    // A raw reading equal to the reference sample is the reference voltage.
    assert_eq!(cal.to_millivolts(1500), 1210);
    // Half the reference sample is half the reference voltage.
    assert_eq!(cal.to_millivolts(750), 605);
    assert_eq!(cal.to_millivolts(0), 0);
}

#[test]
fn millivolt_conversion_rounds_down() {
    let cal = Calibration::from_reference_sample(1000).unwrap();
    // 333 * 1210 / 1000 = 402.93 rounds down to 402.
    assert_eq!(cal.to_millivolts(333), 402);
}

#[test]
fn startup_delay_is_the_larger_latency() {
    assert_eq!(startup_delay_us(10, 12), 12);
    assert_eq!(startup_delay_us(15, 4), 15);
    assert_eq!(startup_delay_us(7, 7), 7);
}

#[test]
fn invalid_pwm_configuration_is_rejected() {
    assert!(PwmChannel::new(0, 1000).is_none());
    assert!(PwmChannel::new(100, 0).is_none());
    assert!(PwmChannel::new(100, 1000).is_some());
}

#[test]
fn percent_extremes_command_the_extremes() {
    let mut ch = PwmChannel::new(100, 1000).unwrap();
    ch.set_duty_percent(0);
    assert_eq!(ch.commanded_duty(), 0);
    ch.set_duty_percent(100);
    assert_eq!(ch.commanded_duty(), 1000);
    ch.set_duty_percent(50);
    assert_eq!(ch.commanded_duty(), 500);
    // Out-of-range percentages are clamped, not rejected.
    ch.set_duty_percent(250);
    assert_eq!(ch.commanded_duty(), 1000);
}

#[test]
fn fraction_duty_is_clamped_into_range() {
    let mut ch = PwmChannel::new(50, 1000).unwrap();
    ch.set_duty_fraction(1, 20);
    assert_eq!(ch.commanded_duty(), 50);
    ch.set_duty_fraction(1, 13);
    assert_eq!(ch.commanded_duty(), 76);
    // A fraction above one is clamped to the maximum duty.
    ch.set_duty_fraction(3, 2);
    assert_eq!(ch.commanded_duty(), 1000);
    ch.set_duty_fraction(0, 7);
    assert_eq!(ch.commanded_duty(), 0);
}

#[test]
fn fully_off_commands_zero_whatever_came_before() {
    let mut ch = PwmChannel::new(100, 1000).unwrap();
    ch.set_duty_percent(100);
    ch.advance_period();
    ch.set_fully_off();
    assert_eq!(ch.commanded_duty(), 0);
    ch.advance_period();
    assert_eq!(ch.current_duty(), 0);
}

#[test]
fn duty_changes_only_at_the_period_boundary() {
    let mut ch = PwmChannel::new(100, 1000).unwrap();
    ch.set_duty_percent(50);
    // The running period is untouched by the command.
    assert_eq!(ch.current_duty(), 0);
    ch.advance_period();
    assert_eq!(ch.current_duty(), 500);
    ch.set_duty_percent(100);
    assert_eq!(ch.current_duty(), 500);
    ch.advance_period();
    assert_eq!(ch.current_duty(), 1000);
}

#[test]
fn two_channels_keep_their_own_frequencies() {
    let mut motor = PwmChannel::new(100, 2000).unwrap();
    let servo = PwmChannel::new(50, 2000).unwrap();
    motor.set_duty_percent(50);
    assert_eq!(motor.frequency(), 100);
    assert_eq!(servo.frequency(), 50);
    assert_eq!(servo.commanded_duty(), 0);
}

#[test]
fn enable_and_disable_do_not_touch_the_duty() {
    let mut ch = PwmChannel::new(100, 1000).unwrap();
    ch.set_duty_percent(50);
    ch.advance_period();
    assert!(!ch.enabled());
    ch.enable();
    assert!(ch.enabled());
    assert_eq!(ch.current_duty(), 500);
    ch.disable();
    assert!(!ch.enabled());
    assert_eq!(ch.current_duty(), 500);
    assert_eq!(ch.max_duty_cycle(), 1000);
}
