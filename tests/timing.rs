use stm32l1xx_hal::timing::{ConfigError, DutyMode, FastDuty, TimingConfig};

#[test]
fn standard_mode_at_8_mhz() {
    let t = TimingConfig::compute(8_000_000, 100_000, FastDuty::Ratio2to1).unwrap();
    assert_eq!(t.duty, DutyMode::Standard);
    assert_eq!(t.divisor, 40);
    assert_eq!(t.rise_time, 9);
    assert_eq!(t.prescale, 8);
}

#[test]
fn fast_mode_at_8_mhz() {
    let t = TimingConfig::compute(8_000_000, 400_000, FastDuty::Ratio2to1).unwrap();
    assert_eq!(t.duty, DutyMode::Fast2to1);
    assert_eq!(t.divisor, 6);
    assert_eq!(t.rise_time, 3);
    assert_eq!(t.prescale, 8);
}

#[test]
fn fast_mode_16_to_9() {
    let t = TimingConfig::compute(32_000_000, 400_000, FastDuty::Ratio16to9).unwrap();
    assert_eq!(t.duty, DutyMode::Fast16to9);
    assert_eq!(t.divisor, 3);
    assert_eq!(t.rise_time, 10);
}

#[test]
fn divisor_never_below_minimum() {
    let t = TimingConfig::compute(2_000_000, 100_000, FastDuty::Ratio2to1).unwrap();
    assert_eq!(t.divisor, 10);
    let t = TimingConfig::compute(2_000_000, 90_000, FastDuty::Ratio2to1).unwrap();
    assert_eq!(t.divisor, 11);
    let t = TimingConfig::compute(2_000_000, 1_000_000, FastDuty::Ratio2to1).unwrap();
    assert_eq!(t.divisor, 1);
    assert_eq!(t.rise_time, 1);
    let t = TimingConfig::compute(4_000_000, 100_000, FastDuty::Ratio2to1).unwrap();
    assert_eq!(t.divisor, 20);
    let t = TimingConfig::compute(2_500_000, 4_000_000, FastDuty::Ratio16to9).unwrap();
    assert_eq!(t.divisor, 1);
}

#[test]
fn input_clock_out_of_range() {
    assert_eq!(
        TimingConfig::compute(1_999_999, 100_000, FastDuty::Ratio2to1),
        Err(ConfigError::InputClockOutOfRange)
    );
    assert_eq!(
        TimingConfig::compute(51_000_000, 100_000, FastDuty::Ratio2to1),
        Err(ConfigError::InputClockOutOfRange)
    );
    assert_eq!(
        TimingConfig::compute(0, 400_000, FastDuty::Ratio16to9),
        Err(ConfigError::InputClockOutOfRange)
    );
    let t = TimingConfig::compute(50_999_999, 100_000, FastDuty::Ratio2to1).unwrap();
    assert_eq!(t.prescale, 50);
    assert_eq!(t.rise_time, 51);
    assert_eq!(t.divisor, 254);
}
