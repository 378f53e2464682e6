use stm32l1xx_hal::pwm::{timer_timing, TimerError, TimerTiming};
use stm32l1xx_hal::time::Hertz;

#[test]
fn timer_timing_without_prescaler() {
    assert_eq!(
        timer_timing(Hertz(16_000_000), Hertz(1_000)),
        Ok(TimerTiming { prescaler: 0, reload: 16_000 })
    );
}

#[test]
fn timer_timing_with_prescaler() {
    assert_eq!(
        timer_timing(Hertz(16_000_000), Hertz(10)),
        Ok(TimerTiming { prescaler: 24, reload: 64_000 })
    );
    assert_eq!(
        timer_timing(Hertz(u32::MAX), Hertz(1)),
        Ok(TimerTiming { prescaler: 65_535, reload: 65_535 })
    );
}

#[test]
fn timer_timing_errors() {
    assert_eq!(timer_timing(Hertz(1_000), Hertz(2_000)), Err(TimerError::FrequencyTooHigh));
    assert_eq!(timer_timing(Hertz(65_536), Hertz(1)), Err(TimerError::ReloadOverflow));
    assert_eq!(
        timer_timing(Hertz(65_535), Hertz(1)),
        Ok(TimerTiming { prescaler: 0, reload: 65_535 })
    );
}
