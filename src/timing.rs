//! Bus timing: from the peripheral's input clock and the wanted bus speed to
//! the values of the prescale, rise-time and clock-control registers.
use vstd::prelude::*;

verus! {

/// Highest bus speed, in hertz, that is run in standard mode.
pub const STANDARD_MODE_MAX_HZ: u32 = 100_000;

/// Which low-to-high ratio of the clock line fast mode uses.
#[derive(Clone, Copy, Debug, PartialEq, Eq, Structural)]
pub enum FastDuty {
    /// Clock low for two periods, high for one.
    Ratio2to1,
    /// Clock low for sixteen periods, high for nine.
    Ratio16to9,
}

/// The clock mode written to the clock-control register.
#[derive(Clone, Copy, Debug, PartialEq, Eq, Structural)]
pub enum DutyMode {
    Standard,
    Fast2to1,
    Fast16to9,
}

/// Register values that set the bus speed.
#[derive(Clone, Copy, Debug, PartialEq, Eq, Structural)]
pub struct TimingConfig {
    /// Input clock in whole megahertz, in [2, 50].
    pub prescale: u8,
    /// Maximum rise time, in input clock periods, plus one.
    pub rise_time: u8,
    /// Clock-control divisor.
    pub divisor: u32,
    pub duty: DutyMode,
}

/// The input clock cannot drive the bus.
#[derive(Clone, Copy, Debug, PartialEq, Eq, Structural)]
pub enum ConfigError {
    /// The input clock, in whole megahertz, is outside [2, 50].
    InputClockOutOfRange,
}

/// The input clock in whole megahertz.
pub open spec fn prescale_of(input_clock_hz: u32) -> int {
    input_clock_hz as int / 1_000_000
}

/// Whether the input clock can drive the bus at all.
pub open spec fn clock_in_range(input_clock_hz: u32) -> bool {
    2 <= prescale_of(input_clock_hz) <= 50
}

pub open spec fn is_standard_speed(speed_hz: u32) -> bool {
    speed_hz <= STANDARD_MODE_MAX_HZ
}

pub open spec fn max_int(a: int, b: int) -> int {
    if a >= b { a } else { b }
}

/// The smallest divisor the protocol allows in a mode.
pub open spec fn min_divisor(duty: DutyMode) -> int {
    match duty {
        DutyMode::Standard => 4,
        _ => 1,
    }
}

pub open spec fn spec_rise_time(input_clock_hz: u32, speed_hz: u32) -> int {
    if is_standard_speed(speed_hz) {
        prescale_of(input_clock_hz) + 1
    } else {
        prescale_of(input_clock_hz) * 300 / 1000 + 1
    }
}

pub open spec fn spec_duty(speed_hz: u32, fast: FastDuty) -> DutyMode {
    if is_standard_speed(speed_hz) {
        DutyMode::Standard
    } else {
        match fast {
            FastDuty::Ratio2to1 => DutyMode::Fast2to1,
            FastDuty::Ratio16to9 => DutyMode::Fast16to9,
        }
    }
}

/// Input clock periods per bus clock period, divided by the mode's factor:
/// 2 in standard mode, 3 for a 2:1 duty cycle and 25 for 16:9.
pub open spec fn spec_divisor(input_clock_hz: u32, speed_hz: u32, fast: FastDuty) -> int
    recommends
        speed_hz > 0,
{
    let duty = spec_duty(speed_hz, fast);
    let factor: int = match duty {
        DutyMode::Standard => 2,
        DutyMode::Fast2to1 => 3,
        DutyMode::Fast16to9 => 25,
    };
    max_int(min_divisor(duty), input_clock_hz as int / (factor * speed_hz as int))
}

/// The timing for a valid input clock and a nonzero speed.
pub open spec fn spec_timing(input_clock_hz: u32, speed_hz: u32, fast: FastDuty) -> TimingConfig {
    TimingConfig {
        prescale: prescale_of(input_clock_hz) as u8,
        rise_time: spec_rise_time(input_clock_hz, speed_hz) as u8,
        divisor: spec_divisor(input_clock_hz, speed_hz, fast) as u32,
        duty: spec_duty(speed_hz, fast),
    }
}

impl TimingConfig {
    /// Computes the register values for `speed_hz` from an input clock of
    /// `input_clock_hz`, or fails when that clock is outside [2, 50] MHz.
    pub fn compute(input_clock_hz: u32, speed_hz: u32, fast: FastDuty) -> (r: Result<
        TimingConfig,
        ConfigError,
    >)
        requires
            speed_hz > 0,
        ensures
            clock_in_range(input_clock_hz) ==> r == Ok::<TimingConfig, ConfigError>(
                spec_timing(input_clock_hz, speed_hz, fast),
            ),
            !clock_in_range(input_clock_hz) ==> r == Err::<TimingConfig, ConfigError>(
                ConfigError::InputClockOutOfRange,
            ),
    {
        let freq: u32 = input_clock_hz / 1_000_000;
        if freq < 2 || freq > 50 {
            return Err(ConfigError::InputClockOutOfRange);
        }
        let standard = speed_hz <= STANDARD_MODE_MAX_HZ;
        let rise_time: u32 = if standard {
            freq + 1
        } else {
            freq * 300 / 1000 + 1
        };
        let (duty, factor, min): (DutyMode, u64, u64) = if standard {
            (DutyMode::Standard, 2, 4)
        } else {
            match fast {
                FastDuty::Ratio2to1 => (DutyMode::Fast2to1, 3, 1),
                FastDuty::Ratio16to9 => (DutyMode::Fast16to9, 25, 1),
            }
        };
        let ratio: u64 = input_clock_hz as u64 / (factor * speed_hz as u64);
        let divisor: u64 = if ratio < min {
            min
        } else {
            ratio
        };
        assert(ratio <= input_clock_hz) by (nonlinear_arith)
            requires
                ratio as int == input_clock_hz as int / (factor as int * speed_hz as int),
                factor as int * speed_hz as int >= 1,
        ;
        Ok(
            TimingConfig {
                prescale: freq as u8,
                rise_time: rise_time as u8,
                divisor: divisor as u32,
                duty,
            },
        )
    }
}

/// For every input clock in range and every nonzero speed, the divisor is at
/// least the protocol minimum of its mode (4 in standard mode, 1 in fast mode)
/// and the rise-time value is at least 1.
pub proof fn lemma_timing_bounds(input_clock_hz: u32, speed_hz: u32, fast: FastDuty)
    requires
        clock_in_range(input_clock_hz),
        speed_hz > 0,
    ensures
        spec_timing(input_clock_hz, speed_hz, fast).divisor >= min_divisor(
            spec_timing(input_clock_hz, speed_hz, fast).duty,
        ),
        spec_timing(input_clock_hz, speed_hz, fast).rise_time >= 1,
        spec_timing(input_clock_hz, speed_hz, fast).duty == DutyMode::Standard <==> is_standard_speed(speed_hz),
{
    let duty = spec_duty(speed_hz, fast);
    let factor: int = match duty {
        DutyMode::Standard => 2,
        DutyMode::Fast2to1 => 3,
        DutyMode::Fast16to9 => 25,
    };
    let q = input_clock_hz as int / (factor * speed_hz as int);
    assert(0 <= q <= input_clock_hz) by (nonlinear_arith)
        requires
            q == input_clock_hz as int / (factor * speed_hz as int),
            factor * speed_hz as int >= 1,
    ;
}

} // verus!
