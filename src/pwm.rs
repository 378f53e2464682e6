//! Pulse-width modulation on the general-purpose timers: channel markers,
//! pin sets, the controller that owns a timer, and the prescaler and
//! auto-reload values for a wanted frequency.
use core::marker::PhantomData;
use vstd::prelude::*;
use crate::rcc::Rcc;
use crate::time::Hertz;

verus! {

/// Channel 1 of a timer.
pub struct C1;

/// Channel 2 of a timer.
pub struct C2;

/// Channel 3 of a timer.
pub struct C3;

/// Channel 4 of a timer.
pub struct C4;

/// Pins that can carry the channels `CHS` of timer `TIM`.
pub trait Pins<TIM, CHS> {
    /// The channel handles these pins give.
    type Channels;

    /// The controller that owns the timer, the channels and these pins.
    type PwmController;

    /// Puts the pins in the timer's alternate function.
    fn setup(&self);

    /// Returns the pins to their default function.
    fn reset(&self);
}

/// A timer that can generate pulse-width modulation.
pub trait PwmExt: Sized {
    /// Starts the timer at `frequency` on `pins` and hands out the channels.
    fn pwm<PINS, CHS, RB>(self, pins: PINS, frequency: Hertz, rcc: &mut Rcc<RB>) -> PINS::Channels where
        PINS: Pins<Self, CHS>,
    ;

    /// Starts the timer at `freq` on `pins` and hands out a controller that
    /// owns it.
    fn pwm_controller<PINS, CHS, PWMS, RB>(self, pins: PINS, freq: Hertz, rcc: &mut Rcc<RB>) -> PINS::PwmController where
        PINS: Pins<Self, CHS, Channels = PWMS, PwmController = PwmController<Self, CHS, PWMS, PINS>>,
    ;

    /// Stops the timer, gates its clock and resets `pins`.
    fn pwm_reset<PINS, CHS, RB>(&mut self, pins: &mut PINS, rcc: &mut Rcc<RB>) where PINS: Pins<Self, CHS>;
}

/// One channel of timer `TIM`.
pub struct Pwm<TIM, CHANNEL> {
    _channel: PhantomData<CHANNEL>,
    _tim: PhantomData<TIM>,
}

impl<TIM, CHANNEL> Pwm<TIM, CHANNEL> {
    /// The handle of a channel whose timer has been started.
    pub fn new() -> (r: Self) {
        Pwm { _channel: PhantomData, _tim: PhantomData }
    }
}

/// Disables every channel of a set.
pub trait PwmChannelsReset<TIM, CHS, PINS> where PINS: Pins<TIM, CHS> {
    fn reset(&mut self);
}

/// Owns a timer, its channel handles `PWMS` and the pins `PINS`.
pub struct PwmController<TIM, CHS, PWMS, PINS> {
    tim: TIM,
    _chs: PhantomData<CHS>,
    pwm: PWMS,
    pin: PINS,
}

impl<TIM, CHS, PWMS, PINS> PwmController<TIM, CHS, PWMS, PINS> where
    TIM: PwmExt,
    PINS: Pins<TIM, CHS, Channels = PWMS>,
    PWMS: PwmChannelsReset<TIM, CHS, PINS>,
 {
    pub fn new(tim: TIM, pwm: PWMS, pin: PINS) -> (r: Self) {
        PwmController { tim, _chs: PhantomData, pwm, pin }
    }

    /// The channel handles.
    pub fn channels(&mut self) -> (r: &mut PWMS) {
        &mut self.pwm
    }

    /// Disables the channels, stops the timer and resets the pins, then
    /// hands back the timer and the pins.
    pub fn close<RB>(self, rcc: &mut Rcc<RB>) -> (r: (TIM, PINS)) {
        let mut this = self;
        this.pwm.reset();
        this.tim.pwm_reset(&mut this.pin, rcc);
        (this.tim, this.pin)
    }
}

/// Why a frequency cannot be set.
#[derive(Clone, Copy, Debug, PartialEq, Eq, Structural)]
pub enum TimerError {
    /// The frequency is above the timer's input clock.
    FrequencyTooHigh,
    /// The auto-reload value does not fit in 16 bits.
    ReloadOverflow,
}

/// Prescaler and auto-reload values of a timer.
#[derive(Clone, Copy, Debug, PartialEq, Eq, Structural)]
pub struct TimerTiming {
    pub prescaler: u16,
    pub reload: u16,
}

/// Input clock periods per output period.
pub open spec fn spec_ticks(clk: u32, freq: u32) -> int {
    clk as int / freq as int
}

/// The smallest prescaler that lets the 16-bit counter span the ticks.
pub open spec fn spec_prescaler(ticks: int) -> int {
    (ticks - 1) / 65_536
}

pub open spec fn spec_reload(ticks: int) -> int {
    ticks / (spec_prescaler(ticks) + 1)
}

pub open spec fn spec_timer_timing(clk: u32, freq: u32) -> Result<TimerTiming, TimerError> {
    let ticks = spec_ticks(clk, freq);
    if ticks == 0 {
        Err(TimerError::FrequencyTooHigh)
    } else if spec_reload(ticks) > u16::MAX {
        Err(TimerError::ReloadOverflow)
    } else {
        Ok(TimerTiming { prescaler: spec_prescaler(ticks) as u16, reload: spec_reload(ticks) as u16 })
    }
}

/// Relies on `cast::u16` from `u32`: the same value where it fits in 16 bits,
/// an overflow error otherwise (kept here as `None`).
#[verifier::external_body]
fn checked_u16(x: u32) -> (r: Option<u16>)
    ensures
        r == (if x <= u16::MAX { Some(x as u16) } else { None::<u16> }),
{
    cast::u16(x).ok()
}

/// The prescaler and auto-reload values that make a timer clocked at `clk`
/// overflow at `freq`.
pub fn timer_timing(clk: Hertz, freq: Hertz) -> (r: Result<TimerTiming, TimerError>)
    requires
        freq.0 > 0,
    ensures
        r == spec_timer_timing(clk.0, freq.0),
{
    let ticks: u32 = clk.0 / freq.0;
    if ticks == 0 {
        return Err(TimerError::FrequencyTooHigh);
    }
    assert((ticks - 1) / 65_536 <= 65_535) by (nonlinear_arith)
        requires
            ticks <= u32::MAX,
            ticks >= 1,
    ;
    let prescaler = match checked_u16((ticks - 1) / 65_536) {
        Some(p) => p,
        None => {
            return Err(TimerError::ReloadOverflow);
        },
    };
    let divisor: u32 = prescaler as u32 + 1;
    let reload = match checked_u16(ticks / divisor) {
        Some(a) => a,
        None => {
            return Err(TimerError::ReloadOverflow);
        },
    };
    Ok(TimerTiming { prescaler, reload })
}

} // verus!
