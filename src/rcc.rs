//! Clock tree: which oscillator drives the system clock, the bus prescalers,
//! and the frequencies that follow from them.
use vstd::prelude::*;
use crate::time::Hertz;

verus! {

/// Frequency of the internal high-speed oscillator.
pub const HSI_FREQ: u32 = 16_000_000;

/// Frequency that the phase-locked loop takes from the internal oscillator.
pub const PLL_HSI_INPUT_HZ: u32 = 15_998_976;

/// Highest external frequency the phase-locked loop accepts.
pub const PLL_MAX_INPUT_HZ: u32 = 24_000_000;

/// Highest frequency the phase-locked loop may put out.
pub const PLL_MAX_OUTPUT_HZ: u32 = 32_000_000;

/// System clock source.
#[derive(Clone, Copy, Debug, PartialEq, Eq, Structural)]
pub enum ClockSrc {
    MSI(MSIRange),
    PLL(PLLSource, PLLMul, PLLDiv),
    HSE(Hertz),
    HSI,
}

/// Range of the multi-speed internal oscillator.
#[derive(Clone, Copy, Debug, PartialEq, Eq, Structural)]
pub enum MSIRange {
    Range0,
    Range1,
    Range2,
    Range3,
    Range4,
    Range5,
    Range6,
}

impl Default for MSIRange {
    fn default() -> (r: MSIRange)
        ensures
            r == MSIRange::Range5,
    {
        MSIRange::Range5
    }
}

/// Divider after the phase-locked loop.
#[derive(Clone, Copy, Debug, PartialEq, Eq, Structural)]
pub enum PLLDiv {
    Div2,
    Div3,
    Div4,
}

/// Multiplier of the phase-locked loop.
#[derive(Clone, Copy, Debug, PartialEq, Eq, Structural)]
pub enum PLLMul {
    Mul3,
    Mul4,
    Mul6,
    Mul8,
    Mul12,
    Mul16,
    Mul24,
    Mul32,
    Mul48,
}

/// Prescaler from the system clock to the AHB bus.
#[derive(Clone, Copy, Debug, PartialEq, Eq, Structural)]
pub enum AHBPrescaler {
    NotDivided,
    Div2,
    Div4,
    Div8,
    Div16,
    Div64,
    Div128,
    Div256,
    Div512,
}

/// Prescaler from the AHB bus to an APB bus.
#[derive(Clone, Copy, Debug, PartialEq, Eq, Structural)]
pub enum APBPrescaler {
    NotDivided,
    Div2,
    Div4,
    Div8,
    Div16,
}

/// Input of the phase-locked loop.
#[derive(Clone, Copy, Debug, PartialEq, Eq, Structural)]
pub enum PLLSource {
    HSI,
    HSE(Hertz),
}

pub open spec fn msi_hz(r: MSIRange) -> int {
    match r {
        MSIRange::Range0 => 65_536,
        MSIRange::Range1 => 131_072,
        MSIRange::Range2 => 262_144,
        MSIRange::Range3 => 524_288,
        MSIRange::Range4 => 1_048_576,
        MSIRange::Range5 => 2_097_152,
        MSIRange::Range6 => 4_194_304,
    }
}

pub open spec fn pll_mul_factor(m: PLLMul) -> int {
    match m {
        PLLMul::Mul3 => 3,
        PLLMul::Mul4 => 4,
        PLLMul::Mul6 => 6,
        PLLMul::Mul8 => 8,
        PLLMul::Mul12 => 12,
        PLLMul::Mul16 => 16,
        PLLMul::Mul24 => 24,
        PLLMul::Mul32 => 32,
        PLLMul::Mul48 => 48,
    }
}

pub open spec fn pll_div_factor(d: PLLDiv) -> int {
    match d {
        PLLDiv::Div2 => 2,
        PLLDiv::Div3 => 3,
        PLLDiv::Div4 => 4,
    }
}

pub open spec fn ahb_div_factor(p: AHBPrescaler) -> int {
    match p {
        AHBPrescaler::NotDivided => 1,
        AHBPrescaler::Div2 => 2,
        AHBPrescaler::Div4 => 4,
        AHBPrescaler::Div8 => 8,
        AHBPrescaler::Div16 => 16,
        AHBPrescaler::Div64 => 64,
        AHBPrescaler::Div128 => 128,
        AHBPrescaler::Div256 => 256,
        AHBPrescaler::Div512 => 512,
    }
}

pub open spec fn apb_div_factor(p: APBPrescaler) -> int {
    match p {
        APBPrescaler::NotDivided => 1,
        APBPrescaler::Div2 => 2,
        APBPrescaler::Div4 => 4,
        APBPrescaler::Div8 => 8,
        APBPrescaler::Div16 => 16,
    }
}

impl MSIRange {
    /// Frequency of the oscillator in this range: 32 768 Hz times 2 to the
    /// power of the range number plus one.
    pub fn freq(self) -> (r: u32)
        ensures
            r == msi_hz(self),
    {
        match self {
            MSIRange::Range0 => 65_536,
            MSIRange::Range1 => 131_072,
            MSIRange::Range2 => 262_144,
            MSIRange::Range3 => 524_288,
            MSIRange::Range4 => 1_048_576,
            MSIRange::Range5 => 2_097_152,
            MSIRange::Range6 => 4_194_304,
        }
    }
}

impl PLLMul {
    pub fn factor(self) -> (r: u32)
        ensures
            r == pll_mul_factor(self),
    {
        match self {
            PLLMul::Mul3 => 3,
            PLLMul::Mul4 => 4,
            PLLMul::Mul6 => 6,
            PLLMul::Mul8 => 8,
            PLLMul::Mul12 => 12,
            PLLMul::Mul16 => 16,
            PLLMul::Mul24 => 24,
            PLLMul::Mul32 => 32,
            PLLMul::Mul48 => 48,
        }
    }
}

impl PLLDiv {
    pub fn factor(self) -> (r: u32)
        ensures
            r == pll_div_factor(self),
    {
        match self {
            PLLDiv::Div2 => 2,
            PLLDiv::Div3 => 3,
            PLLDiv::Div4 => 4,
        }
    }
}

impl AHBPrescaler {
    pub fn factor(self) -> (r: u32)
        ensures
            r == ahb_div_factor(self),
    {
        match self {
            AHBPrescaler::NotDivided => 1,
            AHBPrescaler::Div2 => 2,
            AHBPrescaler::Div4 => 4,
            AHBPrescaler::Div8 => 8,
            AHBPrescaler::Div16 => 16,
            AHBPrescaler::Div64 => 64,
            AHBPrescaler::Div128 => 128,
            AHBPrescaler::Div256 => 256,
            AHBPrescaler::Div512 => 512,
        }
    }
}

impl APBPrescaler {
    pub fn factor(self) -> (r: u32)
        ensures
            r == apb_div_factor(self),
    {
        match self {
            APBPrescaler::NotDivided => 1,
            APBPrescaler::Div2 => 2,
            APBPrescaler::Div4 => 4,
            APBPrescaler::Div8 => 8,
            APBPrescaler::Div16 => 16,
        }
    }
}

/// Clock configuration.
pub struct Config {
    mux: ClockSrc,
    ahb_pre: AHBPrescaler,
    apb1_pre: APBPrescaler,
    apb2_pre: APBPrescaler,
}

/// A clock configuration, as a value.
pub struct ConfigView {
    pub mux: ClockSrc,
    pub ahb_pre: AHBPrescaler,
    pub apb1_pre: APBPrescaler,
    pub apb2_pre: APBPrescaler,
}

impl View for Config {
    type V = ConfigView;

    closed spec fn view(&self) -> ConfigView {
        ConfigView { mux: self.mux, ahb_pre: self.ahb_pre, apb1_pre: self.apb1_pre, apb2_pre: self.apb2_pre }
    }
}

/// The default: the multi-speed oscillator in its default range, no bus
/// divided.
pub open spec fn default_config() -> ConfigView {
    ConfigView {
        mux: ClockSrc::MSI(MSIRange::Range5),
        ahb_pre: AHBPrescaler::NotDivided,
        apb1_pre: APBPrescaler::NotDivided,
        apb2_pre: APBPrescaler::NotDivided,
    }
}

impl Default for Config {
    fn default() -> (r: Config)
        ensures
            r@ == default_config(),
    {
        Config {
            mux: ClockSrc::MSI(MSIRange::Range5),
            ahb_pre: AHBPrescaler::NotDivided,
            apb1_pre: APBPrescaler::NotDivided,
            apb2_pre: APBPrescaler::NotDivided,
        }
    }
}

impl Config {
    pub fn clock_src(self, mux: ClockSrc) -> (r: Self)
        ensures
            r@ == (ConfigView { mux, ..self@ }),
    {
        Config { mux, ..self }
    }

    pub fn ahb_pre(self, pre: AHBPrescaler) -> (r: Self)
        ensures
            r@ == (ConfigView { ahb_pre: pre, ..self@ }),
    {
        Config { ahb_pre: pre, ..self }
    }

    pub fn apb1_pre(self, pre: APBPrescaler) -> (r: Self)
        ensures
            r@ == (ConfigView { apb1_pre: pre, ..self@ }),
    {
        Config { apb1_pre: pre, ..self }
    }

    pub fn apb2_pre(self, pre: APBPrescaler) -> (r: Self)
        ensures
            r@ == (ConfigView { apb2_pre: pre, ..self@ }),
    {
        Config { apb2_pre: pre, ..self }
    }

    fn with_source(mux: ClockSrc) -> (r: Config)
        ensures
            r@ == (ConfigView { mux, ..default_config() }),
    {
        Config {
            mux,
            ahb_pre: AHBPrescaler::NotDivided,
            apb1_pre: APBPrescaler::NotDivided,
            apb2_pre: APBPrescaler::NotDivided,
        }
    }

    /// The internal high-speed oscillator, no bus divided.
    pub fn hsi() -> (r: Config)
        ensures
            r@ == (ConfigView { mux: ClockSrc::HSI, ..default_config() }),
    {
        Self::with_source(ClockSrc::HSI)
    }

    /// The multi-speed oscillator in `range`, no bus divided.
    pub fn msi(range: MSIRange) -> (r: Config)
        ensures
            r@ == (ConfigView { mux: ClockSrc::MSI(range), ..default_config() }),
    {
        Self::with_source(ClockSrc::MSI(range))
    }

    /// The phase-locked loop, no bus divided.
    pub fn pll(pll_src: PLLSource, pll_mul: PLLMul, pll_div: PLLDiv) -> (r: Config)
        ensures
            r@ == (ConfigView { mux: ClockSrc::PLL(pll_src, pll_mul, pll_div), ..default_config() }),
    {
        Self::with_source(ClockSrc::PLL(pll_src, pll_mul, pll_div))
    }

    /// An external oscillator of frequency `freq`, no bus divided.
    pub fn hse(freq: Hertz) -> (r: Config)
        ensures
            r@ == (ConfigView { mux: ClockSrc::HSE(freq), ..default_config() }),
    {
        Self::with_source(ClockSrc::HSE(freq))
    }
}

/// A configuration that the hardware cannot run.
#[derive(Clone, Copy, Debug, PartialEq, Eq, Structural)]
pub enum ClockError {
    /// The external input of the phase-locked loop is above 24 MHz.
    PllInputTooFast,
    /// The phase-locked loop would run above 32 MHz.
    PllOutputTooFast,
}

/// The system clock frequency that `mux` gives.
pub open spec fn spec_sys_clk(mux: ClockSrc) -> Result<int, ClockError> {
    match mux {
        ClockSrc::MSI(range) => Ok(msi_hz(range)),
        ClockSrc::HSI => Ok(HSI_FREQ as int),
        ClockSrc::HSE(freq) => Ok(freq.0 as int),
        ClockSrc::PLL(src, mul, div) => {
            let input: int = match src {
                PLLSource::HSI => PLL_HSI_INPUT_HZ as int,
                PLLSource::HSE(freq) => freq.0 as int,
            };
            if input > PLL_MAX_INPUT_HZ {
                Err(ClockError::PllInputTooFast)
            } else if input * pll_mul_factor(mul) / pll_div_factor(div) > PLL_MAX_OUTPUT_HZ {
                Err(ClockError::PllOutputTooFast)
            } else {
                Ok(input * pll_mul_factor(mul) / pll_div_factor(div))
            }
        },
    }
}

/// An APB bus frequency and its timers' frequency, which is twice the bus
/// frequency when the bus is divided.
pub open spec fn spec_apb(ahb: int, pre: APBPrescaler) -> (int, int) {
    let f = ahb / apb_div_factor(pre);
    if pre == APBPrescaler::NotDivided { (f, f) } else { (f, 2 * f) }
}

/// Frozen clock frequencies.
#[derive(Clone, Copy, Debug, PartialEq, Eq, Structural)]
pub struct Clocks {
    sys_clk: Hertz,
    ahb_clk: Hertz,
    apb1_clk: Hertz,
    apb1_tim_clk: Hertz,
    apb2_clk: Hertz,
    apb2_tim_clk: Hertz,
}

/// The frequencies, in hertz, as values.
pub struct ClocksView {
    pub sys: int,
    pub ahb: int,
    pub apb1: int,
    pub apb1_tim: int,
    pub apb2: int,
    pub apb2_tim: int,
}

impl View for Clocks {
    type V = ClocksView;

    closed spec fn view(&self) -> ClocksView {
        ClocksView {
            sys: self.sys_clk.0 as int,
            ahb: self.ahb_clk.0 as int,
            apb1: self.apb1_clk.0 as int,
            apb1_tim: self.apb1_tim_clk.0 as int,
            apb2: self.apb2_clk.0 as int,
            apb2_tim: self.apb2_tim_clk.0 as int,
        }
    }
}

/// The frequencies that a configuration gives.
pub open spec fn spec_clocks(cfg: ConfigView) -> Result<ClocksView, ClockError> {
    match spec_sys_clk(cfg.mux) {
        Err(e) => Err(e),
        Ok(sys) => {
            let ahb = sys / ahb_div_factor(cfg.ahb_pre);
            Ok(
                ClocksView {
                    sys,
                    ahb,
                    apb1: spec_apb(ahb, cfg.apb1_pre).0,
                    apb1_tim: spec_apb(ahb, cfg.apb1_pre).1,
                    apb2: spec_apb(ahb, cfg.apb2_pre).0,
                    apb2_tim: spec_apb(ahb, cfg.apb2_pre).1,
                },
            )
        },
    }
}

/// The system clock frequency that `mux` gives.
pub fn sys_clk_hz(mux: ClockSrc) -> (r: Result<u32, ClockError>)
    ensures
        match spec_sys_clk(mux) {
            Ok(f) => r == Ok::<u32, ClockError>(f as u32),
            Err(e) => r == Err::<u32, ClockError>(e),
        },
{
    match mux {
        ClockSrc::MSI(range) => Ok(range.freq()),
        ClockSrc::HSI => Ok(HSI_FREQ),
        ClockSrc::HSE(freq) => Ok(freq.0),
        ClockSrc::PLL(src, mul, div) => {
            let input: u32 = match src {
                PLLSource::HSI => PLL_HSI_INPUT_HZ,
                PLLSource::HSE(freq) => freq.0,
            };
            if input > PLL_MAX_INPUT_HZ {
                return Err(ClockError::PllInputTooFast);
            }
            let freq = input * mul.factor() / div.factor();
            if freq > PLL_MAX_OUTPUT_HZ {
                Err(ClockError::PllOutputTooFast)
            } else {
                Ok(freq)
            }
        },
    }
}

fn apb_freqs(ahb: u32, pre: APBPrescaler) -> (r: (u32, u32))
    ensures
        r.0 as int == spec_apb(ahb as int, pre).0,
        r.1 as int == spec_apb(ahb as int, pre).1,
{
    let f = ahb / pre.factor();
    match pre {
        APBPrescaler::NotDivided => (f, f),
        _ => (f, f * 2),
    }
}

impl Config {
    /// The frequencies that this configuration gives, or why the hardware
    /// cannot run it.
    pub fn clocks(&self) -> (r: Result<Clocks, ClockError>)
        ensures
            match spec_clocks(self@) {
                Ok(c) => r matches Ok(got) && got@ == c,
                Err(e) => r == Err::<Clocks, ClockError>(e),
            },
    {
        let sys = match sys_clk_hz(self.mux) {
            Ok(f) => f,
            Err(e) => {
                return Err(e);
            },
        };
        let ahb = sys / self.ahb_pre.factor();
        let (apb1, apb1_tim) = apb_freqs(ahb, self.apb1_pre);
        let (apb2, apb2_tim) = apb_freqs(ahb, self.apb2_pre);
        Ok(
            Clocks {
                sys_clk: Hertz(sys),
                ahb_clk: Hertz(ahb),
                apb1_clk: Hertz(apb1),
                apb1_tim_clk: Hertz(apb1_tim),
                apb2_clk: Hertz(apb2),
                apb2_tim_clk: Hertz(apb2_tim),
            },
        )
    }
}

impl Clocks {
    /// The system (core) frequency.
    pub fn sys_clk(&self) -> (r: Hertz)
        ensures
            r.0 == self@.sys,
    {
        self.sys_clk
    }

    /// The frequency of the AHB bus.
    pub fn ahb_clk(&self) -> (r: Hertz)
        ensures
            r.0 == self@.ahb,
    {
        self.ahb_clk
    }

    /// The frequency of the APB1 bus.
    pub fn apb1_clk(&self) -> (r: Hertz)
        ensures
            r.0 == self@.apb1,
    {
        self.apb1_clk
    }

    /// The frequency of the APB1 timers.
    pub fn apb1_tim_clk(&self) -> (r: Hertz)
        ensures
            r.0 == self@.apb1_tim,
    {
        self.apb1_tim_clk
    }

    /// The frequency of the APB2 bus.
    pub fn apb2_clk(&self) -> (r: Hertz)
        ensures
            r.0 == self@.apb2,
    {
        self.apb2_clk
    }

    /// The frequency of the APB2 timers.
    pub fn apb2_tim_clk(&self) -> (r: Hertz)
        ensures
            r.0 == self@.apb2_tim,
    {
        self.apb2_tim_clk
    }
}

/// The clock controller once its configuration is frozen: the register
/// block `RB` and the frequencies it was set to.
pub struct Rcc<RB> {
    pub clocks: Clocks,
    pub rb: RB,
}

/// Freezes a clock controller with a configuration.
pub trait RccExt: Sized {
    fn freeze(self, config: Config) -> Result<Rcc<Self>, ClockError>;
}

/// Source of the clock output pin.
#[derive(Clone, Copy, Debug, PartialEq, Eq, Structural)]
pub enum MCOSource {
    Disabled,
    SYSCLK,
    HSI,
    MSI,
    HSE,
    PLL,
    LSI,
    LSE,
}

/// Divider of the clock output pin.
#[derive(Clone, Copy, Debug, PartialEq, Eq, Structural)]
pub enum MCOPrescaler {
    Div1,
    Div2,
    Div4,
    Div8,
    Div16,
}

/// Configuration of the clock output pin.
#[derive(Clone, Copy, Debug, PartialEq, Eq, Structural)]
pub struct MCOConfig {
    pub src: MCOSource,
    pub div: MCOPrescaler,
}

impl Default for MCOConfig {
    fn default() -> (r: Self)
        ensures
            r == (MCOConfig { src: MCOSource::Disabled, div: MCOPrescaler::Div1 }),
    {
        MCOConfig { src: MCOSource::Disabled, div: MCOPrescaler::Div1 }
    }
}

impl MCOConfig {
    pub fn new(src: MCOSource, div: MCOPrescaler) -> (r: Self)
        ensures
            r == (MCOConfig { src, div }),
    {
        MCOConfig { src, div }
    }

    pub fn prescaler(self, div: MCOPrescaler) -> (r: Self)
        ensures
            r == (MCOConfig { div, ..self }),
    {
        MCOConfig { div, ..self }
    }

    /// `src` undivided.
    fn undivided(src: MCOSource) -> (r: Self)
        ensures
            r == (MCOConfig { src, div: MCOPrescaler::Div1 }),
    {
        MCOConfig { src, div: MCOPrescaler::Div1 }
    }

    pub fn disabled() -> (r: Self)
        ensures
            r == (MCOConfig { src: MCOSource::Disabled, div: MCOPrescaler::Div1 }),
    {
        Self::undivided(MCOSource::Disabled)
    }

    pub fn sys_clk() -> (r: Self)
        ensures
            r == (MCOConfig { src: MCOSource::SYSCLK, div: MCOPrescaler::Div1 }),
    {
        Self::undivided(MCOSource::SYSCLK)
    }

    pub fn hsi() -> (r: Self)
        ensures
            r == (MCOConfig { src: MCOSource::HSI, div: MCOPrescaler::Div1 }),
    {
        Self::undivided(MCOSource::HSI)
    }

    pub fn msi() -> (r: Self)
        ensures
            r == (MCOConfig { src: MCOSource::MSI, div: MCOPrescaler::Div1 }),
    {
        Self::undivided(MCOSource::MSI)
    }

    pub fn hse() -> (r: Self)
        ensures
            r == (MCOConfig { src: MCOSource::HSE, div: MCOPrescaler::Div1 }),
    {
        Self::undivided(MCOSource::HSE)
    }

    pub fn pll() -> (r: Self)
        ensures
            r == (MCOConfig { src: MCOSource::PLL, div: MCOPrescaler::Div1 }),
    {
        Self::undivided(MCOSource::PLL)
    }

    pub fn lsi() -> (r: Self)
        ensures
            r == (MCOConfig { src: MCOSource::LSI, div: MCOPrescaler::Div1 }),
    {
        Self::undivided(MCOSource::LSI)
    }

    pub fn lse() -> (r: Self)
        ensures
            r == (MCOConfig { src: MCOSource::LSE, div: MCOPrescaler::Div1 }),
    {
        Self::undivided(MCOSource::LSE)
    }
}

/// The clock output, holding its pin `PIN`.
pub struct MCO<PIN> {
    pin: PIN,
}

impl<PIN> MCO<PIN> {
    /// Wraps a pin that is already set up as the clock output.
    pub fn new(pin: PIN) -> (r: Self)
        ensures
            r.pin() == pin,
    {
        MCO { pin }
    }

    pub closed spec fn pin(&self) -> PIN {
        self.pin
    }

    /// Hands the pin back.
    pub fn release(self) -> (r: PIN)
        ensures
            r == self.pin(),
    {
        self.pin
    }
}

} // verus!
