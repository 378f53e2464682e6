use stm32l1xx_hal::rcc::{
    AHBPrescaler, APBPrescaler, ClockError, ClockSrc, Config, MCOConfig, MCOPrescaler, MCOSource, MSIRange,
    PLLDiv, PLLMul, PLLSource, HSI_FREQ,
};
use stm32l1xx_hal::time::Hertz;

#[test]
fn default_runs_on_msi_range5() {
    let c = Config::default().clocks().unwrap();
    assert_eq!(c.sys_clk(), Hertz(2_097_152));
    assert_eq!(c.ahb_clk(), Hertz(2_097_152));
    assert_eq!(c.apb1_clk(), Hertz(2_097_152));
    assert_eq!(c.apb1_tim_clk(), Hertz(2_097_152));
    assert_eq!(c.apb2_clk(), Hertz(2_097_152));
    assert_eq!(c.apb2_tim_clk(), Hertz(2_097_152));
}

#[test]
fn msi_ranges() {
    assert_eq!(Config::msi(MSIRange::Range0).clocks().unwrap().sys_clk(), Hertz(65_536));
    assert_eq!(Config::msi(MSIRange::Range6).clocks().unwrap().sys_clk(), Hertz(4_194_304));
}

#[test]
fn hsi_with_prescalers() {
    let c = Config::hsi()
        .ahb_pre(AHBPrescaler::Div2)
        .apb1_pre(APBPrescaler::Div4)
        .apb2_pre(APBPrescaler::NotDivided)
        .clocks()
        .unwrap();
    assert_eq!(c.sys_clk(), Hertz(HSI_FREQ));
    assert_eq!(c.ahb_clk(), Hertz(8_000_000));
    assert_eq!(c.apb1_clk(), Hertz(2_000_000));
    assert_eq!(c.apb1_tim_clk(), Hertz(4_000_000));
    assert_eq!(c.apb2_clk(), Hertz(8_000_000));
    assert_eq!(c.apb2_tim_clk(), Hertz(8_000_000));
}

#[test]
fn ahb_divide_by_64() {
    let c = Config::hsi().ahb_pre(AHBPrescaler::Div64).clocks().unwrap();
    assert_eq!(c.ahb_clk(), Hertz(250_000));
}

#[test]
fn hse_direct() {
    let c = Config::hse(Hertz(12_000_000)).apb2_pre(APBPrescaler::Div16).clocks().unwrap();
    assert_eq!(c.sys_clk(), Hertz(12_000_000));
    assert_eq!(c.apb2_clk(), Hertz(750_000));
    assert_eq!(c.apb2_tim_clk(), Hertz(1_500_000));
}

#[test]
fn pll_from_hsi() {
    let c = Config::pll(PLLSource::HSI, PLLMul::Mul4, PLLDiv::Div2).clocks().unwrap();
    assert_eq!(c.sys_clk(), Hertz(31_997_952));
    let c = Config::default()
        .clock_src(ClockSrc::PLL(PLLSource::HSE(Hertz(8_000_000)), PLLMul::Mul12, PLLDiv::Div3))
        .clocks()
        .unwrap();
    assert_eq!(c.sys_clk(), Hertz(32_000_000));
}

#[test]
fn pll_limits() {
    assert_eq!(
        Config::pll(PLLSource::HSE(Hertz(25_000_000)), PLLMul::Mul3, PLLDiv::Div4).clocks().err(),
        Some(ClockError::PllInputTooFast)
    );
    assert_eq!(
        Config::pll(PLLSource::HSI, PLLMul::Mul48, PLLDiv::Div2).clocks().err(),
        Some(ClockError::PllOutputTooFast)
    );
    assert_eq!(
        Config::pll(PLLSource::HSE(Hertz(24_000_000)), PLLMul::Mul4, PLLDiv::Div3).clocks().unwrap().sys_clk(),
        Hertz(32_000_000)
    );
}

#[test]
fn mco_configs() {
    assert_eq!(MCOConfig::default(), MCOConfig { src: MCOSource::Disabled, div: MCOPrescaler::Div1 });
    assert_eq!(MCOConfig::disabled().src, MCOSource::Disabled);
    assert_eq!(MCOConfig::sys_clk().src, MCOSource::SYSCLK);
    assert_eq!(MCOConfig::hsi().src, MCOSource::HSI);
    assert_eq!(MCOConfig::msi().src, MCOSource::MSI);
    assert_eq!(MCOConfig::hse().src, MCOSource::HSE);
    assert_eq!(MCOConfig::pll().src, MCOSource::PLL);
    assert_eq!(MCOConfig::lsi().src, MCOSource::LSI);
    let c = MCOConfig::lse().prescaler(MCOPrescaler::Div16);
    assert_eq!(c, MCOConfig::new(MCOSource::LSE, MCOPrescaler::Div16));
}
