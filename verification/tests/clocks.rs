use f303_hal::clocks::AhbPeripherals;
use f303_hal::clocks::Apb1Peripherals;
use f303_hal::clocks::Apb2Peripherals;
use f303_hal::clocks::ClockConfiguration;
use f303_hal::clocks::ClockController;
use f303_hal::clocks::RccRegisters;
use f303_hal::clocks::CR_HSEON;
use f303_hal::clocks::CR_HSION;

fn zero_rcc() -> RccRegisters {
    RccRegisters { cr: 0, cfgr: 0, bdcr: 0, ahbenr: 0, apb1enr: 0, apb2enr: 0 }
}

fn external_8mhz() -> ClockConfiguration {
    ClockConfiguration {
        external_high_speed: true,
        external_low_speed: true,
        high_speed_clock_hz: 8_000_000,
        low_speed_clock_hz: 32_768,
    }
}

fn internal_8mhz() -> ClockConfiguration {
    ClockConfiguration {
        external_high_speed: false,
        external_low_speed: false,
        high_speed_clock_hz: 8_000_000,
        low_speed_clock_hz: 40_000,
    }
}

#[test]
fn snapshot_external_8mhz() {
    let mut c = ClockController::new();
    c.init(zero_rcc(), external_8mhz());
    let k = c.get_clocks();
    assert_eq!(k.sysclk, 8_000_000);
    assert_eq!(k.hclk, 2_000_000);
    assert_eq!(k.lclk, 32_768);
    assert_eq!(k.pclk1, 1_000_000);
    assert_eq!(k.pclk2, 1_000_000);
}

#[test]
fn snapshot_internal_source() {
    let mut c = ClockController::new();
    c.init(zero_rcc(), internal_8mhz());
    let k = c.get_clocks();
    assert_eq!(k.sysclk, 8_000_000);
    assert_eq!(k.hclk, 2_000_000);
    assert_eq!(k.lclk, 40_000);
    assert_eq!(k.pclk1, 1_000_000);
    assert_eq!(k.pclk2, 1_000_000);
}

#[test]
fn snapshot_rounds_down() {
    let mut c = ClockController::new();
    let cfg = ClockConfiguration {
        external_high_speed: true,
        external_low_speed: false,
        high_speed_clock_hz: 10,
        low_speed_clock_hz: 7,
    };
    c.init(zero_rcc(), cfg);
    let k = c.get_clocks();
    assert_eq!(k.hclk, 2);
    assert_eq!(k.pclk1, 1);
    assert_eq!(k.pclk2, 1);
    assert_eq!(k.lclk, 7);
}

#[test]
fn zero_snapshot_before_init() {
    let c = ClockController::new();
    let k = c.get_clocks();
    assert_eq!(k.sysclk, 0);
    assert_eq!(k.hclk, 0);
    assert_eq!(k.lclk, 0);
    assert_eq!(k.pclk1, 0);
    assert_eq!(k.pclk2, 0);
}

#[test]
fn init_programs_external_source() {
    let mut c = ClockController::new();
    c.init(zero_rcc(), external_8mhz());
    let regs = c.register_state().unwrap();
    // HSE on, HSI and PLL off.
    assert_eq!(regs.cr, CR_HSEON);
    // Mux on HSE, AHB divided by 4, both APB buses by 2.
    assert_eq!(regs.cfgr, 0x0000_2491);
    // RTC enabled on LSE, LSE turned on.
    assert_eq!(regs.bdcr, 0x0000_8101);
}

#[test]
fn init_programs_internal_source() {
    let mut c = ClockController::new();
    c.init(zero_rcc(), internal_8mhz());
    let regs = c.register_state().unwrap();
    // HSI on, HSE and PLL off.
    assert_eq!(regs.cr, CR_HSION);
    // Mux on HSI, AHB divided by 4, both APB buses by 2.
    assert_eq!(regs.cfgr, 0x0000_2490);
    // RTC enabled on LSI, LSE left off.
    assert_eq!(regs.bdcr, 0x0000_8200);
}

#[test]
fn init_keeps_enable_registers() {
    let mut c = ClockController::new();
    let rcc = RccRegisters {
        cr: 0x83,
        cfgr: 0,
        bdcr: 0,
        ahbenr: 0x0002_0011,
        apb1enr: 0x1000_0000,
        apb2enr: 0x0000_4000,
    };
    c.init(rcc, external_8mhz());
    let regs = c.register_state().unwrap();
    assert_eq!(regs.ahbenr, 0x0002_0011);
    assert_eq!(regs.apb1enr, 0x1000_0000);
    assert_eq!(regs.apb2enr, 0x0000_4000);
}

#[test]
fn gating_before_init_is_noop() {
    let mut c = ClockController::new();
    c.set_ahb_peripheral_clock_enable(AhbPeripherals::DMA1, true);
    c.set_apb1_peripheral_clock_enable(Apb1Peripherals::PWR, true);
    c.set_apb2_peripheral_clock_enable(Apb2Peripherals::USART1, true);
    assert!(c.register_state().is_none());
    let k = c.get_clocks();
    assert_eq!(k.sysclk, 0);
}

#[test]
fn ahb_enable_sets_only_its_bit() {
    let mut c = ClockController::new();
    c.init(zero_rcc(), external_8mhz());
    c.set_ahb_peripheral_clock_enable(AhbPeripherals::DMA1, true);
    assert_eq!(c.register_state().unwrap().ahbenr, 0x0000_0001);
    c.set_ahb_peripheral_clock_enable(AhbPeripherals::IOPA, true);
    assert_eq!(c.register_state().unwrap().ahbenr, 0x0002_0001);
    // The other buses are untouched.
    assert_eq!(c.register_state().unwrap().apb1enr, 0);
    assert_eq!(c.register_state().unwrap().apb2enr, 0);
}

#[test]
fn apb1_enable_touches_its_own_register() {
    let mut c = ClockController::new();
    c.init(zero_rcc(), external_8mhz());
    c.set_apb1_peripheral_clock_enable(Apb1Peripherals::USART2, true);
    let regs = c.register_state().unwrap();
    assert_eq!(regs.apb1enr, 0x0002_0000);
    assert_eq!(regs.ahbenr, 0);
    assert_eq!(regs.apb2enr, 0);
}

#[test]
fn apb2_enable_touches_its_own_register() {
    let mut c = ClockController::new();
    c.init(zero_rcc(), external_8mhz());
    c.set_apb2_peripheral_clock_enable(Apb2Peripherals::SPI1, true);
    let regs = c.register_state().unwrap();
    assert_eq!(regs.apb2enr, 0x0000_1000);
    assert_eq!(regs.ahbenr, 0);
    assert_eq!(regs.apb1enr, 0);
}

#[test]
fn gating_round_trip_restores_other_bits() {
    let mut c = ClockController::new();
    let rcc = RccRegisters {
        cr: 0,
        cfgr: 0,
        bdcr: 0,
        ahbenr: 0x1004_0041,
        apb1enr: 0,
        apb2enr: 0,
    };
    c.init(rcc, external_8mhz());
    c.set_ahb_peripheral_clock_enable(AhbPeripherals::DMA2, true);
    assert_eq!(c.register_state().unwrap().ahbenr, 0x1004_0043);
    c.set_ahb_peripheral_clock_enable(AhbPeripherals::DMA2, false);
    assert_eq!(c.register_state().unwrap().ahbenr, 0x1004_0041);
}

#[test]
fn enable_is_idempotent() {
    let mut c = ClockController::new();
    c.init(zero_rcc(), external_8mhz());
    c.set_ahb_peripheral_clock_enable(AhbPeripherals::ADC12, true);
    let first: u32 = c.register_state().unwrap().ahbenr;
    c.set_ahb_peripheral_clock_enable(AhbPeripherals::ADC12, true);
    let second: u32 = c.register_state().unwrap().ahbenr;
    assert_eq!(first, 0x1000_0000);
    assert_eq!(second, first);
}

#[test]
fn disable_clears_only_its_bit() {
    let mut c = ClockController::new();
    let rcc = RccRegisters {
        cr: 0,
        cfgr: 0,
        bdcr: 0,
        ahbenr: 0xFFFF_FFFF,
        apb1enr: 0,
        apb2enr: 0,
    };
    c.init(rcc, internal_8mhz());
    c.set_ahb_peripheral_clock_enable(AhbPeripherals::TSC, false);
    assert_eq!(c.register_state().unwrap().ahbenr, 0xFEFF_FFFF);
}

#[test]
fn peripheral_masks_match_hardware_layout() {
    assert_eq!(AhbPeripherals::DMA1.mask(), 0x0000_0001);
    assert_eq!(AhbPeripherals::IOPA.mask(), 0x0002_0000);
    assert_eq!(AhbPeripherals::ADC34.mask(), 0x2000_0000);
    assert_eq!(Apb1Peripherals::TIM2.mask(), 0x0000_0001);
    assert_eq!(Apb1Peripherals::I2C3.mask(), 0x4000_0000);
    assert_eq!(Apb2Peripherals::SYSCFG.mask(), 0x0000_0001);
    assert_eq!(Apb2Peripherals::TIM20.mask(), 0x0010_0000);
}
