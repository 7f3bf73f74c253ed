//! Clock configuration and peripheral clock gating, modelled over the RCC
//! register block of the STM32F303.
//!
//! The register block is held as plain data: every write the initialization
//! sequence performs, and every read-modify-write of the gating operations,
//! is carried out on a [`RccRegisters`] value and fully specified.  The
//! runtime layer mirrors the resulting register values onto the memory
//! mapped block and performs the real ready-flag polling.

use vstd::prelude::*;
use crate::bits::bit_set;

verus! {

// ---------------------------------------------------------------------------
// Register bit layout (clock control register, CR)
// ---------------------------------------------------------------------------

/// CR: internal high-speed oscillator enable.
pub const CR_HSION: u32 = 0x0000_0001;
/// CR: internal high-speed oscillator ready flag (set by hardware).
pub const CR_HSIRDY: u32 = 0x0000_0002;
/// CR: external high-speed oscillator enable.
pub const CR_HSEON: u32 = 0x0001_0000;
/// CR: external high-speed oscillator ready flag (set by hardware).
pub const CR_HSERDY: u32 = 0x0002_0000;
/// CR: phase-locked loop enable.
pub const CR_PLLON: u32 = 0x0100_0000;

// ---------------------------------------------------------------------------
// Register bit layout (clock configuration register, CFGR)
// ---------------------------------------------------------------------------

/// CFGR: system clock mux set to the internal oscillator.
pub const CFGR_SW_HSI: u32 = 0x0000_0000;
/// CFGR: system clock mux set to the external oscillator.
pub const CFGR_SW_HSE: u32 = 0x0000_0001;
/// CFGR: AHB prescaler dividing by 4 (0b1001 in bits 7:4).
pub const CFGR_HPRE_DIV4: u32 = 0x0000_0090;
/// CFGR: APB1 prescaler dividing by 2 (0b100 in bits 10:8).
pub const CFGR_PPRE1_DIV2: u32 = 0x0000_0400;
/// CFGR: APB2 prescaler dividing by 2 (0b100 in bits 13:11).
pub const CFGR_PPRE2_DIV2: u32 = 0x0000_2000;

// ---------------------------------------------------------------------------
// Register bit layout (backup domain control register, BDCR)
// ---------------------------------------------------------------------------

/// BDCR: external low-speed oscillator enable.
pub const BDCR_LSEON: u32 = 0x0000_0001;
/// BDCR: RTC clock source set to the external low-speed oscillator.
pub const BDCR_RTCSEL_LSE: u32 = 0x0000_0100;
/// BDCR: RTC clock source set to the internal low-speed oscillator.
pub const BDCR_RTCSEL_LSI: u32 = 0x0000_0200;
/// BDCR: RTC clock enable.
pub const BDCR_RTCEN: u32 = 0x0000_8000;

// ---------------------------------------------------------------------------
// Data model
// ---------------------------------------------------------------------------

/// Boot-time clock configuration: which oscillator drives each clock domain
/// and the nominal frequency of the selected sources.
#[derive(Clone, Copy, PartialEq, Eq, Structural, Debug)]
pub struct ClockConfiguration {
    /// Drive the system clock from the external crystal instead of the
    /// internal RC oscillator.
    pub external_high_speed: bool,
    /// Drive the RTC from the external crystal instead of the internal RC
    /// oscillator.
    pub external_low_speed: bool,
    /// Frequency of the selected high-speed source, in Hz.
    pub high_speed_clock_hz: u32,
    /// Frequency of the selected low-speed source, in Hz.
    pub low_speed_clock_hz: u32,
}

/// Derived snapshot of the clock tree, published once by initialization.
#[derive(Clone, Copy, PartialEq, Eq, Structural, Debug)]
pub struct Clocks {
    /// System clock frequency, in Hz.
    pub sysclk: u32,
    /// AHB bus frequency: the system clock divided by 4.
    pub hclk: u32,
    /// Low-speed (RTC) clock frequency, in Hz.
    pub lclk: u32,
    /// APB1 bus frequency: the system clock divided by 8.
    pub pclk1: u32,
    /// APB2 bus frequency: the system clock divided by 8.
    pub pclk2: u32,
}

/// The clock-control register block, as plain data.
#[derive(Clone, Copy, PartialEq, Eq, Structural, Debug)]
pub struct RccRegisters {
    /// Clock control register.
    pub cr: u32,
    /// Clock configuration register.
    pub cfgr: u32,
    /// Backup domain control register.
    pub bdcr: u32,
    /// AHB peripheral clock enable register.
    pub ahbenr: u32,
    /// APB1 peripheral clock enable register.
    pub apb1enr: u32,
    /// APB2 peripheral clock enable register.
    pub apb2enr: u32,
}

// ---------------------------------------------------------------------------
// Register views
// ---------------------------------------------------------------------------

/// The external high-speed oscillator is requested on.
pub open spec fn hse_on(cr: u32) -> bool {
    cr & CR_HSEON != 0
}

/// The internal high-speed oscillator is requested on.
pub open spec fn hsi_on(cr: u32) -> bool {
    cr & CR_HSION != 0
}

/// The phase-locked loop is requested on.
pub open spec fn pll_on(cr: u32) -> bool {
    cr & CR_PLLON != 0
}

/// Value written to CR by initialization: PLL off, and exactly the selected
/// oscillator on.
pub open spec fn spec_cr_init(external_high_speed: bool) -> u32 {
    if external_high_speed {
        CR_HSEON
    } else {
        CR_HSION
    }
}

/// Value written to CFGR by initialization: mux on the selected oscillator,
/// AHB divided by 4, both APB buses divided by 2.
pub open spec fn spec_cfgr_init(external_high_speed: bool) -> u32 {
    (if external_high_speed {
        CFGR_SW_HSE
    } else {
        CFGR_SW_HSI
    }) | CFGR_HPRE_DIV4 | CFGR_PPRE1_DIV2 | CFGR_PPRE2_DIV2
}

/// Value written to BDCR by initialization: RTC enabled and clocked from the
/// selected low-speed oscillator, which is turned on when external.
pub open spec fn spec_bdcr_init(external_low_speed: bool) -> u32 {
    if external_low_speed {
        BDCR_RTCEN | BDCR_RTCSEL_LSE | BDCR_LSEON
    } else {
        BDCR_RTCEN | BDCR_RTCSEL_LSI
    }
}

/// The clock snapshot that follows from a configuration under the fixed
/// prescaler choice: AHB at a quarter and both APB buses at an eighth of the
/// system clock (the APB dividers of 2 apply to the already-quartered AHB
/// clock).
pub open spec fn spec_derived_clocks(config: ClockConfiguration) -> Clocks {
    Clocks {
        sysclk: config.high_speed_clock_hz,
        hclk: config.high_speed_clock_hz / 4,
        lclk: config.low_speed_clock_hz,
        pclk1: config.high_speed_clock_hz / 8,
        pclk2: config.high_speed_clock_hz / 8,
    }
}

/// The snapshot a controller publishes before initialization.
pub open spec fn spec_zero_clocks() -> Clocks {
    Clocks { sysclk: 0, hclk: 0, lclk: 0, pclk1: 0, pclk2: 0 }
}

// ---------------------------------------------------------------------------
// Clock gating model
// ---------------------------------------------------------------------------

/// An enable register after OR-ing in the mask bits.
pub open spec fn enable_mask(reg: u32, mask: u32) -> u32 {
    reg | mask
}

/// An enable register after AND-ing out the mask bits.
pub open spec fn disable_mask(reg: u32, mask: u32) -> u32 {
    reg & !mask
}

/// An enable register after a gating operation: mask bits turned on or off.
pub open spec fn apply_mask(reg: u32, mask: u32, enable: bool) -> u32 {
    if enable {
        enable_mask(reg, mask)
    } else {
        disable_mask(reg, mask)
    }
}

// ---------------------------------------------------------------------------
// Bit-level facts about the initialization values
// ---------------------------------------------------------------------------

/// The CR initialization values select exactly one oscillator and leave the
/// PLL off.
proof fn lemma_cr_init_bits()
    by (bit_vector)
    ensures
        CR_HSEON & CR_HSEON != 0,
        CR_HSEON & CR_HSION == 0,
        CR_HSEON & CR_PLLON == 0,
        CR_HSION & CR_HSION != 0,
        CR_HSION & CR_HSEON == 0,
        CR_HSION & CR_PLLON == 0,
{
}

/// Exactly one of the two high-speed oscillators is requested on by the CR
/// initialization value, and the PLL is off — for either configuration.
pub proof fn lemma_source_exclusivity(external_high_speed: bool)
    ensures
        hse_on(spec_cr_init(external_high_speed)) == external_high_speed,
        hsi_on(spec_cr_init(external_high_speed)) == !external_high_speed,
        !pll_on(spec_cr_init(external_high_speed)),
{
    lemma_cr_init_bits();
}

/// The published snapshot keeps the fixed prescaler ratios: the AHB clock is
/// a quarter and both APB clocks are an eighth of the system clock.
pub proof fn lemma_prescaler_invariant(config: ClockConfiguration)
    ensures
        spec_derived_clocks(config).sysclk == config.high_speed_clock_hz,
        spec_derived_clocks(config).hclk == spec_derived_clocks(config).sysclk / 4,
        spec_derived_clocks(config).pclk1 == spec_derived_clocks(config).sysclk / 8,
        spec_derived_clocks(config).pclk2 == spec_derived_clocks(config).sysclk / 8,
{
}

// ---------------------------------------------------------------------------
// Peripheral enable bits, one per bus
// ---------------------------------------------------------------------------

/// Peripherals gated by the AHB clock enable register, each standing for its
/// enable bit.
#[allow(non_camel_case_types)]
#[derive(Clone, Copy, PartialEq, Eq, Structural, Debug)]
pub enum AhbPeripherals {
    DMA1,
    DMA2,
    SRAM,
    FLITF,
    FMC,
    CRC,
    IOPH,
    IOPA,
    IOPB,
    IOPC,
    IOPD,
    IOPE,
    IOPF,
    IOPG,
    TSC,
    ADC12,
    ADC34,
}

impl AhbPeripherals {
    /// This peripheral's bit in the AHB clock enable register.
    pub open spec fn spec_mask(self) -> u32 {
        match self {
            AhbPeripherals::DMA1 => 0x0000_0001,
            AhbPeripherals::DMA2 => 0x0000_0002,
            AhbPeripherals::SRAM => 0x0000_0004,
            AhbPeripherals::FLITF => 0x0000_0010,
            AhbPeripherals::FMC => 0x0000_0020,
            AhbPeripherals::CRC => 0x0000_0040,
            AhbPeripherals::IOPH => 0x0001_0000,
            AhbPeripherals::IOPA => 0x0002_0000,
            AhbPeripherals::IOPB => 0x0004_0000,
            AhbPeripherals::IOPC => 0x0008_0000,
            AhbPeripherals::IOPD => 0x0010_0000,
            AhbPeripherals::IOPE => 0x0020_0000,
            AhbPeripherals::IOPF => 0x0040_0000,
            AhbPeripherals::IOPG => 0x0080_0000,
            AhbPeripherals::TSC => 0x0100_0000,
            AhbPeripherals::ADC12 => 0x1000_0000,
            AhbPeripherals::ADC34 => 0x2000_0000,
        }
    }

    /// This peripheral's bit in the AHB clock enable register.
    #[verifier::when_used_as_spec(spec_mask)]
    pub fn mask(self) -> (m: u32)
        ensures
            m == self.spec_mask(),
    {
        match self {
            AhbPeripherals::DMA1 => 0x0000_0001,
            AhbPeripherals::DMA2 => 0x0000_0002,
            AhbPeripherals::SRAM => 0x0000_0004,
            AhbPeripherals::FLITF => 0x0000_0010,
            AhbPeripherals::FMC => 0x0000_0020,
            AhbPeripherals::CRC => 0x0000_0040,
            AhbPeripherals::IOPH => 0x0001_0000,
            AhbPeripherals::IOPA => 0x0002_0000,
            AhbPeripherals::IOPB => 0x0004_0000,
            AhbPeripherals::IOPC => 0x0008_0000,
            AhbPeripherals::IOPD => 0x0010_0000,
            AhbPeripherals::IOPE => 0x0020_0000,
            AhbPeripherals::IOPF => 0x0040_0000,
            AhbPeripherals::IOPG => 0x0080_0000,
            AhbPeripherals::TSC => 0x0100_0000,
            AhbPeripherals::ADC12 => 0x1000_0000,
            AhbPeripherals::ADC34 => 0x2000_0000,
        }
    }
}

/// Peripherals gated by the APB1 clock enable register, each standing for
/// its enable bit.
#[allow(non_camel_case_types)]
#[derive(Clone, Copy, PartialEq, Eq, Structural, Debug)]
pub enum Apb1Peripherals {
    TIM2,
    TIM3,
    TIM4,
    TIM6,
    TIM7,
    WWD,
    SPI2,
    SPI3,
    USART2,
    USART3,
    USART4,
    USART5,
    I2C1,
    I1C2,
    USB,
    CAN,
    DAC2,
    PWR,
    DAC1,
    I2C3,
}

impl Apb1Peripherals {
    /// This peripheral's bit in the APB1 clock enable register.
    pub open spec fn spec_mask(self) -> u32 {
        match self {
            Apb1Peripherals::TIM2 => 0x0000_0001,
            Apb1Peripherals::TIM3 => 0x0000_0002,
            Apb1Peripherals::TIM4 => 0x0000_0004,
            Apb1Peripherals::TIM6 => 0x0000_0010,
            Apb1Peripherals::TIM7 => 0x0000_0020,
            Apb1Peripherals::WWD => 0x0000_0800,
            Apb1Peripherals::SPI2 => 0x0000_4000,
            Apb1Peripherals::SPI3 => 0x0000_8000,
            Apb1Peripherals::USART2 => 0x0002_0000,
            Apb1Peripherals::USART3 => 0x0004_0000,
            Apb1Peripherals::USART4 => 0x0008_0000,
            Apb1Peripherals::USART5 => 0x0010_0000,
            Apb1Peripherals::I2C1 => 0x0020_0000,
            Apb1Peripherals::I1C2 => 0x0040_0000,
            Apb1Peripherals::USB => 0x0080_0000,
            Apb1Peripherals::CAN => 0x0200_0000,
            Apb1Peripherals::DAC2 => 0x0400_0000,
            Apb1Peripherals::PWR => 0x1000_0000,
            Apb1Peripherals::DAC1 => 0x2000_0000,
            Apb1Peripherals::I2C3 => 0x4000_0000,
        }
    }

    /// This peripheral's bit in the APB1 clock enable register.
    #[verifier::when_used_as_spec(spec_mask)]
    pub fn mask(self) -> (m: u32)
        ensures
            m == self.spec_mask(),
    {
        match self {
            Apb1Peripherals::TIM2 => 0x0000_0001,
            Apb1Peripherals::TIM3 => 0x0000_0002,
            Apb1Peripherals::TIM4 => 0x0000_0004,
            Apb1Peripherals::TIM6 => 0x0000_0010,
            Apb1Peripherals::TIM7 => 0x0000_0020,
            Apb1Peripherals::WWD => 0x0000_0800,
            Apb1Peripherals::SPI2 => 0x0000_4000,
            Apb1Peripherals::SPI3 => 0x0000_8000,
            Apb1Peripherals::USART2 => 0x0002_0000,
            Apb1Peripherals::USART3 => 0x0004_0000,
            Apb1Peripherals::USART4 => 0x0008_0000,
            Apb1Peripherals::USART5 => 0x0010_0000,
            Apb1Peripherals::I2C1 => 0x0020_0000,
            Apb1Peripherals::I1C2 => 0x0040_0000,
            Apb1Peripherals::USB => 0x0080_0000,
            Apb1Peripherals::CAN => 0x0200_0000,
            Apb1Peripherals::DAC2 => 0x0400_0000,
            Apb1Peripherals::PWR => 0x1000_0000,
            Apb1Peripherals::DAC1 => 0x2000_0000,
            Apb1Peripherals::I2C3 => 0x4000_0000,
        }
    }
}

/// Peripherals gated by the APB2 clock enable register, each standing for
/// its enable bit.
#[allow(non_camel_case_types)]
#[derive(Clone, Copy, PartialEq, Eq, Structural, Debug)]
pub enum Apb2Peripherals {
    SYSCFG,
    TIM1,
    SPI1,
    TIM8,
    USART1,
    SPI4,
    TIM15,
    TIM16,
    TIM17,
    TIM20,
}

impl Apb2Peripherals {
    /// This peripheral's bit in the APB2 clock enable register.
    pub open spec fn spec_mask(self) -> u32 {
        match self {
            Apb2Peripherals::SYSCFG => 0x0000_0001,
            Apb2Peripherals::TIM1 => 0x0000_0800,
            Apb2Peripherals::SPI1 => 0x0000_1000,
            Apb2Peripherals::TIM8 => 0x0000_2000,
            Apb2Peripherals::USART1 => 0x0000_4000,
            Apb2Peripherals::SPI4 => 0x0000_8000,
            Apb2Peripherals::TIM15 => 0x0001_0000,
            Apb2Peripherals::TIM16 => 0x0002_0000,
            Apb2Peripherals::TIM17 => 0x0004_0000,
            Apb2Peripherals::TIM20 => 0x0010_0000,
        }
    }

    /// This peripheral's bit in the APB2 clock enable register.
    #[verifier::when_used_as_spec(spec_mask)]
    pub fn mask(self) -> (m: u32)
        ensures
            m == self.spec_mask(),
    {
        match self {
            Apb2Peripherals::SYSCFG => 0x0000_0001,
            Apb2Peripherals::TIM1 => 0x0000_0800,
            Apb2Peripherals::SPI1 => 0x0000_1000,
            Apb2Peripherals::TIM8 => 0x0000_2000,
            Apb2Peripherals::USART1 => 0x0000_4000,
            Apb2Peripherals::SPI4 => 0x0000_8000,
            Apb2Peripherals::TIM15 => 0x0001_0000,
            Apb2Peripherals::TIM16 => 0x0002_0000,
            Apb2Peripherals::TIM17 => 0x0004_0000,
            Apb2Peripherals::TIM20 => 0x0010_0000,
        }
    }
}

/// A gating round trip touches no bit outside its mask: enabling and then
/// disabling the same mask gives the same register as disabling it alone,
/// so every bit outside the mask keeps its value from before the pair of
/// operations (bits inside the mask end up cleared either way).
pub proof fn lemma_gating_round_trip(reg: u32, mask: u32)
    by (bit_vector)
    ensures
        apply_mask(apply_mask(reg, mask, true), mask, false) == apply_mask(reg, mask, false),
        forall|i: u32|
            i < 32 && !bit_set(mask, i) ==> #[trigger] bit_set(
                apply_mask(apply_mask(reg, mask, true), mask, false),
                i,
            ) == bit_set(reg, i),
{
}

/// Enabling is idempotent: a mask whose bits are already set leaves the
/// register unchanged, and enabling the same mask twice equals enabling it
/// once.
pub proof fn lemma_enable_idempotent(reg: u32, mask: u32)
    by (bit_vector)
    ensures
        reg & mask == mask ==> apply_mask(reg, mask, true) == reg,
        apply_mask(apply_mask(reg, mask, true), mask, true) == apply_mask(reg, mask, true),
{
}

// ---------------------------------------------------------------------------
// Initialization register values, executable side
// ---------------------------------------------------------------------------

impl RccRegisters {
    /// Whether the oscillator the configuration selects reports ready.  The
    /// model folds the oscillator's response into its enable bit: an enabled
    /// oscillator counts as stable.  On hardware the ready flag (`CR_HSERDY`
    /// or `CR_HSIRDY`) lags the enable, and the runtime layer polls it.
    pub fn oscillator_ready(&self, external_high_speed: bool) -> (r: bool)
        ensures
            r == (if external_high_speed {
                hse_on(self.cr)
            } else {
                hsi_on(self.cr)
            }),
    {
        if external_high_speed {
            self.cr & CR_HSEON != 0
        } else {
            self.cr & CR_HSION != 0
        }
    }
}

/// The CR value of step one of initialization.
fn cr_init_value(external_high_speed: bool) -> (v: u32)
    ensures
        v == spec_cr_init(external_high_speed),
{
    if external_high_speed {
        CR_HSEON
    } else {
        CR_HSION
    }
}

/// The CFGR value of step three of initialization.
fn cfgr_init_value(external_high_speed: bool) -> (v: u32)
    ensures
        v == spec_cfgr_init(external_high_speed),
{
    (if external_high_speed {
        CFGR_SW_HSE
    } else {
        CFGR_SW_HSI
    }) | CFGR_HPRE_DIV4 | CFGR_PPRE1_DIV2 | CFGR_PPRE2_DIV2
}

/// The BDCR value of step four of initialization.
fn bdcr_init_value(external_low_speed: bool) -> (v: u32)
    ensures
        v == spec_bdcr_init(external_low_speed),
{
    if external_low_speed {
        BDCR_RTCEN | BDCR_RTCSEL_LSE | BDCR_LSEON
    } else {
        BDCR_RTCEN | BDCR_RTCSEL_LSI
    }
}

/// The snapshot derived from a configuration under the fixed prescalers.
fn derive_clocks(config: ClockConfiguration) -> (c: Clocks)
    ensures
        c == spec_derived_clocks(config),
{
    Clocks {
        sysclk: config.high_speed_clock_hz,
        hclk: config.high_speed_clock_hz / 4,
        lclk: config.low_speed_clock_hz,
        pclk1: config.high_speed_clock_hz / 8,
        pclk2: config.high_speed_clock_hz / 8,
    }
}

// ---------------------------------------------------------------------------
// The clock controller
// ---------------------------------------------------------------------------

/// Owner of the clock-control register block.  Constructed unclaimed at
/// boot; [`ClockController::init`] claims the block, runs the configuration
/// sequence and publishes the derived snapshot.  Gating operations before
/// the claim are silent no-ops, mirroring the boot ordering the hardware
/// layer tolerates.
pub struct ClockController {
    registers: Option<RccRegisters>,
    clocks: Clocks,
    config: Ghost<Option<ClockConfiguration>>,
}

impl ClockController {
    /// The register block has been claimed by initialization.
    pub closed spec fn claimed(self) -> bool {
        self.registers is Some
    }

    /// The model register block; meaningful once claimed.
    pub closed spec fn regs(self) -> RccRegisters {
        self.registers->Some_0
    }

    /// The published clock snapshot.
    pub closed spec fn snapshot(self) -> Clocks {
        self.clocks
    }

    /// The configuration initialization ran with; meaningful once claimed.
    pub closed spec fn configuration(self) -> ClockConfiguration {
        self.config@->Some_0
    }

    /// The controller's invariant: once the block is claimed, the control
    /// registers hold exactly what initialization programmed for the
    /// recorded configuration, and the published snapshot is the one derived
    /// from that same configuration.  Nothing re-reads the hardware, so this
    /// is what keeps the cached snapshot truthful.
    pub closed spec fn wf(self) -> bool {
        self.claimed() ==> {
            &&& self.config@ is Some
            &&& self.regs().cr == spec_cr_init(self.configuration().external_high_speed)
            &&& self.regs().cfgr == spec_cfgr_init(self.configuration().external_high_speed)
            &&& self.regs().bdcr == spec_bdcr_init(self.configuration().external_low_speed)
            &&& self.clocks == spec_derived_clocks(self.configuration())
        }
    }

    /// A fresh, unclaimed controller publishing the zero snapshot.
    pub fn new() -> (c: ClockController)
        ensures
            !c.claimed(),
            c.snapshot() == spec_zero_clocks(),
            c.wf(),
    {
        ClockController {
            registers: None,
            clocks: Clocks { sysclk: 0, hclk: 0, lclk: 0, pclk1: 0, pclk2: 0 },
            config: Ghost(None),
        }
    }

    /// Claim the register block and run the initialization sequence: turn
    /// the PLL off and request exactly the selected oscillator, wait for it
    /// to report ready, switch the system clock mux with AHB divided by 4
    /// and both APB buses by 2, route the RTC to the selected low-speed
    /// oscillator, and publish the snapshot derived from the configuration.
    /// The enable registers of the three buses are left as handed over.
    pub fn init(&mut self, rcc: RccRegisters, config: ClockConfiguration)
        ensures
            final(self).claimed(),
            final(self).wf(),
            final(self).configuration() == config,
            final(self).regs() == (RccRegisters {
                cr: spec_cr_init(config.external_high_speed),
                cfgr: spec_cfgr_init(config.external_high_speed),
                bdcr: spec_bdcr_init(config.external_low_speed),
                ..rcc
            }),
            final(self).snapshot() == spec_derived_clocks(config),
    {
        let mut regs = rcc;

        // Turn the PLL off and request exactly one oscillator in a single
        // register write, so no half-configured state is ever visible.
        regs.cr = cr_init_value(config.external_high_speed);

        // Block until the selected oscillator reports ready.  A silent
        // oscillator would hang the boot on purpose: there is no running
        // without a clock source.  The model oscillator answers at once.
        while !regs.oscillator_ready(config.external_high_speed)
            invariant
                regs.cr == spec_cr_init(config.external_high_speed),
            decreases 0int,
        {
            proof {
                // The model oscillator is ready as soon as it is requested
                // on, so the wait ends on its first check.
                lemma_cr_init_bits();
            }
        }

        // Select the system clock source and the bus dividers in one write.
        regs.cfgr = cfgr_init_value(config.external_high_speed);

        // Enable the RTC and route it to the selected low-speed oscillator.
        // No ready-wait here: the low-speed crystal starts slowly and
        // nothing downstream blocks on it at boot.
        regs.bdcr = bdcr_init_value(config.external_low_speed);

        // Publish the snapshot derived from the configuration constants.
        self.clocks = derive_clocks(config);
        self.registers = Some(regs);
        self.config = Ghost(Some(config));
    }

    /// A copy of the published snapshot; the zero snapshot before
    /// initialization has run.
    pub fn get_clocks(&self) -> (c: Clocks)
        ensures
            c == self.snapshot(),
    {
        self.clocks
    }

    /// A copy of the model register block, for the layer mirroring it onto
    /// the hardware; nothing before initialization has claimed it.
    pub fn register_state(&self) -> (r: Option<RccRegisters>)
        ensures
            r is Some <==> self.claimed(),
            r is Some ==> r->Some_0 == self.regs(),
    {
        self.registers
    }

    /// Gate one AHB peripheral's clock on or off by read-modify-write of
    /// the AHB enable register.  Before initialization has claimed the
    /// register block this is a silent no-op.
    pub fn set_ahb_peripheral_clock_enable(&mut self, peripheral: AhbPeripherals, enable: bool)
        ensures
            final(self).claimed() == old(self).claimed(),
            final(self).snapshot() == old(self).snapshot(),
            old(self).wf() ==> final(self).wf(),
            !old(self).claimed() ==> *final(self) == *old(self),
            old(self).claimed() ==> final(self).regs() == (RccRegisters {
                ahbenr: apply_mask(old(self).regs().ahbenr, peripheral.mask(), enable),
                ..old(self).regs()
            }),
    {
        match &mut self.registers {
            Some(regs) => {
                if enable {
                    regs.ahbenr = regs.ahbenr | peripheral.mask();
                } else {
                    regs.ahbenr = regs.ahbenr & !peripheral.mask();
                }
            },
            None => {},
        }
    }

    /// Gate one APB1 peripheral's clock on or off by read-modify-write of
    /// the APB1 enable register.  Before initialization has claimed the
    /// register block this is a silent no-op.
    pub fn set_apb1_peripheral_clock_enable(&mut self, peripheral: Apb1Peripherals, enable: bool)
        ensures
            final(self).claimed() == old(self).claimed(),
            final(self).snapshot() == old(self).snapshot(),
            old(self).wf() ==> final(self).wf(),
            !old(self).claimed() ==> *final(self) == *old(self),
            old(self).claimed() ==> final(self).regs() == (RccRegisters {
                apb1enr: apply_mask(old(self).regs().apb1enr, peripheral.mask(), enable),
                ..old(self).regs()
            }),
    {
        match &mut self.registers {
            Some(regs) => {
                if enable {
                    regs.apb1enr = regs.apb1enr | peripheral.mask();
                } else {
                    regs.apb1enr = regs.apb1enr & !peripheral.mask();
                }
            },
            None => {},
        }
    }

    /// Gate one APB2 peripheral's clock on or off by read-modify-write of
    /// the APB2 enable register.  Before initialization has claimed the
    /// register block this is a silent no-op.
    pub fn set_apb2_peripheral_clock_enable(&mut self, peripheral: Apb2Peripherals, enable: bool)
        ensures
            final(self).claimed() == old(self).claimed(),
            final(self).snapshot() == old(self).snapshot(),
            old(self).wf() ==> final(self).wf(),
            !old(self).claimed() ==> *final(self) == *old(self),
            old(self).claimed() ==> final(self).regs() == (RccRegisters {
                apb2enr: apply_mask(old(self).regs().apb2enr, peripheral.mask(), enable),
                ..old(self).regs()
            }),
    {
        match &mut self.registers {
            Some(regs) => {
                if enable {
                    regs.apb2enr = regs.apb2enr | peripheral.mask();
                } else {
                    regs.apb2enr = regs.apb2enr & !peripheral.mask();
                }
            },
            None => {},
        }
    }
}

/// Once a controller is initialized and well formed, its snapshot keeps the
/// prescaler ratios of the fixed divider choice, whatever else has happened
/// to it since.
pub proof fn lemma_snapshot_prescalers(c: ClockController)
    requires
        c.wf(),
        c.claimed(),
    ensures
        c.snapshot().hclk == c.snapshot().sysclk / 4,
        c.snapshot().pclk1 == c.snapshot().sysclk / 8,
        c.snapshot().pclk2 == c.snapshot().sysclk / 8,
{
}

/// Periodic task hook; the clock subsystem has no periodic work.
pub fn task_handler() {
}

} // verus!

