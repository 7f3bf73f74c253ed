//! Register-level model of the STM32F303 clock tree and peripheral plumbing.
//!
//! The heart of the crate is [`clocks`]: oscillator selection, bus
//! prescalers and peripheral clock gating, specified and verified over a
//! plain-data model of the RCC register block.  [`gpio`] models the per-pin
//! configuration registers of the eight GPIO ports.  The remaining modules
//! are the skeleton of the peripheral layer: they own no logic yet and only
//! expose their periodic task hooks.

pub mod adc;
pub mod bits;
pub mod clocks;
pub mod flash;
pub mod gpio;
pub mod rtc;
pub mod spi;
pub mod timer;
pub mod uart;

use vstd::prelude::*;

verus! {

/// Periodic task hook of the whole peripheral layer: runs every module's
/// task handler in a fixed order.
pub fn task_handler() {
    adc::task_handler();
    clocks::task_handler();
    flash::task_handler();
    gpio::task_handler();
    rtc::task_handler();
    spi::task_handler();
    timer::task_handler();
    uart::task_handler();
}

} // verus!
