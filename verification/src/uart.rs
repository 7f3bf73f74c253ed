//! UART peripheral skeleton: pin assignment records for the three USART
//! instances.  The register blocks are claimed at boot and held by the
//! runtime layer; no framing or transfer logic lives here yet.

use vstd::prelude::*;
use crate::gpio::GpioPort;

verus! {

/// Static description of one UART: which port/pin each line uses, which
/// USART instance drives it, and the configured baud rate.
pub struct Uart {
    pub rx_port: GpioPort,
    pub rx_pin: u8,
    pub tx_port: GpioPort,
    pub tx_pin: u8,
    pub rts_port: GpioPort,
    pub rts_pin: u8,
    pub cts_port: GpioPort,
    pub cts_pin: u8,
    pub usart: Usart,
    pub baud: u32,
}

/// The three USART instances of the device.
#[derive(Clone, Copy, PartialEq, Eq, Structural, Debug)]
pub enum Usart {
    Usart1,
    Usart2,
    Usart3,
}

/// Periodic task hook; this subsystem has no periodic work.
pub fn task_handler() {
}

} // verus!
