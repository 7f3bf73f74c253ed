//! Model of the GPIO ports: per-pin mode, pull, output type, level and
//! alternate function, packed into the port's configuration registers
//! exactly as the hardware lays them out.

use vstd::prelude::*;
use crate::bits::bit_set;
use crate::bits::set_bit;
use crate::bits::set_field2;
use crate::bits::set_field4;
use crate::bits::spec_set_bit;
use crate::bits::spec_set_field2;
use crate::bits::spec_set_field4;

verus! {

/// The eight GPIO ports of the device.
#[derive(Clone, Copy, PartialEq, Eq, Structural, Debug)]
pub enum GpioPort {
    PortA,
    PortB,
    PortC,
    PortD,
    PortE,
    PortF,
    PortG,
    PortH,
}

/// Pin function, a two-bit field of the mode register.
#[derive(Clone, Copy, PartialEq, Eq, Structural, Debug)]
pub enum GpioMode {
    Input,
    Output,
    AltFunc,
    Analog,
}

/// Output driver shape, one bit of the output type register.
#[derive(Clone, Copy, PartialEq, Eq, Structural, Debug)]
pub enum OutputType {
    PushPull,
    OpenDrain,
}

/// Internal resistor selection, a two-bit field of the pull register.
#[derive(Clone, Copy, PartialEq, Eq, Structural, Debug)]
pub enum PinPull {
    NoPull,
    PullUp,
    PullDown,
}

/// Logic level of a pin.
#[derive(Clone, Copy, PartialEq, Eq, Structural, Debug)]
pub enum PinState {
    PinLow,
    PinHigh,
}

// ---------------------------------------------------------------------------
// Field encodings
// ---------------------------------------------------------------------------

/// Two-bit encoding of a pin mode in the mode register.
pub open spec fn spec_mode_bits(mode: GpioMode) -> u32 {
    match mode {
        GpioMode::Input => 0,
        GpioMode::Output => 1,
        GpioMode::AltFunc => 2,
        GpioMode::Analog => 3,
    }
}

/// Two-bit encoding of a pin mode in the mode register.
#[verifier::when_used_as_spec(spec_mode_bits)]
pub fn mode_bits(mode: GpioMode) -> (v: u32)
    ensures
        v == spec_mode_bits(mode),
{
    match mode {
        GpioMode::Input => 0,
        GpioMode::Output => 1,
        GpioMode::AltFunc => 2,
        GpioMode::Analog => 3,
    }
}

/// Two-bit encoding of a pull selection in the pull register.
pub open spec fn spec_pull_bits(pull: PinPull) -> u32 {
    match pull {
        PinPull::NoPull => 0,
        PinPull::PullUp => 1,
        PinPull::PullDown => 2,
    }
}

/// Two-bit encoding of a pull selection in the pull register.
#[verifier::when_used_as_spec(spec_pull_bits)]
pub fn pull_bits(pull: PinPull) -> (v: u32)
    ensures
        v == spec_pull_bits(pull),
{
    match pull {
        PinPull::NoPull => 0,
        PinPull::PullUp => 1,
        PinPull::PullDown => 2,
    }
}

/// One-bit encoding of the output driver shape: open drain is the set bit.
pub open spec fn spec_output_type_bit(out_type: OutputType) -> bool {
    match out_type {
        OutputType::PushPull => false,
        OutputType::OpenDrain => true,
    }
}

/// One-bit encoding of the output driver shape: open drain is the set bit.
#[verifier::when_used_as_spec(spec_output_type_bit)]
pub fn output_type_bit(out_type: OutputType) -> (b: bool)
    ensures
        b == spec_output_type_bit(out_type),
{
    match out_type {
        OutputType::PushPull => false,
        OutputType::OpenDrain => true,
    }
}

/// One-bit encoding of a pin level: high is the set bit.
pub open spec fn spec_state_bit(state: PinState) -> bool {
    match state {
        PinState::PinLow => false,
        PinState::PinHigh => true,
    }
}

/// One-bit encoding of a pin level: high is the set bit.
#[verifier::when_used_as_spec(spec_state_bit)]
pub fn state_bit(state: PinState) -> (b: bool)
    ensures
        b == spec_state_bit(state),
{
    match state {
        PinState::PinLow => false,
        PinState::PinHigh => true,
    }
}

// ---------------------------------------------------------------------------
// One port's register block
// ---------------------------------------------------------------------------

/// One GPIO port's configuration and data registers, as plain data.  The
/// hardware's set/reset register is modelled by its effect on the output
/// data register.
#[derive(Clone, Copy, PartialEq, Eq, Structural, Debug)]
pub struct GpioRegisters {
    /// Mode register: one two-bit field per pin.
    pub moder: u32,
    /// Output type register: one bit per pin.
    pub otyper: u32,
    /// Pull register: one two-bit field per pin.
    pub pupdr: u32,
    /// Input data register: one bit per pin, written by the hardware.
    pub idr: u32,
    /// Output data register: one bit per pin.
    pub odr: u32,
    /// Alternate function register for pins 0 to 7: one four-bit field each.
    pub afrl: u32,
    /// Alternate function register for pins 8 to 15: one four-bit field each.
    pub afrh: u32,
}

impl GpioRegisters {
    /// The port after a mode write: the pin's two-bit mode field takes the
    /// encoding of `mode`; out-of-range pins change nothing.
    pub open spec fn with_pin_mode(self, pin: u8, mode: GpioMode) -> GpioRegisters {
        if pin < 16 {
            GpioRegisters {
                moder: spec_set_field2(self.moder, pin as u32, spec_mode_bits(mode)),
                ..self
            }
        } else {
            self
        }
    }

    /// The port after a pull write: the pin's two-bit pull field takes the
    /// encoding of `pull`; out-of-range pins change nothing.
    pub open spec fn with_pin_pull(self, pin: u8, pull: PinPull) -> GpioRegisters {
        if pin < 16 {
            GpioRegisters {
                pupdr: spec_set_field2(self.pupdr, pin as u32, spec_pull_bits(pull)),
                ..self
            }
        } else {
            self
        }
    }

    /// The port after an output type write: the pin's bit of the output
    /// type register takes the encoding of `out_type`; out-of-range pins
    /// change nothing.
    pub open spec fn with_output_type(self, pin: u8, out_type: OutputType) -> GpioRegisters {
        if pin < 16 {
            GpioRegisters {
                otyper: spec_set_bit(self.otyper, pin as u32, spec_output_type_bit(out_type)),
                ..self
            }
        } else {
            self
        }
    }

    /// The port after a level write through the set/reset register: the
    /// pin's bit of the output data register takes the encoding of `state`;
    /// out-of-range pins change nothing.
    pub open spec fn with_pin_state(self, pin: u8, state: PinState) -> GpioRegisters {
        if pin < 16 {
            GpioRegisters { odr: spec_set_bit(self.odr, pin as u32, spec_state_bit(state)), ..self }
        } else {
            self
        }
    }

    /// The port after an alternate function write: the pin's four-bit field
    /// of the low (pins 0 to 7) or high (pins 8 to 15) alternate function
    /// register takes the low four bits of `func`; out-of-range pins change
    /// nothing.
    pub open spec fn with_alt_func(self, pin: u8, func: u8) -> GpioRegisters {
        if pin < 8 {
            GpioRegisters {
                afrl: spec_set_field4(self.afrl, pin as u32, (func & 0xF) as u32),
                ..self
            }
        } else if pin < 16 {
            GpioRegisters {
                afrh: spec_set_field4(self.afrh, (pin - 8) as u32, (func & 0xF) as u32),
                ..self
            }
        } else {
            self
        }
    }

    /// The level the input data register reports for a pin.
    pub open spec fn spec_pin_state(self, pin: u8) -> PinState {
        if bit_set(self.idr, pin as u32) {
            PinState::PinHigh
        } else {
            PinState::PinLow
        }
    }

    /// Write the pin's mode field of the mode register.
    pub fn set_pin_mode(&mut self, pin: u8, mode: GpioMode)
        ensures
            *final(self) == old(self).with_pin_mode(pin, mode),
    {
        if pin < 16 {
            self.moder = set_field2(self.moder, pin as u32, mode_bits(mode));
        }
    }

    /// Write the pin's pull field of the pull register.
    pub fn set_pin_pull(&mut self, pin: u8, pull: PinPull)
        ensures
            *final(self) == old(self).with_pin_pull(pin, pull),
    {
        if pin < 16 {
            self.pupdr = set_field2(self.pupdr, pin as u32, pull_bits(pull));
        }
    }

    /// Write the pin's bit of the output type register.
    pub fn set_output_type(&mut self, pin: u8, out_type: OutputType)
        ensures
            *final(self) == old(self).with_output_type(pin, out_type),
    {
        if pin < 16 {
            self.otyper = set_bit(self.otyper, pin as u32, output_type_bit(out_type));
        }
    }

    /// Drive the pin's level: the one-shot set/reset write the hardware
    /// sees lands in the output data register bit.
    pub fn set_pin_state(&mut self, pin: u8, state: PinState)
        ensures
            *final(self) == old(self).with_pin_state(pin, state),
    {
        if pin < 16 {
            self.odr = set_bit(self.odr, pin as u32, state_bit(state));
        }
    }

    /// Write the pin's alternate function field of the low or high
    /// alternate function register.
    pub fn set_alt_func(&mut self, pin: u8, func: u8)
        ensures
            *final(self) == old(self).with_alt_func(pin, func),
    {
        let masked: u8 = func & 0xF;
        proof {
            assert(masked < 16) by (bit_vector)
                requires
                    masked == func & 0xFu8,
            ;
        }
        if pin < 8 {
            self.afrl = set_field4(self.afrl, pin as u32, masked as u32);
        } else if pin < 16 {
            self.afrh = set_field4(self.afrh, (pin - 8) as u32, masked as u32);
        }
    }

    /// Read the pin's level from the input data register.
    pub fn get_pin_state(&self, pin: u8) -> (s: PinState)
        requires
            pin < 16,
        ensures
            s == self.spec_pin_state(pin),
    {
        if self.idr & (1u32 << (pin as u32)) != 0 {
            PinState::PinHigh
        } else {
            PinState::PinLow
        }
    }
}

// ---------------------------------------------------------------------------
// The GPIO controller
// ---------------------------------------------------------------------------

/// Owner of the eight port register blocks.  Constructed unclaimed at boot;
/// [`GpioController::init`] claims all eight at once.  Every per-pin
/// operation on an unclaimed port, or on a pin number past 15, is a silent
/// no-op, mirroring the boot ordering the hardware layer tolerates.
pub struct GpioController {
    port_a: Option<GpioRegisters>,
    port_b: Option<GpioRegisters>,
    port_c: Option<GpioRegisters>,
    port_d: Option<GpioRegisters>,
    port_e: Option<GpioRegisters>,
    port_f: Option<GpioRegisters>,
    port_g: Option<GpioRegisters>,
    port_h: Option<GpioRegisters>,
}

/// A port's registers after one of the per-pin updates, applied through the
/// claim: an unclaimed port stays unclaimed and untouched.
pub open spec fn updated_port(
    regs: Option<GpioRegisters>,
    update: spec_fn(GpioRegisters) -> GpioRegisters,
) -> Option<GpioRegisters> {
    match regs {
        Some(g) => Some(update(g)),
        None => None,
    }
}

impl GpioController {
    /// The registers of one port; `None` until the port is claimed.
    pub closed spec fn port_regs(self, port: GpioPort) -> Option<GpioRegisters> {
        match port {
            GpioPort::PortA => self.port_a,
            GpioPort::PortB => self.port_b,
            GpioPort::PortC => self.port_c,
            GpioPort::PortD => self.port_d,
            GpioPort::PortE => self.port_e,
            GpioPort::PortF => self.port_f,
            GpioPort::PortG => self.port_g,
            GpioPort::PortH => self.port_h,
        }
    }

    /// A fresh controller with no port claimed.
    pub fn new() -> (c: GpioController)
        ensures
            forall|p: GpioPort| #[trigger] c.port_regs(p) is None,
    {
        GpioController {
            port_a: None,
            port_b: None,
            port_c: None,
            port_d: None,
            port_e: None,
            port_f: None,
            port_g: None,
            port_h: None,
        }
    }

    /// Claim all eight port register blocks at once.
    pub fn init(
        &mut self,
        gpioa: GpioRegisters,
        gpiob: GpioRegisters,
        gpioc: GpioRegisters,
        gpiod: GpioRegisters,
        gpioe: GpioRegisters,
        gpiof: GpioRegisters,
        gpiog: GpioRegisters,
        gpioh: GpioRegisters,
    )
        ensures
            final(self).port_regs(GpioPort::PortA) == Some(gpioa),
            final(self).port_regs(GpioPort::PortB) == Some(gpiob),
            final(self).port_regs(GpioPort::PortC) == Some(gpioc),
            final(self).port_regs(GpioPort::PortD) == Some(gpiod),
            final(self).port_regs(GpioPort::PortE) == Some(gpioe),
            final(self).port_regs(GpioPort::PortF) == Some(gpiof),
            final(self).port_regs(GpioPort::PortG) == Some(gpiog),
            final(self).port_regs(GpioPort::PortH) == Some(gpioh),
    {
        self.port_a = Some(gpioa);
        self.port_b = Some(gpiob);
        self.port_c = Some(gpioc);
        self.port_d = Some(gpiod);
        self.port_e = Some(gpioe);
        self.port_f = Some(gpiof);
        self.port_g = Some(gpiog);
        self.port_h = Some(gpioh);
    }

    /// A copy of one port's model registers, for the layer mirroring them
    /// onto the hardware; nothing if the port is unclaimed.
    pub fn port_state(&self, port: GpioPort) -> (r: Option<GpioRegisters>)
        ensures
            r == self.port_regs(port),
    {
        match port {
            GpioPort::PortA => self.port_a,
            GpioPort::PortB => self.port_b,
            GpioPort::PortC => self.port_c,
            GpioPort::PortD => self.port_d,
            GpioPort::PortE => self.port_e,
            GpioPort::PortF => self.port_f,
            GpioPort::PortG => self.port_g,
            GpioPort::PortH => self.port_h,
        }
    }

    /// Exclusive access to one port's claimed registers.
    fn port_mut(&mut self, port: GpioPort) -> (r: &mut Option<GpioRegisters>)
        ensures
            *r == old(self).port_regs(port),
            forall|q: GpioPort|
                q != port ==> #[trigger] final(self).port_regs(q) == old(self).port_regs(q),
            final(self).port_regs(port) == *final(r),
    {
        match port {
            GpioPort::PortA => &mut self.port_a,
            GpioPort::PortB => &mut self.port_b,
            GpioPort::PortC => &mut self.port_c,
            GpioPort::PortD => &mut self.port_d,
            GpioPort::PortE => &mut self.port_e,
            GpioPort::PortF => &mut self.port_f,
            GpioPort::PortG => &mut self.port_g,
            GpioPort::PortH => &mut self.port_h,
        }
    }

    /// Write one pin's mode field on a claimed port.
    pub fn set_pin_mode(&mut self, port: GpioPort, pin: u8, mode: GpioMode)
        ensures
            final(self).port_regs(port) == updated_port(
                old(self).port_regs(port),
                |g: GpioRegisters| g.with_pin_mode(pin, mode),
            ),
            forall|q: GpioPort|
                q != port ==> #[trigger] final(self).port_regs(q) == old(self).port_regs(q),
    {
        match self.port_mut(port) {
            Some(regs) => regs.set_pin_mode(pin, mode),
            None => {},
        }
    }

    /// Write one pin's pull field on a claimed port.
    pub fn set_pin_pull(&mut self, port: GpioPort, pin: u8, pull: PinPull)
        ensures
            final(self).port_regs(port) == updated_port(
                old(self).port_regs(port),
                |g: GpioRegisters| g.with_pin_pull(pin, pull),
            ),
            forall|q: GpioPort|
                q != port ==> #[trigger] final(self).port_regs(q) == old(self).port_regs(q),
    {
        match self.port_mut(port) {
            Some(regs) => regs.set_pin_pull(pin, pull),
            None => {},
        }
    }

    /// Write one pin's output type bit on a claimed port.
    pub fn set_output_type(&mut self, port: GpioPort, pin: u8, out_type: OutputType)
        ensures
            final(self).port_regs(port) == updated_port(
                old(self).port_regs(port),
                |g: GpioRegisters| g.with_output_type(pin, out_type),
            ),
            forall|q: GpioPort|
                q != port ==> #[trigger] final(self).port_regs(q) == old(self).port_regs(q),
    {
        match self.port_mut(port) {
            Some(regs) => regs.set_output_type(pin, out_type),
            None => {},
        }
    }

    /// Drive one pin's level on a claimed port.
    pub fn set_pin_state(&mut self, port: GpioPort, pin: u8, state: PinState)
        ensures
            final(self).port_regs(port) == updated_port(
                old(self).port_regs(port),
                |g: GpioRegisters| g.with_pin_state(pin, state),
            ),
            forall|q: GpioPort|
                q != port ==> #[trigger] final(self).port_regs(q) == old(self).port_regs(q),
    {
        match self.port_mut(port) {
            Some(regs) => regs.set_pin_state(pin, state),
            None => {},
        }
    }

    /// Write one pin's alternate function field on a claimed port.
    pub fn set_alt_func(&mut self, port: GpioPort, pin: u8, func: u8)
        ensures
            final(self).port_regs(port) == updated_port(
                old(self).port_regs(port),
                |g: GpioRegisters| g.with_alt_func(pin, func),
            ),
            forall|q: GpioPort|
                q != port ==> #[trigger] final(self).port_regs(q) == old(self).port_regs(q),
    {
        match self.port_mut(port) {
            Some(regs) => regs.set_alt_func(pin, func),
            None => {},
        }
    }

    /// Configure one pin in a single call: mode, pull, then level.
    pub fn pin_setup(&mut self, port: GpioPort, pin: u8, mode: GpioMode, pull: PinPull, state: PinState)
        ensures
            final(self).port_regs(port) == updated_port(
                old(self).port_regs(port),
                |g: GpioRegisters| g.with_pin_mode(pin, mode).with_pin_pull(pin, pull).with_pin_state(
                    pin,
                    state,
                ),
            ),
            forall|q: GpioPort|
                q != port ==> #[trigger] final(self).port_regs(q) == old(self).port_regs(q),
    {
        self.set_pin_mode(port, pin, mode);
        self.set_pin_pull(port, pin, pull);
        self.set_pin_state(port, pin, state);
    }

    /// Read one pin's level on a claimed port; nothing for an unclaimed
    /// port or a pin number past 15.
    pub fn get_pin_state(&self, port: GpioPort, pin: u8) -> (s: Option<PinState>)
        ensures
            s == (if pin < 16 {
                match self.port_regs(port) {
                    Some(g) => Some(g.spec_pin_state(pin)),
                    None => None,
                }
            } else {
                None
            }),
    {
        if pin < 16 {
            match self.port_state(port) {
                Some(regs) => Some(regs.get_pin_state(pin)),
                None => None,
            }
        } else {
            None
        }
    }
}

/// Periodic task hook; the GPIO subsystem has no periodic work.
pub fn task_handler() {
}

} // verus!

