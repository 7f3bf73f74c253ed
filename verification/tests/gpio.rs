use f303_hal::gpio::GpioController;
use f303_hal::gpio::GpioMode;
use f303_hal::gpio::GpioPort;
use f303_hal::gpio::GpioRegisters;
use f303_hal::gpio::OutputType;
use f303_hal::gpio::PinPull;
use f303_hal::gpio::PinState;

fn zero_port() -> GpioRegisters {
    GpioRegisters { moder: 0, otyper: 0, pupdr: 0, idr: 0, odr: 0, afrl: 0, afrh: 0 }
}

fn claimed_controller() -> GpioController {
    let mut c = GpioController::new();
    let z = zero_port();
    c.init(z, z, z, z, z, z, z, z);
    c
}

#[test]
fn pin_setup_packs_all_three_fields() {
    let mut c = claimed_controller();
    c.pin_setup(GpioPort::PortA, 3, GpioMode::Output, PinPull::PullUp, PinState::PinHigh);
    let g = c.port_state(GpioPort::PortA).unwrap();
    // Mode 0b01 in bits 7:6, pull 0b01 in bits 7:6, level bit 3.
    assert_eq!(g.moder, 0x0000_0040);
    assert_eq!(g.pupdr, 0x0000_0040);
    assert_eq!(g.odr, 0x0000_0008);
    assert_eq!(g.otyper, 0);
}

#[test]
fn pin_setup_leaves_other_ports_alone() {
    let mut c = claimed_controller();
    c.pin_setup(GpioPort::PortC, 0, GpioMode::Analog, PinPull::PullDown, PinState::PinLow);
    assert_eq!(c.port_state(GpioPort::PortA).unwrap(), zero_port());
    assert_eq!(c.port_state(GpioPort::PortB).unwrap(), zero_port());
    let g = c.port_state(GpioPort::PortC).unwrap();
    assert_eq!(g.moder, 0x0000_0003);
    assert_eq!(g.pupdr, 0x0000_0002);
    assert_eq!(g.odr, 0);
}

#[test]
fn set_pin_mode_keeps_other_pins() {
    let mut c = claimed_controller();
    c.set_pin_mode(GpioPort::PortB, 0, GpioMode::Analog);
    c.set_pin_mode(GpioPort::PortB, 15, GpioMode::AltFunc);
    let g = c.port_state(GpioPort::PortB).unwrap();
    assert_eq!(g.moder, 0x8000_0003);
    c.set_pin_mode(GpioPort::PortB, 0, GpioMode::Input);
    let g = c.port_state(GpioPort::PortB).unwrap();
    assert_eq!(g.moder, 0x8000_0000);
}

#[test]
fn set_output_type_sets_one_bit() {
    let mut c = claimed_controller();
    c.set_output_type(GpioPort::PortD, 5, OutputType::OpenDrain);
    let g = c.port_state(GpioPort::PortD).unwrap();
    assert_eq!(g.otyper, 0x0000_0020);
    c.set_output_type(GpioPort::PortD, 5, OutputType::PushPull);
    let g = c.port_state(GpioPort::PortD).unwrap();
    assert_eq!(g.otyper, 0);
}

#[test]
fn set_pin_state_drives_odr_bit() {
    let mut c = claimed_controller();
    c.set_pin_state(GpioPort::PortE, 9, PinState::PinHigh);
    assert_eq!(c.port_state(GpioPort::PortE).unwrap().odr, 0x0000_0200);
    c.set_pin_state(GpioPort::PortE, 9, PinState::PinLow);
    assert_eq!(c.port_state(GpioPort::PortE).unwrap().odr, 0);
}

#[test]
fn set_alt_func_low_and_high_registers() {
    let mut c = claimed_controller();
    c.set_alt_func(GpioPort::PortA, 2, 7);
    c.set_alt_func(GpioPort::PortA, 10, 4);
    let g = c.port_state(GpioPort::PortA).unwrap();
    // Pin 2 lives in AFRL bits 11:8; pin 10 in AFRH bits 11:8.
    assert_eq!(g.afrl, 0x0000_0700);
    assert_eq!(g.afrh, 0x0000_0400);
}

#[test]
fn set_alt_func_masks_to_four_bits() {
    let mut c = claimed_controller();
    c.set_alt_func(GpioPort::PortF, 0, 0x1F);
    let g = c.port_state(GpioPort::PortF).unwrap();
    assert_eq!(g.afrl, 0x0000_000F);
}

#[test]
fn get_pin_state_reads_idr() {
    let mut c = GpioController::new();
    let mut pa = zero_port();
    pa.idr = 0x0000_0012;  // pins 1 and 4 high
    let z = zero_port();
    c.init(pa, z, z, z, z, z, z, z);
    assert_eq!(c.get_pin_state(GpioPort::PortA, 1), Some(PinState::PinHigh));
    assert_eq!(c.get_pin_state(GpioPort::PortA, 4), Some(PinState::PinHigh));
    assert_eq!(c.get_pin_state(GpioPort::PortA, 0), Some(PinState::PinLow));
    assert_eq!(c.get_pin_state(GpioPort::PortB, 1), Some(PinState::PinLow));
}

#[test]
fn get_pin_state_out_of_range_is_none() {
    let c = claimed_controller();
    assert_eq!(c.get_pin_state(GpioPort::PortA, 16), None);
    assert_eq!(c.get_pin_state(GpioPort::PortA, 255), None);
}

#[test]
fn get_pin_state_unclaimed_is_none() {
    let c = GpioController::new();
    assert_eq!(c.get_pin_state(GpioPort::PortA, 0), None);
}

#[test]
fn writes_before_init_are_noops() {
    let mut c = GpioController::new();
    c.set_pin_mode(GpioPort::PortA, 1, GpioMode::Output);
    c.set_pin_state(GpioPort::PortA, 1, PinState::PinHigh);
    c.pin_setup(GpioPort::PortB, 2, GpioMode::Output, PinPull::NoPull, PinState::PinHigh);
    assert!(c.port_state(GpioPort::PortA).is_none());
    assert!(c.port_state(GpioPort::PortB).is_none());
}

#[test]
fn out_of_range_pin_changes_nothing() {
    let mut c = claimed_controller();
    c.set_pin_mode(GpioPort::PortG, 16, GpioMode::Analog);
    c.set_pin_pull(GpioPort::PortG, 200, PinPull::PullUp);
    c.set_alt_func(GpioPort::PortG, 16, 0xF);
    assert_eq!(c.port_state(GpioPort::PortG).unwrap(), zero_port());
}
