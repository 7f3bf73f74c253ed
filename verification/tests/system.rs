use f303_hal::gpio::GpioPort;
use f303_hal::uart::Uart;
use f303_hal::uart::Usart;

#[test]
fn task_handlers_run() {
    // The periodic hooks of every subsystem are callable and do nothing yet.
    f303_hal::task_handler();
    f303_hal::adc::task_handler();
    f303_hal::clocks::task_handler();
    f303_hal::flash::task_handler();
    f303_hal::gpio::task_handler();
    f303_hal::rtc::task_handler();
    f303_hal::spi::task_handler();
    f303_hal::timer::task_handler();
    f303_hal::uart::task_handler();
}

#[test]
fn uart_description_holds_its_pins() {
    let u = Uart {
        rx_port: GpioPort::PortA,
        rx_pin: 10,
        tx_port: GpioPort::PortA,
        tx_pin: 9,
        rts_port: GpioPort::PortA,
        rts_pin: 12,
        cts_port: GpioPort::PortA,
        cts_pin: 11,
        usart: Usart::Usart1,
        baud: 115_200,
    };
    assert_eq!(u.rx_pin, 10);
    assert_eq!(u.tx_pin, 9);
    assert_eq!(u.baud, 115_200);
    assert_eq!(u.usart, Usart::Usart1);
}
