use stm32f411_hal::gpio::{AltFunction, Gpio, GpioRegs, Io, Mode as PinMode, Pupd, Speed};
use stm32f411_hal::led;
use stm32f411_hal::led::Green;
use stm32f411_hal::pwm::{pwm_dividers, Pwm as PwmChannel, T1C1};
use stm32f411_hal::pwm2::{Pwm, PwmRegs};
use stm32f411_hal::rcc::{ClockSource, Rcc, ENR};
use stm32f411_hal::serial;
use stm32f411_hal::spi::frequency_to_prescaler_bits;
use stm32f411_hal::spi2::{DataSize, Polarity, Role, Spi, SpiRegs, NSS};
use stm32f411_hal::time::{Bps, Hertz};
use stm32f411_hal::timer::{Channel, Timer, TimerRegs};
use stm32f411_hal::usart::{Error as UsartError, Event, Pins, Usart, UsartRegs};

#[test]
fn clocks_from_internal_oscillator() {
    let rcc = Rcc::new();
    let clocks = rcc.cfgr.freeze(ClockSource::Hsi);
    assert_eq!(clocks.sysclk(), Hertz(16_000_000));
    assert_eq!(clocks.hclk(), Hertz(16_000_000));
    assert_eq!(clocks.pclk1(), Hertz(16_000_000));
    assert_eq!(clocks.pclk2(), Hertz(16_000_000));
}

#[test]
fn clocks_from_pll_at_forty_eight_megahertz() {
    let rcc = Rcc::new();
    let clocks = rcc
        .cfgr
        .sysclk(Hertz(48_000_000))
        .hclk(Hertz(48_000_000))
        .pclk1(Hertz(24_000_000))
        .pclk2(Hertz(48_000_000))
        .freeze(ClockSource::Pll);
    assert_eq!(clocks.sysclk(), Hertz(48_000_000));
    assert_eq!(clocks.hclk(), Hertz(48_000_000));
    assert_eq!(clocks.pclk1(), Hertz(24_000_000));
    assert_eq!(clocks.pclk2(), Hertz(48_000_000));
}

#[test]
fn timer_divider_computation() {
    let t = Timer::new();
    let mut regs = TimerRegs::new();
    t.init(&mut regs, 1000);
    assert_eq!(regs.psc, 0);
    assert_eq!(regs.arr, 1000);
    assert!(regs.uie);
    assert!(!regs.cen);
    t.set_timeout(&mut regs, 100_000);
    assert_eq!(regs.psc, 1);
    assert_eq!(regs.arr, 50_000);
    assert_eq!(t.get_timeout(&regs), 100_000);
}

#[test]
fn timer_wait_clears_update_flag() {
    let t = Timer::new();
    let mut regs = TimerRegs::new();
    assert!(!t.wait(&mut regs));
    regs.uif = true;
    assert!(t.wait(&mut regs));
    assert!(!regs.uif);
    t.resume(&mut regs);
    assert!(regs.cen);
    t.pause(&mut regs);
    assert!(!regs.cen);
    regs.cnt = 77;
    t.restart(&mut regs);
    assert_eq!(regs.cnt, 0);
}

#[test]
fn pwm_divider_computation() {
    assert_eq!(pwm_dividers(Hertz(48_000_000), 2, Hertz(1000)), (1, 48_000));
    assert_eq!(pwm_dividers(Hertz(48_000_000), 1, Hertz(1000)), (0, 48_000));
}

#[test]
fn pwm_init_and_duty() {
    let p = Pwm::new();
    let mut regs = PwmRegs::new();
    p.init(&mut regs, 1000);
    assert!(regs.cen);
    assert!(regs.moe);
    assert_eq!(regs.oc1m, 6);
    assert_eq!(regs.psc, 0);
    assert_eq!(regs.arr, 1000);
    assert_eq!(p.get_max_duty(&regs), 1000);
    p.set_duty(&mut regs, Channel::_3, 250);
    assert_eq!(p.get_duty(&regs, Channel::_3), 250);
    p.enable(&mut regs, Channel::_3);
    assert!(regs.cc3e);
    p.disable(&mut regs, Channel::_3);
    assert!(!regs.cc3e);
    assert_eq!(p.get_period(&regs), 0);
}

#[test]
fn pwm_channel_wraps_and_returns_its_pin() {
    let mut regs = PwmRegs::new();
    let mut channel = PwmChannel::new(T1C1::new(), 42u8);
    channel.enable(&mut regs);
    assert!(regs.cc2e);
    channel.set_duty(&mut regs, 99);
    assert_eq!(channel.get_duty(&regs), 99);
    let pin = channel.unwrap(&mut regs);
    assert_eq!(pin, 42u8);
    assert!(!regs.cc2e);
}

#[test]
fn gpio_mode_speed_and_pull_fields() {
    let mut port = GpioRegs::new();
    Gpio::set_mode(&mut port, 3, PinMode::Output);
    assert_eq!(port.moder, 0b01 << 6);
    Gpio::set_speed(&mut port, 2, Speed::High);
    assert_eq!(port.ospeedr, 0b11 << 4);
    Gpio::set_pupd(&mut port, 1, Pupd::PullDown);
    assert_eq!(port.pupdr, 0b10 << 2);
    Gpio::alternate_function(&mut port, 9, 7);
    assert_eq!(port.afrh, 7 << 4);
    Gpio::alternate_function(&mut port, 2, 5);
    assert_eq!(port.afrl, 5 << 8);
}

#[test]
fn gpio_set_and_get_levels() {
    let mut port = GpioRegs::new();
    Gpio::set(&mut port, 5, Io::High);
    assert_eq!(port.odr, 1 << 5);
    Gpio::set(&mut port, 5, Io::Low);
    assert_eq!(port.odr, 0);
    port.idr = 1 << 4;
    assert_eq!(Gpio::get(&port, 4), Io::High);
    assert_eq!(Gpio::get(&port, 3), Io::Low);
    let _ = Gpio::new();
}

#[test]
fn led_is_active_low() {
    let mut port = GpioRegs::new();
    let mut enr = ENR::new();
    led::init(&mut port, &mut enr);
    assert!(enr.gpioaen);
    assert_eq!(port.moder, 1 << 10);
    assert_eq!(port.odr & (1 << 5), 1 << 5);
    let green = Green;
    green.on(&mut port);
    assert_eq!(port.odr & (1 << 5), 0);
    green.off(&mut port);
    assert_eq!(port.odr & (1 << 5), 1 << 5);
}

#[test]
fn usart_baud_register_value() {
    let rcc = Rcc::new();
    let clocks = rcc.cfgr.freeze(ClockSource::Hsi);
    let mut regs = UsartRegs::new();
    let mut port = GpioRegs::new();
    let mut enr = ENR::new();
    let pins = Pins::NoRemap(AltFunction, AltFunction);
    let usart = Usart::new(&mut regs, &mut port, pins, Bps(115_200), clocks, &mut enr);
    assert!(enr.usart2en);
    // both pins routed to alternate function 7
    assert_eq!(port.afrl, (7 << 8) | (7 << 12));
    assert_eq!(regs.brr, (8 << 4) | 0x0B);
    assert!(regs.ue && regs.te && regs.re);
    let (_tx, _rx) = usart.split();
}

#[test]
fn usart_listen_and_unlisten() {
    let rcc = Rcc::new();
    let clocks = rcc.cfgr.freeze(ClockSource::Hsi);
    let mut regs = UsartRegs::new();
    let mut port = GpioRegs::new();
    let mut enr = ENR::new();
    let pins = Pins::NoRemap(AltFunction, AltFunction);
    let mut usart = Usart::new(&mut regs, &mut port, pins, Bps(9600), clocks, &mut enr);
    usart.listen(&mut regs, Event::Rxne);
    assert!(regs.rxneie);
    usart.unlisten(&mut regs, Event::Rxne);
    assert!(!regs.rxneie);
    usart.listen(&mut regs, Event::Txe);
    assert!(regs.txeie);
}

#[test]
fn usart_read_error_precedence() {
    let mut regs = UsartRegs::new();
    let rcc = Rcc::new();
    let clocks = rcc.cfgr.freeze(ClockSource::Hsi);
    let mut port = GpioRegs::new();
    let mut enr = ENR::new();
    let pins = Pins::NoRemap(AltFunction, AltFunction);
    let usart = Usart::new(&mut regs, &mut port, pins, Bps(9600), clocks, &mut enr);
    let (mut tx, mut rx) = usart.split();
    assert_eq!(rx.read(&mut regs), Ok(None));
    regs.rxne = true;
    regs.dr = 0x55;
    assert_eq!(rx.read(&mut regs), Ok(Some(0x55)));
    // taking the byte consumed it
    assert!(!regs.rxne);
    assert_eq!(rx.read(&mut regs), Ok(None));
    regs.rxne = true;
    regs.fe = true;
    assert_eq!(rx.read(&mut regs), Err(UsartError::Framing));
    assert!(regs.rxne);
    regs.nf = true;
    assert_eq!(rx.read(&mut regs), Err(UsartError::Noise));
    regs.ore = true;
    assert_eq!(rx.read(&mut regs), Err(UsartError::Overrun));
    regs.rxne = false;
    regs.ore = false;
    regs.nf = false;
    regs.fe = false;
    regs.txe = true;
    assert_eq!(tx.write(&mut regs, 0x77), Ok(true));
    assert_eq!(regs.dr, 0x77);
    regs.txe = false;
    assert_eq!(tx.write(&mut regs, 0x12), Ok(false));
    assert!(tx.flush());
}

#[test]
fn spi_prescaler_table() {
    assert_eq!(frequency_to_prescaler_bits(Hertz(16_000_000), Hertz(8_000_000)), 0);
    assert_eq!(frequency_to_prescaler_bits(Hertz(16_000_000), Hertz(4_000_000)), 1);
    assert_eq!(frequency_to_prescaler_bits(Hertz(16_000_000), Hertz(1_000_000)), 3);
    assert_eq!(frequency_to_prescaler_bits(Hertz(16_000_000), Hertz(100)), 7);
}

#[test]
fn spi_configuration_surface() {
    let spi = Spi::new(0x4001_300C, None, None);
    let mut regs = SpiRegs::new();
    spi.init(&mut regs, Role::Master);
    assert!(regs.master);
    spi.data_size(&mut regs, DataSize::Bits16);
    assert_eq!(regs.dff, DataSize::Bits16);
    spi.clk_polarity(&mut regs, Polarity::IdleHigh);
    assert_eq!(regs.cpol, Polarity::IdleHigh);
    spi.nss(&mut regs, NSS::Soft);
    assert!(regs.ssm && regs.ssoe);
    spi.msb_first(&mut regs, false);
    assert!(regs.lsbfirst);
    spi.baud_rate_prescaler(&mut regs, 3);
    assert_eq!(regs.br, 3);
    spi.crc_calculation(&mut regs, true);
    assert!(regs.crcen);
    spi.ti_mode(&mut regs, true);
    assert!(regs.frf);
    spi.enable(&mut regs);
    assert!(regs.spe);
    spi.disable(&mut regs);
    assert!(!regs.spe);
}

#[test]
fn spi_byte_paths_report_errors_first() {
    let spi = Spi::new(0, None, None);
    let mut regs = SpiRegs::new();
    assert_eq!(spi.read(&mut regs), Ok(None));
    regs.rxne = true;
    regs.dr = 9;
    assert_eq!(spi.read(&mut regs), Ok(Some(9)));
    // taking the byte consumed it
    assert!(!regs.rxne);
    assert_eq!(spi.read(&mut regs), Ok(None));
    regs.rxne = true;
    regs.crcerr = true;
    assert!(matches!(spi.read(&mut regs), Err(stm32f411_hal::spi2::Error::Crc)));
    assert!(regs.rxne);
    regs.modf = true;
    assert!(matches!(spi.read(&mut regs), Err(stm32f411_hal::spi2::Error::ModeFault)));
    regs.ovr = true;
    assert!(matches!(spi.read(&mut regs), Err(stm32f411_hal::spi2::Error::Overrun)));
    regs.rxne = false;
    regs.ovr = false;
    regs.modf = false;
    regs.crcerr = false;
    regs.txe = true;
    assert_eq!(spi.send(&mut regs, 0xAB), Ok(true));
    assert_eq!(regs.dr, 0xAB);
    regs.txe = false;
    assert_eq!(spi.send(&mut regs, 0xCD), Ok(false));
    assert_eq!(regs.dr, 0xAB);
}

#[test]
fn serial_error_vocabulary_is_shared() {
    assert!(matches!(serial::Error::Overrun, serial::Error::Overrun));
    assert!(matches!(serial::Event::Tc, serial::Event::Tc));
}

#[test]
fn serial_enable_surface() {
    let s = serial::Serial::new();
    let mut regs = UsartRegs::new();
    s.init(&mut regs, 0x8B);
    assert_eq!(regs.brr, 0x8B);
    assert!(regs.ue && regs.te && regs.re);
    s.disable(&mut regs);
    assert!(!regs.ue);
    assert!(regs.te);
    s.set_baud_rate(&mut regs, 0x16C);
    assert_eq!(regs.brr, 0x16C);
}

#[test]
fn systick_reload_is_bounded() {
    assert_eq!(stm32f411_hal::delay::systick_reload(1000), Some(1000));
    assert_eq!(
        stm32f411_hal::delay::systick_reload(0x00FF_FFFF),
        Some(0x00FF_FFFF)
    );
    assert_eq!(stm32f411_hal::delay::systick_reload(0x0100_0000), None);
}
