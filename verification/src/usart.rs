//! The USART peripheral: baud-rate setup, interrupt selection, and the
//! polled byte-wise read and write paths over a register model.

use vstd::prelude::*;
use crate::gpio::{AltFunction, Gpio, GpioRegs};
use crate::rcc::{Clocks, ENR};
use crate::time::Bps;

verus! {

/// A receive error.
#[derive(Clone, Copy, PartialEq, Eq, Structural, Debug)]
pub enum Error {
    /// De-synchronization, excessive noise or a break character detected.
    Framing,
    /// Noise detected in the received frame.
    Noise,
    /// RX buffer overrun.
    Overrun,
}

/// An interrupt event.
#[derive(Clone, Copy, PartialEq, Eq, Structural, Debug)]
pub enum Event {
    /// RX buffer not empty: new data available.
    Rxne,
    /// Transmission complete.
    Tc,
    /// TX buffer empty: more data can be sent.
    Txe,
}

/// The transmit and receive pins the peripheral may use.
pub enum Pins {
    NoRemap(AltFunction, AltFunction),
}

/// The registers of the USART, as plain values.
#[derive(Clone, Copy, PartialEq, Eq, Structural, Debug)]
pub struct UsartRegs {
    /// Baud-rate register.
    pub brr: u32,
    /// Peripheral enable.
    pub ue: bool,
    /// Transmitter enable.
    pub te: bool,
    /// Receiver enable.
    pub re: bool,
    /// RX-not-empty interrupt enable.
    pub rxneie: bool,
    /// Transmission-complete interrupt enable.
    pub tcie: bool,
    /// TX-empty interrupt enable.
    pub txeie: bool,
    /// Overrun status flag.
    pub ore: bool,
    /// Noise status flag.
    pub nf: bool,
    /// Framing-error status flag.
    pub fe: bool,
    /// RX-not-empty status flag.
    pub rxne: bool,
    /// TX-empty status flag.
    pub txe: bool,
    /// Data register.
    pub dr: u8,
}

impl UsartRegs {
    /// The peripheral after reset: everything cleared.
    pub open spec fn reset() -> UsartRegs {
        UsartRegs {
            brr: 0,
            ue: false,
            te: false,
            re: false,
            rxneie: false,
            tcie: false,
            txeie: false,
            ore: false,
            nf: false,
            fe: false,
            rxne: false,
            txe: false,
            dr: 0,
        }
    }

    /// Builds the register model in its reset state.
    pub fn new() -> (r: UsartRegs)
        ensures
            r == UsartRegs::reset(),
    {
        UsartRegs {
            brr: 0,
            ue: false,
            te: false,
            re: false,
            rxneie: false,
            tcie: false,
            txeie: false,
            ore: false,
            nf: false,
            fe: false,
            rxne: false,
            txe: false,
            dr: 0,
        }
    }
}

/// The value the baud-rate register is programmed with for a bus frequency
/// and a requested rate.
pub open spec fn brr_value(pclk1: u32, bps: u32) -> u32 {
    ((((pclk1 as int) / (16 * (bps as int))) as u32) << 4u32) | 0x0B
}

/// The serial port, configured and running.
pub struct Usart {
    token: (),
}

impl Usart {
    /// Configures the serial port: enables its bus clock, routes the
    /// transmit and receive pins (pins 2 and 3 of their port) to alternate
    /// function 7, programs the baud rate from the frozen clock tree, and
    /// switches the peripheral, its transmitter and its receiver on.
    pub fn new(
        regs: &mut UsartRegs,
        port: &mut GpioRegs,
        pins: Pins,
        bps: Bps,
        clocks: Clocks,
        enr: &mut ENR,
    ) -> (u: Usart)
        requires
            bps.0 >= 1,
            bps.0 <= 0x0FFF_FFFF,
        ensures
            *final(enr) == (ENR { usart2en: true, ..*old(enr) }),
            *final(port) == (GpioRegs {
                afrl: (((old(port).afrl & !(0b1111u32 << 8u32)) | (7u32 << 8u32)) & !(0b1111u32
                    << 12u32)) | (7u32 << 12u32),
                ..*old(port)
            }),
            *final(regs) == (UsartRegs {
                brr: brr_value(clocks.pclk1_spec().0, bps.0),
                ue: true,
                te: true,
                re: true,
                ..*old(regs)
            }),
    {
        enr.usart2en = true;
        match pins {
            Pins::NoRemap(_tx, _rx) => {
                Gpio::alternate_function(port, 2, 7);
                Gpio::alternate_function(port, 3, 7);
            }
        }
        let rate: u32 = bps.0;
        let divisor: u32 = 16 * rate;
        let brr: u32 = clocks.pclk1().0 / divisor;
        regs.brr = (brr << 4u32) | 0x0B;
        regs.ue = true;
        regs.te = true;
        regs.re = true;
        Usart { token: () }
    }

    /// Enables the interrupt for one event.
    pub fn listen(&mut self, regs: &mut UsartRegs, event: Event)
        ensures
            event is Rxne ==> *final(regs) == (UsartRegs { rxneie: true, ..*old(regs) }),
            event is Tc ==> *final(regs) == (UsartRegs { tcie: true, ..*old(regs) }),
            event is Txe ==> *final(regs) == (UsartRegs { txeie: true, ..*old(regs) }),
    {
        match event {
            Event::Rxne => {
                regs.rxneie = true;
            }
            Event::Tc => {
                regs.tcie = true;
            }
            Event::Txe => {
                regs.txeie = true;
            }
        }
    }

    /// Disables the interrupt for one event.
    pub fn unlisten(&mut self, regs: &mut UsartRegs, event: Event)
        ensures
            event is Rxne ==> *final(regs) == (UsartRegs { rxneie: false, ..*old(regs) }),
            event is Tc ==> *final(regs) == (UsartRegs { tcie: false, ..*old(regs) }),
            event is Txe ==> *final(regs) == (UsartRegs { txeie: false, ..*old(regs) }),
    {
        match event {
            Event::Rxne => {
                regs.rxneie = false;
            }
            Event::Tc => {
                regs.tcie = false;
            }
            Event::Txe => {
                regs.txeie = false;
            }
        }
    }

    /// Splits the port into its transmit and receive halves.
    pub fn split(self) -> (Tx, Rx) {
        (Tx { token: () }, Rx { token: () })
    }
}

/// The receive half of the serial port.
pub struct Rx {
    token: (),
}

impl Rx {
    /// Polls for a received byte. The error flags take precedence, overrun
    /// first; with no error and no pending byte the poll reports nothing
    /// received yet. Taking the byte consumes it: the receive flag is
    /// cleared, as the hardware clears it when the data register is read.
    pub fn read(&mut self, regs: &mut UsartRegs) -> (r: Result<Option<u8>, Error>)
        ensures
            old(regs).ore ==> r == Result::<Option<u8>, Error>::Err(Error::Overrun) && *final(regs)
                == *old(regs),
            !old(regs).ore && old(regs).nf ==> r == Result::<Option<u8>, Error>::Err(Error::Noise)
                && *final(regs) == *old(regs),
            !old(regs).ore && !old(regs).nf && old(regs).fe ==> r == Result::<
                Option<u8>,
                Error,
            >::Err(Error::Framing) && *final(regs) == *old(regs),
            !old(regs).ore && !old(regs).nf && !old(regs).fe && old(regs).rxne ==> r == Result::<
                Option<u8>,
                Error,
            >::Ok(Some(old(regs).dr)) && *final(regs) == (UsartRegs {
                rxne: false,
                ..*old(regs)
            }),
            !old(regs).ore && !old(regs).nf && !old(regs).fe && !old(regs).rxne ==> r == Result::<
                Option<u8>,
                Error,
            >::Ok(None) && *final(regs) == *old(regs),
    {
        if regs.ore {
            Err(Error::Overrun)
        } else if regs.nf {
            Err(Error::Noise)
        } else if regs.fe {
            Err(Error::Framing)
        } else if regs.rxne {
            regs.rxne = false;
            Ok(Some(regs.dr))
        } else {
            Ok(None)
        }
    }
}

/// The transmit half of the serial port.
pub struct Tx {
    token: (),
}

impl Tx {
    /// Tries to hand one byte to the transmitter. The error flags take
    /// precedence, overrun first. `Ok(true)` means the byte was placed in
    /// the data register; `Ok(false)` means the transmitter is still busy
    /// and the caller retries.
    pub fn write(&mut self, regs: &mut UsartRegs, byte: u8) -> (r: Result<bool, Error>)
        ensures
            old(regs).ore ==> r == Result::<bool, Error>::Err(Error::Overrun) && *final(regs) == *old(
                regs,
            ),
            !old(regs).ore && old(regs).nf ==> r == Result::<bool, Error>::Err(Error::Noise) && *final(regs)
                == *old(regs),
            !old(regs).ore && !old(regs).nf && old(regs).fe ==> r == Result::<bool, Error>::Err(Error::Framing)
                && *final(regs) == *old(regs),
            !old(regs).ore && !old(regs).nf && !old(regs).fe && old(regs).txe ==> r == Result::<bool, Error>::Ok(true)
                && *final(regs) == (UsartRegs { dr: byte, ..*old(regs) }),
            !old(regs).ore && !old(regs).nf && !old(regs).fe && !old(regs).txe ==> r == Result::<bool, Error>::Ok(false)
                && *final(regs) == *old(regs),
    {
        if regs.ore {
            Err(Error::Overrun)
        } else if regs.nf {
            Err(Error::Noise)
        } else if regs.fe {
            Err(Error::Framing)
        } else if regs.txe {
            regs.dr = byte;
            Ok(true)
        } else {
            Ok(false)
        }
    }

    /// Nothing is buffered beyond the data register, so a flush has nothing
    /// to wait for.
    pub fn flush(&mut self) -> (r: bool)
        ensures
            r,
    {
        true
    }
}

} // verus!
