//! The serial interface: enable surface and baud-rate programming. The
//! polled byte-wise read and write paths over the register model live in
//! the `usart` module, which this interface shares its peripheral with.

use vstd::prelude::*;
use crate::usart::UsartRegs;

verus! {

/// A serial error.
#[derive(Clone, Copy, PartialEq, Eq, Structural, Debug)]
pub enum Error {
    /// De-synchronization, excessive noise or a break character detected.
    Framing,
    /// Noise detected in the received frame.
    Noise,
    /// RX buffer overrun.
    Overrun,
}

/// An interrupt event.
#[derive(Clone, Copy, PartialEq, Eq, Structural, Debug)]
pub enum Event {
    /// RX buffer not empty: new data available.
    Rxne,
    /// Transmission complete.
    Tc,
    /// TX buffer empty: more data can be sent.
    Txe,
}

/// The serial interface over one USART: 8 data bits, 1 stop bit, no
/// hardware flow control, no parity.
pub struct Serial {
    token: (),
}

impl Serial {
    /// Builds the interface handle.
    pub fn new() -> Serial {
        Serial { token: () }
    }

    /// Programs the baud rate and switches the interface on.
    pub fn init(&self, regs: &mut UsartRegs, baud: u32)
        ensures
            *final(regs) == (UsartRegs { brr: baud, ue: true, te: true, re: true, ..*old(regs) }),
    {
        self.set_baud_rate(regs, baud);
        self.enable(regs);
    }

    /// Writes the baud-rate register, already expressed in bus ticks per
    /// symbol.
    pub fn set_baud_rate(&self, regs: &mut UsartRegs, baud: u32)
        ensures
            *final(regs) == (UsartRegs { brr: baud, ..*old(regs) }),
    {
        regs.brr = baud;
    }

    /// Switches the peripheral, its transmitter and its receiver on.
    pub fn enable(&self, regs: &mut UsartRegs)
        ensures
            *final(regs) == (UsartRegs { ue: true, te: true, re: true, ..*old(regs) }),
    {
        regs.ue = true;
        regs.te = true;
        regs.re = true;
    }

    /// Switches the peripheral off.
    pub fn disable(&self, regs: &mut UsartRegs)
        ensures
            *final(regs) == (UsartRegs { ue: false, ..*old(regs) }),
    {
        regs.ue = false;
    }
}

} // verus!
