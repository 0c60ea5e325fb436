//! The user LED on pin 5 of port A, wired active-low.

use vstd::prelude::*;
use crate::gpio::GpioRegs;
use crate::rcc::ENR;

verus! {

/// The green user LED.
pub struct Green;

/// Initializes the LED pin: powers the port, configures pin 5 as an output
/// and drives it high, which leaves the LED off.
pub fn init(port: &mut GpioRegs, enr: &mut ENR)
    ensures
        *final(enr) == (ENR { gpioaen: true, ..*old(enr) }),
        *final(port) == (GpioRegs { moder: 1u32 << 10, odr: old(port).odr | (1u32 << 5), ..*old(
            port,
        ) }),
{
    enr.gpioaen = true;
    port.moder = 1u32 << 10;
    port.odr = port.odr | (1u32 << 5);
}

impl Green {
    /// Turns the LED on by driving the pin low.
    pub fn on(&self, port: &mut GpioRegs)
        ensures
            *final(port) == (GpioRegs { odr: old(port).odr & !(1u32 << 5), ..*old(port) }),
    {
        port.odr = port.odr & !(1u32 << 5);
    }

    /// Turns the LED off by driving the pin high.
    pub fn off(&self, port: &mut GpioRegs)
        ensures
            *final(port) == (GpioRegs { odr: old(port).odr | (1u32 << 5), ..*old(port) }),
    {
        port.odr = port.odr | (1u32 << 5);
    }
}

} // verus!
