//! General-purpose I/O: pin modes, speeds, pulls and levels over a port
//! register model.

use vstd::prelude::*;
use crate::rcc::ENR;

verus! {

/// Splits a GPIO port into its pin handles, enabling its clock.
pub trait GpioExt {
    type Parts;

    fn split(self, enr: &mut ENR) -> Self::Parts;
}

/// Marker: a pin given to a peripheral's alternate function.
pub struct AltFunction;

/// Marker: a pin configured as an input.
pub struct Input;

/// Marker: a pin configured as an output.
pub struct Output;

/// Marker: a pin configured as an analog input.
pub struct Analog;

/// A pin level.
#[derive(Clone, Copy, PartialEq, Eq, Structural, Debug)]
pub enum Io {
    Low,
    High,
}

/// A pin's basic mode.
#[derive(Clone, Copy, PartialEq, Eq, Structural, Debug)]
pub enum Mode {
    Input,
    Output,
    AlternateFunction,
    Analog,
}

/// A pin's output speed.
#[derive(Clone, Copy, PartialEq, Eq, Structural, Debug)]
pub enum Speed {
    Low,
    Medium,
    Fast,
    High,
}

/// A pin's pull-up/pull-down configuration.
#[derive(Clone, Copy, PartialEq, Eq, Structural, Debug)]
pub enum Pupd {
    No,
    PullUp,
    PullDown,
}

/// The registers of one GPIO port, as plain values. The set/reset register
/// is folded into the output data register it acts on.
#[derive(Clone, Copy, PartialEq, Eq, Structural, Debug)]
pub struct GpioRegs {
    /// Mode register: two bits per pin.
    pub moder: u32,
    /// Input data register.
    pub idr: u32,
    /// Output data register.
    pub odr: u32,
    /// Output speed register: two bits per pin.
    pub ospeedr: u32,
    /// Pull-up/pull-down register: two bits per pin.
    pub pupdr: u32,
    /// Alternate function low register: four bits per pin 0 to 7.
    pub afrl: u32,
    /// Alternate function high register: four bits per pin 8 to 15.
    pub afrh: u32,
}

impl GpioRegs {
    /// The port after reset: everything zeroed.
    pub open spec fn reset() -> GpioRegs {
        GpioRegs { moder: 0, idr: 0, odr: 0, ospeedr: 0, pupdr: 0, afrl: 0, afrh: 0 }
    }

    /// Builds a port register model in its reset state.
    pub fn new() -> (r: GpioRegs)
        ensures
            r == GpioRegs::reset(),
    {
        GpioRegs { moder: 0, idr: 0, odr: 0, ospeedr: 0, pupdr: 0, afrl: 0, afrh: 0 }
    }
}

/// The two mode bits a pin mode encodes to.
pub open spec fn mode_bits(mode: Mode) -> u32 {
    match mode {
        Mode::Input => 0,
        Mode::Output => 1,
        Mode::AlternateFunction => 2,
        Mode::Analog => 3,
    }
}

/// The two speed bits a pin speed encodes to.
pub open spec fn speed_bits(speed: Speed) -> u32 {
    match speed {
        Speed::Low => 0,
        Speed::Medium => 1,
        Speed::Fast => 2,
        Speed::High => 3,
    }
}

/// The two pull bits a pull configuration encodes to.
pub open spec fn pupd_bits(pupd: Pupd) -> u32 {
    match pupd {
        Pupd::No => 0,
        Pupd::PullUp => 1,
        Pupd::PullDown => 2,
    }
}

/// Pin-level register operations on a port.
pub struct Gpio;

impl Gpio {
    /// Builds the port handle.
    pub fn new() -> Gpio {
        Gpio {}
    }

    /// Drives a pin high or low.
    pub fn set(port: &mut GpioRegs, pin_no: u32, data: Io)
        requires
            pin_no < 16,
        ensures
            *final(port) == (GpioRegs {
                odr: match data {
                    Io::High => old(port).odr | (1u32 << pin_no),
                    Io::Low => old(port).odr & !(1u32 << pin_no),
                },
                ..*old(port)
            }),
    {
        match data {
            Io::High => {
                port.odr = port.odr | (1u32 << pin_no);
            }
            Io::Low => {
                port.odr = port.odr & !(1u32 << pin_no);
            }
        }
    }

    /// Reads a pin's input level.
    pub fn get(port: &GpioRegs, pin_no: u32) -> (r: Io)
        requires
            pin_no < 32,
        ensures
            r == (if port.idr & (1u32 << pin_no) != 0 {
                Io::High
            } else {
                Io::Low
            }),
    {
        let value: bool = (port.idr & (1u32 << pin_no)) != 0;
        if value {
            Io::High
        } else {
            Io::Low
        }
    }

    /// Selects a pin's alternate function: four bits per pin, in the low
    /// register for pins 0 to 7 and in the high register above.
    pub fn alternate_function(port: &mut GpioRegs, pin_no: u32, mode: u8)
        requires
            pin_no < 16,
        ensures
            pin_no < 8 ==> *final(port) == (GpioRegs {
                afrl: (old(port).afrl & !(0b1111u32 << (pin_no * 4))) | ((mode as u32) << (pin_no
                    * 4)),
                ..*old(port)
            }),
            pin_no >= 8 ==> *final(port) == (GpioRegs {
                afrh: (old(port).afrh & !(0b1111u32 << ((pin_no - 8) * 4))) | ((mode as u32) << ((
                pin_no - 8) * 4)),
                ..*old(port)
            }),
    {
        if pin_no < 8 {
            let value: u32 = (mode as u32) << (pin_no * 4);
            let mask: u32 = !(0b1111u32 << (pin_no * 4));
            port.afrl = (port.afrl & mask) | value;
        } else {
            let value: u32 = (mode as u32) << ((pin_no - 8) * 4);
            let mask: u32 = !(0b1111u32 << ((pin_no - 8) * 4));
            port.afrh = (port.afrh & mask) | value;
        }
    }

    /// Sets a pin's mode field.
    pub fn set_mode(port: &mut GpioRegs, pin_no: u32, mode: Mode)
        requires
            pin_no < 16,
        ensures
            *final(port) == (GpioRegs {
                moder: (old(port).moder & !(0b11u32 << (pin_no * 2))) | (mode_bits(mode) << (pin_no
                    * 2)),
                ..*old(port)
            }),
    {
        let bits: u32 = match mode {
            Mode::Input => 0,
            Mode::Output => 1,
            Mode::AlternateFunction => 2,
            Mode::Analog => 3,
        };
        let value: u32 = bits << (pin_no * 2);
        let mask: u32 = !(0b11u32 << (pin_no * 2));
        port.moder = (port.moder & mask) | value;
    }

    /// Sets a pin's speed field.
    pub fn set_speed(port: &mut GpioRegs, pin_no: u32, speed: Speed)
        requires
            pin_no < 16,
        ensures
            *final(port) == (GpioRegs {
                ospeedr: (old(port).ospeedr & !(0b11u32 << (pin_no * 2))) | (speed_bits(speed) << (
                pin_no * 2)),
                ..*old(port)
            }),
    {
        let bits: u32 = match speed {
            Speed::Low => 0,
            Speed::Medium => 1,
            Speed::Fast => 2,
            Speed::High => 3,
        };
        let value: u32 = bits << (pin_no * 2);
        let mask: u32 = !(0b11u32 << (pin_no * 2));
        port.ospeedr = (port.ospeedr & mask) | value;
    }

    /// Sets a pin's pull field.
    pub fn set_pupd(port: &mut GpioRegs, pin_no: u32, pupd: Pupd)
        requires
            pin_no < 16,
        ensures
            *final(port) == (GpioRegs {
                pupdr: (old(port).pupdr & !(0b11u32 << (pin_no * 2))) | (pupd_bits(pupd) << (pin_no
                    * 2)),
                ..*old(port)
            }),
    {
        let bits: u32 = match pupd {
            Pupd::No => 0,
            Pupd::PullUp => 1,
            Pupd::PullDown => 2,
        };
        let value: u32 = bits << (pin_no * 2);
        let mask: u32 = !(0b11u32 << (pin_no * 2));
        port.pupdr = (port.pupdr & mask) | value;
    }
}

} // verus!
