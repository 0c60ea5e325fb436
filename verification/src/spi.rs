//! Error vocabulary and baud-rate selection of the serial peripheral
//! interface. The configuration surface and the DMA-driven transfers over
//! the register models live in the `spi2` module.

use vstd::prelude::*;
use crate::time::Hertz;

verus! {

/// An SPI error.
#[derive(Clone, Copy, PartialEq, Eq, Structural, Debug)]
pub enum Error {
    /// Overrun occurred.
    Overrun,
    /// Mode fault occurred.
    ModeFault,
    /// CRC error.
    Crc,
}

/// Which of the peripheral's data lines are in use.
#[derive(Clone, Copy, PartialEq, Eq, Structural, Debug)]
pub enum Direction {
    Bidirectional,
    BidirectionalRxOnly,
    Unidirectional,
}

/// How the slave-select line is driven.
#[derive(Clone, Copy, PartialEq, Eq, Structural, Debug)]
pub enum NSS {
    Soft,
    HardInput,
    HardOutput,
}

/// The prescaler bits that bring the bus clock down to at most the
/// requested frequency.
pub open spec fn prescaler_bits_of(ratio: int) -> u8 {
    if ratio <= 2 {
        0
    } else if ratio <= 5 {
        1
    } else if ratio <= 11 {
        2
    } else if ratio <= 23 {
        3
    } else if ratio <= 47 {
        4
    } else if ratio <= 95 {
        5
    } else if ratio <= 191 {
        6
    } else {
        7
    }
}

/// Selects the baud-rate prescaler bits for a requested frequency on a bus
/// running at `pclk`.
pub fn frequency_to_prescaler_bits(pclk: Hertz, freq: Hertz) -> (r: u8)
    requires
        1 <= freq.0 <= pclk.0,
    ensures
        r == prescaler_bits_of(pclk.0 as int / freq.0 as int),
        r <= 7,
{
    let ratio: u32 = pclk.0 / freq.0;
    if ratio <= 2 {
        0
    } else if ratio <= 5 {
        1
    } else if ratio <= 11 {
        2
    } else if ratio <= 23 {
        3
    } else if ratio <= 47 {
        4
    } else if ratio <= 95 {
        5
    } else if ratio <= 191 {
        6
    } else {
        7
    }
}

} // verus!
