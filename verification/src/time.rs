//! Frequency and baud-rate units.

use vstd::prelude::*;

verus! {

/// A frequency in hertz.
#[derive(Clone, Copy, PartialEq, Eq, Structural, Debug)]
pub struct Hertz(pub u32);

/// A serial baud rate in bits per second.
#[derive(Clone, Copy, PartialEq, Eq, Structural, Debug)]
pub struct Bps(pub u32);

} // verus!
