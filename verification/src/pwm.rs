//! A PWM channel as an owned pin wrapper, and the divider computation that
//! turns a requested frequency into prescaler and reload values.

use vstd::prelude::*;
use vstd::arithmetic::div_mod::{lemma_fundamental_div_mod, lemma_multiply_divide_lt};
use crate::pwm2::PwmRegs;
use crate::rcc::{Clocks, ENR};
use crate::time::Hertz;

verus! {

/// Marker: channel 1 of the advanced timer.
pub struct T1C1 {
    token: (),
}

impl T1C1 {
    /// Builds the channel marker.
    pub fn new() -> T1C1 {
        T1C1 { token: () }
    }
}

/// Turns a timer and a set of pins into PWM channels.
pub trait PwmExt<Pins> {
    type Channels;

    type Time;

    fn pwm(self, pins: Pins, frequency: u32, clocks: Clocks, enr: &mut ENR) -> Self::Channels;
}

/// One PWM channel holding its output pin; the pin comes back when the
/// channel is given up.
pub struct Pwm<CHANNEL, PIN> {
    channel: CHANNEL,
    pin: PIN,
}

impl<CHANNEL, PIN> Pwm<CHANNEL, PIN> {
    /// The wrapped pin.
    pub closed spec fn pin_spec(self) -> PIN {
        self.pin
    }

    /// Wraps a pin as a PWM channel.
    pub fn new(channel: CHANNEL, pin: PIN) -> (p: Pwm<CHANNEL, PIN>)
        ensures
            p.pin_spec() == pin,
    {
        Pwm { channel, pin }
    }
}

impl<PIN> Pwm<T1C1, PIN> {
    /// Gives the channel up: switches its output off and returns the pin.
    pub fn unwrap(self, regs: &mut PwmRegs) -> (pin: PIN)
        ensures
            pin == self.pin_spec(),
            *final(regs) == (PwmRegs { cc2e: false, ..*old(regs) }),
    {
        regs.cc2e = false;
        self.pin
    }

    /// Switches the channel's output off.
    pub fn disable(&mut self, regs: &mut PwmRegs)
        ensures
            *final(regs) == (PwmRegs { cc2e: false, ..*old(regs) }),
    {
        regs.cc2e = false;
    }

    /// Switches the channel's output on.
    pub fn enable(&mut self, regs: &mut PwmRegs)
        ensures
            *final(regs) == (PwmRegs { cc2e: true, ..*old(regs) }),
    {
        regs.cc2e = true;
    }

    /// The channel's current duty value.
    pub fn get_duty(&self, regs: &PwmRegs) -> (r: u16)
        ensures
            r == regs.ccr2,
    {
        regs.ccr2
    }

    /// The duty value that spans the whole period.
    pub fn get_max_duty(&self, regs: &PwmRegs) -> (r: u16)
        ensures
            r == regs.arr,
    {
        regs.arr
    }

    /// Sets the channel's duty value.
    pub fn set_duty(&mut self, regs: &mut PwmRegs, duty: u16)
        ensures
            *final(regs) == (PwmRegs { ccr2: duty, ..*old(regs) }),
    {
        regs.ccr2 = duty;
    }
}

/// The timer clock for a bus: the bus frequency, doubled unless the bus
/// runs undivided.
pub open spec fn timer_clock(pclk: u32, ppre: u8) -> int {
    if ppre == 1 {
        pclk as int
    } else {
        2 * pclk as int
    }
}

/// The number of timer ticks per period for a requested frequency.
pub open spec fn ticks_of(pclk: u32, ppre: u8, freq: u32) -> int {
    timer_clock(pclk, ppre) / (freq as int)
}

/// Splits a requested PWM frequency into prescaler and reload values, from
/// the frozen clock tree: the timer runs off the doubled bus clock unless
/// the bus is undivided, and the tick count per period is split so that
/// both halves fit their registers.
pub fn pwm_dividers(pclk2: Hertz, ppre2: u8, freq: Hertz) -> (r: (u16, u16))
    requires
        freq.0 >= 1,
        ppre2 != 1 ==> pclk2.0 <= 0x7FFF_FFFF,
    ensures
        r.0 as int == ticks_of(pclk2.0, ppre2, freq.0) / 0x10000,
        r.1 as int == ticks_of(pclk2.0, ppre2, freq.0) / (ticks_of(pclk2.0, ppre2, freq.0)
            / 0x10000 + 1),
{
    let clk: u32 = if ppre2 == 1 {
        pclk2.0
    } else {
        2 * pclk2.0
    };
    let ticks: u32 = clk / freq.0;
    let psc_wide: u32 = ticks / 0x10000;
    let arr_wide: u32 = ticks / (psc_wide + 1);
    proof {
        let t = ticks as int;
        let p = psc_wide as int;
        lemma_fundamental_div_mod(t, 0x10000);
        assert(t < (p + 1) * 0x10000);
        lemma_multiply_divide_lt(t, p + 1, 0x10000);
    }
    (psc_wide as u16, arr_wide as u16)
}

} // verus!
