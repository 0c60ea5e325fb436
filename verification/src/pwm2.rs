//! Pulse-width modulation on an advanced timer: output-compare setup, duty
//! handling, and period programming over a register model.

use vstd::prelude::*;
use crate::timer::{arr_of, psc_of, timeout_ok, Channel};

verus! {

/// The registers of the PWM timer, as plain values.
#[derive(Clone, Copy, PartialEq, Eq, Structural, Debug)]
pub struct PwmRegs {
    /// Output-compare preload enable, one per channel.
    pub oc1pe: bool,
    pub oc2pe: bool,
    pub oc3pe: bool,
    pub oc4pe: bool,
    /// Output-compare mode bits, one field per channel.
    pub oc1m: u8,
    pub oc2m: u8,
    pub oc3m: u8,
    pub oc4m: u8,
    /// Output polarity, one per channel.
    pub cc1p: bool,
    pub cc2p: bool,
    pub cc3p: bool,
    pub cc4p: bool,
    /// Output enable, one per channel.
    pub cc1e: bool,
    pub cc2e: bool,
    pub cc3e: bool,
    pub cc4e: bool,
    /// Main output enable.
    pub moe: bool,
    /// Prescaler register.
    pub psc: u16,
    /// Auto-reload register.
    pub arr: u16,
    /// Center-aligned-mode bits.
    pub cms: u8,
    /// Down-counting direction bit.
    pub dir_down: bool,
    /// One-pulse-mode bit.
    pub opm: bool,
    /// Counter enable.
    pub cen: bool,
    /// Capture/compare registers, one per channel.
    pub ccr1: u16,
    pub ccr2: u16,
    pub ccr3: u16,
    pub ccr4: u16,
}

impl PwmRegs {
    /// The timer after reset: everything cleared.
    pub open spec fn reset() -> PwmRegs {
        PwmRegs {
            oc1pe: false,
            oc2pe: false,
            oc3pe: false,
            oc4pe: false,
            oc1m: 0,
            oc2m: 0,
            oc3m: 0,
            oc4m: 0,
            cc1p: false,
            cc2p: false,
            cc3p: false,
            cc4p: false,
            cc1e: false,
            cc2e: false,
            cc3e: false,
            cc4e: false,
            moe: false,
            psc: 0,
            arr: 0,
            cms: 0,
            dir_down: false,
            opm: false,
            cen: false,
            ccr1: 0,
            ccr2: 0,
            ccr3: 0,
            ccr4: 0,
        }
    }

    /// Builds the register model in its reset state.
    pub fn new() -> (r: PwmRegs)
        ensures
            r == PwmRegs::reset(),
    {
        PwmRegs {
            oc1pe: false,
            oc2pe: false,
            oc3pe: false,
            oc4pe: false,
            oc1m: 0,
            oc2m: 0,
            oc3m: 0,
            oc4m: 0,
            cc1p: false,
            cc2p: false,
            cc3p: false,
            cc4p: false,
            cc1e: false,
            cc2e: false,
            cc3e: false,
            cc4e: false,
            moe: false,
            psc: 0,
            arr: 0,
            cms: 0,
            dir_down: false,
            opm: false,
            cen: false,
            ccr1: 0,
            ccr2: 0,
            ccr3: 0,
            ccr4: 0,
        }
    }
}

/// The PWM driver over one advanced timer.
pub struct Pwm {
    token: (),
}

impl Pwm {
    /// Builds the driver handle.
    pub fn new() -> Pwm {
        Pwm { token: () }
    }

    /// Initializes the PWM module: output-compare mode 1 with preload on
    /// all four channels, active-high polarity, main output on, the given
    /// period, down-counting edge-aligned continuous mode, and the counter
    /// running.
    pub fn init(&self, regs: &mut PwmRegs, period: u32)
        requires
            timeout_ok(period),
        ensures
            *final(regs) == (PwmRegs {
                oc1pe: true,
                oc2pe: true,
                oc3pe: true,
                oc4pe: true,
                oc1m: 6,
                oc2m: 6,
                oc3m: 6,
                oc4m: 6,
                cc1p: false,
                cc2p: false,
                cc3p: false,
                cc4p: false,
                moe: true,
                psc: psc_of(period) as u16,
                arr: arr_of(period) as u16,
                cms: 0,
                dir_down: true,
                opm: false,
                cen: true,
                ..*old(regs)
            }),
    {
        regs.oc1pe = true;
        regs.oc1m = 6;
        regs.oc2pe = true;
        regs.oc2m = 6;
        regs.oc3pe = true;
        regs.oc3m = 6;
        regs.oc4pe = true;
        regs.oc4m = 6;
        regs.cc1p = false;
        regs.cc2p = false;
        regs.cc3p = false;
        regs.cc4p = false;
        regs.moe = true;
        self.set_period(regs, period);
        regs.cms = 0;
        regs.dir_down = true;
        regs.opm = false;
        regs.cen = true;
    }

    /// Splits a period into prescaler and reload values and programs them.
    pub fn set_period(&self, regs: &mut PwmRegs, period: u32)
        requires
            timeout_ok(period),
        ensures
            *final(regs) == (PwmRegs {
                psc: psc_of(period) as u16,
                arr: arr_of(period) as u16,
                ..*old(regs)
            }),
    {
        let psc_wide: u32 = (period - 1) / 0x10000;
        regs.psc = psc_wide as u16;
        let arr_wide: u32 = period / (psc_wide + 1);
        regs.arr = arr_wide as u16;
    }

    /// The period the timer is programmed with: prescaler times reload, as
    /// the hardware multiplies them.
    pub fn get_period(&self, regs: &PwmRegs) -> (r: u32)
        ensures
            r == regs.psc * regs.arr,
    {
        proof {
            let p = regs.psc as int;
            let a = regs.arr as int;
            assert(p * a <= 0xFFFF_FFFF) by (nonlinear_arith)
                requires
                    0 <= p <= 0xFFFF,
                    0 <= a <= 0xFFFF,
            ;
        }
        regs.psc as u32 * regs.arr as u32
    }

    /// Switches one channel's output off.
    pub fn disable(&self, regs: &mut PwmRegs, channel: Channel)
        ensures
            channel is _1 ==> *final(regs) == (PwmRegs { cc1e: false, ..*old(regs) }),
            channel is _2 ==> *final(regs) == (PwmRegs { cc2e: false, ..*old(regs) }),
            channel is _3 ==> *final(regs) == (PwmRegs { cc3e: false, ..*old(regs) }),
            channel is _4 ==> *final(regs) == (PwmRegs { cc4e: false, ..*old(regs) }),
    {
        match channel {
            Channel::_1 => {
                regs.cc1e = false;
            }
            Channel::_2 => {
                regs.cc2e = false;
            }
            Channel::_3 => {
                regs.cc3e = false;
            }
            Channel::_4 => {
                regs.cc4e = false;
            }
        }
    }

    /// Switches one channel's output on.
    pub fn enable(&self, regs: &mut PwmRegs, channel: Channel)
        ensures
            channel is _1 ==> *final(regs) == (PwmRegs { cc1e: true, ..*old(regs) }),
            channel is _2 ==> *final(regs) == (PwmRegs { cc2e: true, ..*old(regs) }),
            channel is _3 ==> *final(regs) == (PwmRegs { cc3e: true, ..*old(regs) }),
            channel is _4 ==> *final(regs) == (PwmRegs { cc4e: true, ..*old(regs) }),
    {
        match channel {
            Channel::_1 => {
                regs.cc1e = true;
            }
            Channel::_2 => {
                regs.cc2e = true;
            }
            Channel::_3 => {
                regs.cc3e = true;
            }
            Channel::_4 => {
                regs.cc4e = true;
            }
        }
    }

    /// One channel's current duty value.
    pub fn get_duty(&self, regs: &PwmRegs, channel: Channel) -> (r: u16)
        ensures
            channel is _1 ==> r == regs.ccr1,
            channel is _2 ==> r == regs.ccr2,
            channel is _3 ==> r == regs.ccr3,
            channel is _4 ==> r == regs.ccr4,
    {
        match channel {
            Channel::_1 => regs.ccr1,
            Channel::_2 => regs.ccr2,
            Channel::_3 => regs.ccr3,
            Channel::_4 => regs.ccr4,
        }
    }

    /// The duty value that spans the whole period.
    pub fn get_max_duty(&self, regs: &PwmRegs) -> (r: u16)
        ensures
            r == regs.arr,
    {
        regs.arr
    }

    /// Sets one channel's duty value.
    pub fn set_duty(&self, regs: &mut PwmRegs, channel: Channel, duty: u16)
        ensures
            channel is _1 ==> *final(regs) == (PwmRegs { ccr1: duty, ..*old(regs) }),
            channel is _2 ==> *final(regs) == (PwmRegs { ccr2: duty, ..*old(regs) }),
            channel is _3 ==> *final(regs) == (PwmRegs { ccr3: duty, ..*old(regs) }),
            channel is _4 ==> *final(regs) == (PwmRegs { ccr4: duty, ..*old(regs) }),
    {
        match channel {
            Channel::_1 => {
                regs.ccr1 = duty;
            }
            Channel::_2 => {
                regs.ccr2 = duty;
            }
            Channel::_3 => {
                regs.ccr3 = duty;
            }
            Channel::_4 => {
                regs.ccr4 = duty;
            }
        }
    }
}

} // verus!
