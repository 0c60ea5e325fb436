//! Periodic timers: prescaler and reload computation from a tick count,
//! and the pause/resume/expire surface over a register model.

use vstd::prelude::*;

verus! {

/// Channel associated to a timer.
#[derive(Clone, Copy, PartialEq, Eq, Structural, Debug)]
pub enum Channel {
    _1,
    _2,
    _3,
    _4,
}

/// The configuration surface a basic timer offers.
pub trait TIMBase {
    fn init(&mut self, timeout: u32);

    fn set_timeout(&mut self, timeout: u32);
}

/// The registers of one timer, as plain values.
#[derive(Clone, Copy, PartialEq, Eq, Structural, Debug)]
pub struct TimerRegs {
    /// Prescaler register.
    pub psc: u16,
    /// Auto-reload register.
    pub arr: u16,
    /// One-pulse-mode bit.
    pub opm: bool,
    /// Update-interrupt enable.
    pub uie: bool,
    /// Counter enable.
    pub cen: bool,
    /// The running counter.
    pub cnt: u32,
    /// Update-event status flag.
    pub uif: bool,
}

impl TimerRegs {
    /// The timer after reset: everything cleared.
    pub open spec fn reset() -> TimerRegs {
        TimerRegs { psc: 0, arr: 0, opm: false, uie: false, cen: false, cnt: 0, uif: false }
    }

    /// Builds the register model in its reset state.
    pub fn new() -> (r: TimerRegs)
        ensures
            r == TimerRegs::reset(),
    {
        TimerRegs { psc: 0, arr: 0, opm: false, uie: false, cen: false, cnt: 0, uif: false }
    }
}

/// The prescaler value a period of `timeout` ticks is split into.
pub open spec fn psc_of(timeout: u32) -> int {
    (timeout - 1) / 0x10000
}

/// The reload value that, with the prescaler, spans a period of `timeout`
/// ticks.
pub open spec fn arr_of(timeout: u32) -> int {
    (timeout as int) / (psc_of(timeout) + 1)
}

/// The periods a timer can be programmed with: nonzero, and such that the
/// reload value fits its register.
pub open spec fn timeout_ok(timeout: u32) -> bool {
    &&& timeout >= 1
    &&& arr_of(timeout) <= 0xFFFF
}

/// One timer instance.
pub struct Timer {
    token: (),
}

impl Timer {
    /// Builds the timer handle.
    pub fn new() -> Timer {
        Timer { token: () }
    }

    /// Programs a periodic timeout and arms the update interrupt; the timer
    /// is left in continuous mode and paused.
    pub fn init(&self, regs: &mut TimerRegs, timeout: u32)
        requires
            timeout_ok(timeout),
        ensures
            *final(regs) == (TimerRegs {
                psc: psc_of(timeout) as u16,
                arr: arr_of(timeout) as u16,
                opm: false,
                cen: false,
                uie: true,
                ..*old(regs)
            }),
    {
        self.set_timeout(regs, timeout);
        regs.opm = false;
        regs.cen = false;
        regs.uie = true;
    }

    /// Splits a period into prescaler and reload values and programs them.
    pub fn set_timeout(&self, regs: &mut TimerRegs, timeout: u32)
        requires
            timeout_ok(timeout),
        ensures
            *final(regs) == (TimerRegs {
                psc: psc_of(timeout) as u16,
                arr: arr_of(timeout) as u16,
                ..*old(regs)
            }),
    {
        let psc_wide: u32 = (timeout - 1) / 0x10000;
        let psc: u16 = psc_wide as u16;
        let arr_wide: u32 = timeout / (psc_wide + 1);
        let arr: u16 = arr_wide as u16;
        regs.psc = psc;
        regs.arr = arr;
    }

    /// The period the timer is programmed with, in ticks.
    pub fn get_timeout(&self, regs: &TimerRegs) -> (r: u32)
        ensures
            r == (regs.psc + 1) * regs.arr,
    {
        proof {
            let p = regs.psc as int;
            let a = regs.arr as int;
            assert((p + 1) * a <= 0xFFFF_FFFF) by (nonlinear_arith)
                requires
                    0 <= p <= 0xFFFF,
                    0 <= a <= 0xFFFF,
            ;
        }
        (regs.psc as u32 + 1) * regs.arr as u32
    }

    /// Stops the counter.
    pub fn pause(&self, regs: &mut TimerRegs)
        ensures
            *final(regs) == (TimerRegs { cen: false, ..*old(regs) }),
    {
        regs.cen = false;
    }

    /// Rewinds the counter to zero.
    pub fn restart(&self, regs: &mut TimerRegs)
        ensures
            *final(regs) == (TimerRegs { cnt: 0, ..*old(regs) }),
    {
        regs.cnt = 0;
    }

    /// Starts the counter.
    pub fn resume(&self, regs: &mut TimerRegs)
        ensures
            *final(regs) == (TimerRegs { cen: true, ..*old(regs) }),
    {
        regs.cen = true;
    }

    /// Polls for the periodic update event. When the update flag is set it
    /// is cleared and the poll reports the period as elapsed; otherwise
    /// nothing changes and the caller retries.
    pub fn wait(&self, regs: &mut TimerRegs) -> (r: bool)
        ensures
            old(regs).uif ==> r && *final(regs) == (TimerRegs { uif: false, ..*old(regs) }),
            !old(regs).uif ==> !r && *final(regs) == *old(regs),
    {
        if regs.uif {
            regs.uif = false;
            true
        } else {
            false
        }
    }
}

} // verus!
