//! Clock configuration: chooses the PLL and bus dividers for requested
//! frequencies and yields the resulting `Clocks` descriptor that the
//! peripheral drivers consume. The writes that carry the chosen divider
//! bits into the clock-control registers are the device glue's part.

use vstd::prelude::*;
use crate::time::Hertz;

verus! {

/// The internal oscillator frequency, in hertz.
pub const HSI: u32 = 16_000_000;

/// Which oscillator drives the system clock.
#[derive(Clone, Copy, PartialEq, Eq, Structural, Debug)]
pub enum ClockSource {
    Hsi,
    Hse,
    Pll,
}

/// Splits the clock-control peripheral into its configuration and
/// peripheral-enable surfaces.
pub trait RccExt {
    fn split(self) -> Rcc;
}

/// The clock-control peripheral, split into its two surfaces.
pub struct Rcc {
    pub cfgr: CFGR,
    pub enr: ENR,
}

impl Rcc {
    /// A fresh clock-control handle: nothing requested, nothing enabled.
    pub fn new() -> (r: Rcc)
        ensures
            r.cfgr.hclk_opt() is None,
            r.cfgr.pclk1_opt() is None,
            r.cfgr.pclk2_opt() is None,
            r.cfgr.sysclk_opt() is None,
            r.enr == ENR::reset(),
    {
        Rcc {
            cfgr: CFGR { hclk: None, pclk1: None, pclk2: None, sysclk: None },
            enr: ENR::new(),
        }
    }
}

/// The peripheral-clock enable bits, as plain values.
#[derive(Clone, Copy, PartialEq, Eq, Structural, Debug)]
pub struct ENR {
    pub gpioaen: bool,
    pub dma1en: bool,
    pub dma2en: bool,
    pub usart2en: bool,
    pub spi4en: bool,
    pub tim1en: bool,
}

impl ENR {
    /// All peripheral clocks gated off.
    pub open spec fn reset() -> ENR {
        ENR {
            gpioaen: false,
            dma1en: false,
            dma2en: false,
            usart2en: false,
            spi4en: false,
            tim1en: false,
        }
    }

    /// Builds the reset state of the enable bits.
    pub fn new() -> (r: ENR)
        ensures
            r == ENR::reset(),
    {
        ENR {
            gpioaen: false,
            dma1en: false,
            dma2en: false,
            usart2en: false,
            spi4en: false,
            tim1en: false,
        }
    }
}

/// Requested clock frequencies; whatever is left `None` falls back to a
/// default when the tree is frozen.
pub struct CFGR {
    hclk: Option<u32>,
    pclk1: Option<u32>,
    pclk2: Option<u32>,
    sysclk: Option<u32>,
}

/// The divider bits for one AHB ratio, as the prescaler field encodes them.
pub open spec fn hpre_bits_of(ratio: int) -> int {
    if ratio <= 1 {
        7
    } else if ratio == 2 {
        8
    } else if ratio <= 5 {
        9
    } else if ratio <= 11 {
        10
    } else if ratio <= 39 {
        11
    } else if ratio <= 95 {
        12
    } else if ratio <= 191 {
        13
    } else if ratio <= 383 {
        14
    } else {
        15
    }
}

/// The divider bits for one APB ratio, as the prescaler field encodes them.
pub open spec fn ppre_bits_of(ratio: int) -> int {
    if ratio <= 1 {
        3
    } else if ratio == 2 {
        4
    } else if ratio <= 5 {
        5
    } else if ratio <= 11 {
        6
    } else {
        7
    }
}

fn hpre_bits_exec(ratio: u32) -> (r: u32)
    requires
        ratio >= 1,
    ensures
        r == hpre_bits_of(ratio as int),
        7 <= r <= 15,
{
    if ratio == 1 {
        7
    } else if ratio == 2 {
        8
    } else if ratio <= 5 {
        9
    } else if ratio <= 11 {
        10
    } else if ratio <= 39 {
        11
    } else if ratio <= 95 {
        12
    } else if ratio <= 191 {
        13
    } else if ratio <= 383 {
        14
    } else {
        15
    }
}

fn ppre_bits_exec(ratio: u32) -> (r: u32)
    requires
        ratio >= 1,
    ensures
        r == ppre_bits_of(ratio as int),
        3 <= r <= 7,
{
    if ratio == 1 {
        3
    } else if ratio == 2 {
        4
    } else if ratio <= 5 {
        5
    } else if ratio <= 11 {
        6
    } else {
        7
    }
}

impl CFGR {
    /// The requested AHB frequency, if any.
    pub closed spec fn hclk_opt(self) -> Option<u32> {
        self.hclk
    }

    /// The requested APB1 frequency, if any.
    pub closed spec fn pclk1_opt(self) -> Option<u32> {
        self.pclk1
    }

    /// The requested APB2 frequency, if any.
    pub closed spec fn pclk2_opt(self) -> Option<u32> {
        self.pclk2
    }

    /// The requested system frequency, if any.
    pub closed spec fn sysclk_opt(self) -> Option<u32> {
        self.sysclk
    }

    /// Requests an AHB frequency.
    pub fn hclk(self, freq: Hertz) -> (r: CFGR)
        ensures
            r.hclk_opt() == Some(freq.0),
            r.pclk1_opt() == self.pclk1_opt(),
            r.pclk2_opt() == self.pclk2_opt(),
            r.sysclk_opt() == self.sysclk_opt(),
    {
        CFGR { hclk: Some(freq.0), ..self }
    }

    /// Requests an APB1 frequency.
    pub fn pclk1(self, freq: Hertz) -> (r: CFGR)
        ensures
            r.pclk1_opt() == Some(freq.0),
            r.hclk_opt() == self.hclk_opt(),
            r.pclk2_opt() == self.pclk2_opt(),
            r.sysclk_opt() == self.sysclk_opt(),
    {
        CFGR { pclk1: Some(freq.0), ..self }
    }

    /// Requests an APB2 frequency.
    pub fn pclk2(self, freq: Hertz) -> (r: CFGR)
        ensures
            r.pclk2_opt() == Some(freq.0),
            r.hclk_opt() == self.hclk_opt(),
            r.pclk1_opt() == self.pclk1_opt(),
            r.sysclk_opt() == self.sysclk_opt(),
    {
        CFGR { pclk2: Some(freq.0), ..self }
    }

    /// Requests a system frequency.
    pub fn sysclk(self, freq: Hertz) -> (r: CFGR)
        ensures
            r.sysclk_opt() == Some(freq.0),
            r.hclk_opt() == self.hclk_opt(),
            r.pclk1_opt() == self.pclk1_opt(),
            r.pclk2_opt() == self.pclk2_opt(),
    {
        CFGR { sysclk: Some(freq.0), ..self }
    }

    /// The system frequency the PLL will aim at.
    pub open spec fn pll_target(self) -> int {
        match self.sysclk_opt() {
            Some(s) => s as int,
            None => HSI as int,
        }
    }

    /// The PLL multiplier, clamped to its hardware range.
    pub open spec fn pllmul_spec(self) -> int {
        let raw = (4 * self.pll_target() + HSI) / (HSI as int) / 2;
        if raw < 2 {
            2
        } else if raw > 16 {
            16
        } else {
            raw
        }
    }

    /// The system frequency the PLL configuration reaches.
    pub open spec fn pll_sysclk(self) -> int {
        self.pllmul_spec() * (HSI as int) / 2
    }

    /// The AHB prescaler bits the PLL configuration selects.
    pub open spec fn pll_hpre_bits(self) -> int {
        match self.hclk_opt() {
            Some(h) => hpre_bits_of(self.pll_sysclk() / (h as int)),
            None => 7,
        }
    }

    /// The AHB frequency the PLL configuration reaches.
    pub open spec fn pll_hclk(self) -> int {
        self.pll_sysclk() / ((1u32 << ((self.pll_hpre_bits() - 7) as u32)) as int)
    }

    /// The APB1 prescaler bits the PLL configuration selects.
    pub open spec fn pll_ppre1_bits(self) -> int {
        match self.pclk1_opt() {
            Some(p) => ppre_bits_of(self.pll_hclk() / (p as int)),
            None => 3,
        }
    }

    /// The APB1 divider the PLL configuration selects.
    pub open spec fn pll_ppre1(self) -> int {
        (1u32 << ((self.pll_ppre1_bits() - 3) as u32)) as int
    }

    /// The APB1 frequency the PLL configuration reaches.
    pub open spec fn pll_pclk1(self) -> int {
        self.pll_hclk() / self.pll_ppre1()
    }

    /// The APB2 prescaler bits the PLL configuration selects.
    pub open spec fn pll_ppre2_bits(self) -> int {
        match self.pclk2_opt() {
            Some(p) => ppre_bits_of(self.pll_hclk() / (p as int)),
            None => 3,
        }
    }

    /// The APB2 divider the PLL configuration selects.
    pub open spec fn pll_ppre2(self) -> int {
        (1u32 << ((self.pll_ppre2_bits() - 3) as u32)) as int
    }

    /// The APB2 frequency the PLL configuration reaches.
    pub open spec fn pll_pclk2(self) -> int {
        self.pll_hclk() / self.pll_ppre2()
    }

    /// The requests for which the PLL configuration is defined: the
    /// multiplier computation stays in range, the reached system frequency
    /// is below the device limit, each requested bus frequency is nonzero
    /// and no higher than the clock it divides, and the APB1 bus stays under
    /// its own limit.
    pub open spec fn pll_ok(self) -> bool {
        &&& self.pll_target() <= 1_069_741_823
        &&& self.pll_sysclk() < 72_000_000
        &&& match self.hclk_opt() {
            Some(h) => 1 <= h <= self.pll_sysclk(),
            None => true,
        }
        &&& match self.pclk1_opt() {
            Some(p) => 1 <= p <= self.pll_hclk(),
            None => true,
        }
        &&& match self.pclk2_opt() {
            Some(p) => 1 <= p <= self.pll_hclk(),
            None => true,
        }
        &&& self.pll_pclk1() < 36_000_000
    }

    /// Freezes the clock tree: computes the frequencies that the chosen
    /// source reaches and returns them as a `Clocks` descriptor. With the
    /// internal or external oscillator everything runs at the oscillator
    /// frequency; with the PLL the requested frequencies select the
    /// multiplier and bus dividers.
    pub fn freeze(self, source: ClockSource) -> (r: Clocks)
        requires
            source is Pll ==> self.pll_ok(),
        ensures
            !(source is Pll) ==> {
                &&& r == Clocks::all_hsi()
                &&& r.hclk_spec() == Hertz(HSI)
                &&& r.pclk1_spec() == Hertz(HSI)
                &&& r.pclk2_spec() == Hertz(HSI)
                &&& r.sysclk_spec() == Hertz(HSI)
                &&& r.ppre1_spec() == 1
                &&& r.ppre2_spec() == 1
            },
            source is Pll ==> {
                &&& r.hclk_spec() == Hertz(self.pll_hclk() as u32)
                &&& r.pclk1_spec() == Hertz(self.pll_pclk1() as u32)
                &&& r.pclk2_spec() == Hertz(self.pll_pclk2() as u32)
                &&& r.sysclk_spec() == Hertz(self.pll_sysclk() as u32)
                &&& r.ppre1_spec() == self.pll_ppre1()
                &&& r.ppre2_spec() == self.pll_ppre2()
            },
    {
        match source {
            ClockSource::Hsi => self.hsi(),
            ClockSource::Hse => self.hsi(),
            ClockSource::Pll => self.pll(),
        }
    }

    fn hsi(self) -> (r: Clocks)
        ensures
            r == Clocks::all_hsi(),
    {
        Clocks {
            hclk: Hertz(HSI),
            pclk1: Hertz(HSI),
            pclk2: Hertz(HSI),
            ppre1: 1,
            ppre2: 1,
            sysclk: Hertz(HSI),
        }
    }

    fn pll(self) -> (r: Clocks)
        requires
            self.pll_ok(),
        ensures
            r.hclk_spec() == Hertz(self.pll_hclk() as u32),
            r.pclk1_spec() == Hertz(self.pll_pclk1() as u32),
            r.pclk2_spec() == Hertz(self.pll_pclk2() as u32),
            r.sysclk_spec() == Hertz(self.pll_sysclk() as u32),
            r.ppre1_spec() == self.pll_ppre1(),
            r.ppre2_spec() == self.pll_ppre2(),
    {
        let target: u32 = match self.sysclk {
            Some(s) => s,
            None => HSI,
        };
        let mut pllmul: u32 = (4 * target + HSI) / HSI / 2;
        if pllmul < 2 {
            pllmul = 2;
        }
        if pllmul > 16 {
            pllmul = 16;
        }
        let sysclk: u32 = pllmul * HSI / 2;
        assert(sysclk as int == self.pll_sysclk());

        let hpre_bits: u32 = match self.hclk {
            Some(h) => {
                proof {
                    let hi = h as int;
                    let si = sysclk as int;
                    assert(si / hi >= 1) by (nonlinear_arith)
                        requires
                            1 <= hi <= si,
                    ;
                }
                hpre_bits_exec(sysclk / h)
            }
            None => 7,
        };
        assert(hpre_bits as int == self.pll_hpre_bits());
        let hpre_shift: u32 = hpre_bits - 7;
        assert(1u32 << hpre_shift >= 1) by (bit_vector)
            requires
                hpre_shift <= 8,
        ;
        let hclk: u32 = sysclk / (1u32 << hpre_shift);
        assert(hclk as int == self.pll_hclk());

        let ppre1_bits: u32 = match self.pclk1 {
            Some(p) => {
                proof {
                    let pi = p as int;
                    let hc = hclk as int;
                    assert(hc / pi >= 1) by (nonlinear_arith)
                        requires
                            1 <= pi <= hc,
                    ;
                }
                ppre_bits_exec(hclk / p)
            }
            None => 3,
        };
        assert(ppre1_bits as int == self.pll_ppre1_bits());
        let ppre1_shift: u32 = ppre1_bits - 3;
        assert(1 <= (1u32 << ppre1_shift) <= 16) by (bit_vector)
            requires
                ppre1_shift <= 4,
        ;
        let ppre1: u32 = 1u32 << ppre1_shift;
        let pclk1: u32 = hclk / ppre1;

        let ppre2_bits: u32 = match self.pclk2 {
            Some(p) => {
                proof {
                    let pi = p as int;
                    let hc = hclk as int;
                    assert(hc / pi >= 1) by (nonlinear_arith)
                        requires
                            1 <= pi <= hc,
                    ;
                }
                ppre_bits_exec(hclk / p)
            }
            None => 3,
        };
        assert(ppre2_bits as int == self.pll_ppre2_bits());
        let ppre2_shift: u32 = ppre2_bits - 3;
        assert(1 <= (1u32 << ppre2_shift) <= 16) by (bit_vector)
            requires
                ppre2_shift <= 4,
        ;
        let ppre2: u32 = 1u32 << ppre2_shift;
        let pclk2: u32 = hclk / ppre2;

        Clocks {
            hclk: Hertz(hclk),
            pclk1: Hertz(pclk1),
            pclk2: Hertz(pclk2),
            ppre1: ppre1 as u8,
            ppre2: ppre2 as u8,
            sysclk: Hertz(sysclk),
        }
    }
}

/// The frozen clock tree: the frequencies the peripherals actually run at.
#[derive(Clone, Copy, PartialEq, Eq, Structural, Debug)]
pub struct Clocks {
    hclk: Hertz,
    pclk1: Hertz,
    pclk2: Hertz,
    ppre1: u8,
    ppre2: u8,
    sysclk: Hertz,
}

impl Clocks {
    /// The AHB frequency.
    pub closed spec fn hclk_spec(self) -> Hertz {
        self.hclk
    }

    /// The APB1 frequency.
    pub closed spec fn pclk1_spec(self) -> Hertz {
        self.pclk1
    }

    /// The APB2 frequency.
    pub closed spec fn pclk2_spec(self) -> Hertz {
        self.pclk2
    }

    /// The system frequency.
    pub closed spec fn sysclk_spec(self) -> Hertz {
        self.sysclk
    }

    /// The APB1 divider.
    pub closed spec fn ppre1_spec(self) -> int {
        self.ppre1 as int
    }

    /// The APB2 divider.
    pub closed spec fn ppre2_spec(self) -> int {
        self.ppre2 as int
    }

    /// The clock tree when everything runs straight off the internal
    /// oscillator.
    pub closed spec fn all_hsi() -> Clocks {
        Clocks {
            hclk: Hertz(HSI),
            pclk1: Hertz(HSI),
            pclk2: Hertz(HSI),
            ppre1: 1,
            ppre2: 1,
            sysclk: Hertz(HSI),
        }
    }

    /// The AHB frequency.
    pub fn hclk(&self) -> (r: Hertz)
        ensures
            r == self.hclk_spec(),
    {
        self.hclk
    }

    /// The APB1 frequency.
    pub fn pclk1(&self) -> (r: Hertz)
        ensures
            r == self.pclk1_spec(),
    {
        self.pclk1
    }

    /// The APB2 frequency.
    pub fn pclk2(&self) -> (r: Hertz)
        ensures
            r == self.pclk2_spec(),
    {
        self.pclk2
    }

    /// The APB1 divider.
    pub(crate) fn ppre1(&self) -> (r: u8)
        ensures
            r as int == self.ppre1_spec(),
    {
        self.ppre1
    }

    /// The APB2 divider.
    pub(crate) fn ppre2(&self) -> (r: u8)
        ensures
            r as int == self.ppre2_spec(),
    {
        self.ppre2
    }

    /// The system frequency.
    pub fn sysclk(&self) -> (r: Hertz)
        ensures
            r == self.sysclk_spec(),
    {
        self.sysclk
    }
}

} // verus!
