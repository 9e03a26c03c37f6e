//! The system configuration block: clocks, power and wake-up.

use vstd::prelude::*;

verus! {

/// The registers of the system configuration block that the drivers use.
#[derive(Clone, Copy, Debug, PartialEq, Eq)]
pub struct Syscon {
    /// System PLL control: feedback divider in bits 4..0, post divider in 6..5.
    pub syspllctrl: u32,
    /// System PLL status: bit 0 is set once the PLL has locked.
    pub syspllstat: u32,
    /// Watchdog oscillator control: divider in bits 4..0, frequency in 8..5.
    pub wdtoscctrl: u32,
    /// System PLL clock source.
    pub syspllclksel: u32,
    /// Main clock source.
    pub mainclksel: u32,
    /// System clock divider, bits 7..0.
    pub sysahbclkdiv: u32,
    /// System clock control: one bit per peripheral clock.
    pub sysahbclkctrl: u32,
    /// USART clock divider, bits 7..0.
    pub uartclkdiv: u32,
    /// Clock output source.
    pub clkoutsel: u32,
    /// Pin selected for each of the eight pin interrupts.
    pub pintsel: [u32; 8],
    /// Start logic 0: one bit per pin interrupt.
    pub starterp0: u32,
    /// Start logic 1: one bit per peripheral interrupt.
    pub starterp1: u32,
    /// Power configuration in deep-sleep mode.
    pub pdsleepcfg: u32,
    /// Power configuration after wake-up.
    pub pdawakecfg: u32,
    /// Power configuration while running.
    pub pdruncfg: u32,
}

// Bits of `sysahbclkctrl`.
pub const CLK_GPIO: u32 = 6;
pub const CLK_CT16B0: u32 = 7;
pub const CLK_CT16B1: u32 = 8;
pub const CLK_CT32B0: u32 = 9;
pub const CLK_CT32B1: u32 = 10;
pub const CLK_USART: u32 = 12;
pub const CLK_ADC: u32 = 13;
pub const CLK_WWDT: u32 = 15;
pub const CLK_IOCON: u32 = 16;
pub const CLK_PINT: u32 = 19;
pub const CLK_GROUP0INT: u32 = 23;
pub const CLK_GROUP1INT: u32 = 24;

// Bits of `pdruncfg`, `pdawakecfg` and `pdsleepcfg`. A set bit powers the
// block down.
pub const PD_IRCOUT: u32 = 0;
pub const PD_IRC: u32 = 1;
pub const PD_BOD: u32 = 3;
pub const PD_ADC: u32 = 4;
pub const PD_SYSOSC: u32 = 5;
pub const PD_WDTOSC: u32 = 6;
pub const PD_SYSPLL: u32 = 7;

// Bits of `starterp1`.
pub const START_WWDT: u32 = 12;
pub const START_BOD: u32 = 13;
pub const START_USB_WAKEUP: u32 = 19;
pub const START_GPIOINT0: u32 = 20;
pub const START_GPIOINT1: u32 = 21;

// Fields of `syspllctrl`.
pub const PLL_MSEL_OFFSET: u32 = 0;
pub const PLL_MSEL_WIDTH: u32 = 5;
pub const PLL_PSEL_OFFSET: u32 = 5;
pub const PLL_PSEL_WIDTH: u32 = 2;

/// Bit of `syspllstat` that is set once the PLL has locked.
pub const PLL_LOCK: u32 = 0;

// Fields of `wdtoscctrl`.
pub const WDTOSC_DIVSEL_OFFSET: u32 = 0;
pub const WDTOSC_DIVSEL_WIDTH: u32 = 5;
pub const WDTOSC_FREQSEL_OFFSET: u32 = 5;
pub const WDTOSC_FREQSEL_WIDTH: u32 = 4;

// The clock selectors are two bits wide and the dividers eight.
pub const CLKSEL_OFFSET: u32 = 0;
pub const CLKSEL_WIDTH: u32 = 2;
pub const CLKDIV_OFFSET: u32 = 0;
pub const CLKDIV_WIDTH: u32 = 8;

// Values of the clock selectors.
pub const PLLCLKSEL_CRYSTAL: u32 = 1;
pub const MAINCLKSEL_WATCHDOG: u32 = 2;
pub const MAINCLKSEL_PLL_OUTPUT: u32 = 3;
pub const CLKOUTSEL_MAIN_CLOCK: u32 = 3;

impl Syscon {
    /// A block with every register cleared.
    pub fn new() -> (s: Syscon)
        ensures
            s.syspllctrl == 0,
            s.syspllstat == 0,
            s.wdtoscctrl == 0,
            s.syspllclksel == 0,
            s.mainclksel == 0,
            s.sysahbclkdiv == 0,
            s.sysahbclkctrl == 0,
            s.uartclkdiv == 0,
            s.clkoutsel == 0,
            s.pintsel@ == Seq::new(8, |i: int| 0u32),
            s.starterp0 == 0,
            s.starterp1 == 0,
            s.pdsleepcfg == 0,
            s.pdawakecfg == 0,
            s.pdruncfg == 0,
    {
        let s = Syscon {
            syspllctrl: 0,
            syspllstat: 0,
            wdtoscctrl: 0,
            syspllclksel: 0,
            mainclksel: 0,
            sysahbclkdiv: 0,
            sysahbclkctrl: 0,
            uartclkdiv: 0,
            clkoutsel: 0,
            pintsel: [0, 0, 0, 0, 0, 0, 0, 0],
            starterp0: 0,
            starterp1: 0,
            pdsleepcfg: 0,
            pdawakecfg: 0,
            pdruncfg: 0,
        };
        assert(s.pintsel@ =~= Seq::new(8, |i: int| 0u32));
        s
    }
}

} // verus!
