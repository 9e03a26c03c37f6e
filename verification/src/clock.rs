//! Clock configuration: the system PLL, the system clock divider and the
//! windowed watchdog.

use crate::bits::{bit, get_bit, lemma_with_bit_absorbs, set_bit, set_field, with_bit, with_field};
use crate::error::DriverError;
use crate::nvic::{Interrupt, Nvic};
use crate::syscon::{Syscon, CLKDIV_OFFSET, CLKDIV_WIDTH, CLKOUTSEL_MAIN_CLOCK, CLKSEL_OFFSET,
    CLKSEL_WIDTH, CLK_WWDT, MAINCLKSEL_PLL_OUTPUT, MAINCLKSEL_WATCHDOG, PD_IRC, PD_IRCOUT,
    PD_SYSOSC, PD_SYSPLL, PD_WDTOSC, PLLCLKSEL_CRYSTAL, PLL_LOCK, PLL_MSEL_OFFSET, PLL_MSEL_WIDTH,
    PLL_PSEL_OFFSET, PLL_PSEL_WIDTH, START_WWDT, WDTOSC_DIVSEL_OFFSET, WDTOSC_DIVSEL_WIDTH,
    WDTOSC_FREQSEL_OFFSET, WDTOSC_FREQSEL_WIDTH};
use vstd::prelude::*;

verus! {

/// The clock that drives the watchdog.
#[derive(Clone, Copy, Debug, PartialEq, Eq, Structural)]
pub enum WatchdogClock {
    /// The internal RC oscillator.
    Irc,
    /// The watchdog oscillator.
    WatchdogOscillator,
}

/// The frequency of the watchdog oscillator before it is divided.
#[derive(Clone, Copy, Debug, PartialEq, Eq, Structural)]
pub enum WatchdogFrequency {
    Mhz0_6,
    Mhz1_05,
    Mhz1_4,
    Mhz1_75,
    Mhz2_1,
    Mhz2_4,
    Mhz2_7,
    Mhz3_0,
    Mhz3_25,
    Mhz3_5,
    Mhz3_75,
    Mhz4_0,
    Mhz4_2,
    Mhz4_4,
    Mhz4_6,
}

/// The windowed watchdog block.
#[derive(Clone, Debug, PartialEq, Eq)]
pub struct Wwdt {
    /// The mode register.
    pub mod_: u32,
    /// The time-out value, bits 23..0.
    pub tc: u32,
    /// The feed register is write-only: the bytes written to it, oldest
    /// first.
    pub feed: Vec<u8>,
    /// The clock source, bit 0.
    pub clksel: u32,
    /// The counter value at which the warning interrupt is raised, bits 9..0.
    pub warnint: u32,
}

// Bits of the mode register.
pub const MOD_WDEN: u32 = 0;
pub const MOD_WDRESET: u32 = 1;
pub const MOD_WDINT: u32 = 3;
pub const MOD_LOCK: u32 = 5;

/// Bit of `clksel` that selects the watchdog oscillator.
pub const WDCLKSEL: u32 = 0;

pub const TC_OFFSET: u32 = 0;
pub const TC_WIDTH: u32 = 24;
pub const WARNINT_OFFSET: u32 = 0;
pub const WARNINT_WIDTH: u32 = 10;

/// Largest time-out value.
pub const TIMER_CONSTANT_MAX: u32 = 0xFF_FF_FF;

/// Largest warning value.
pub const WARNINT_MAX: u16 = 0x3_FF;

/// Largest post divider selector of the PLL.
pub const PSEL_MAX: u8 = 0x3;

/// Smallest and largest divider of the watchdog oscillator.
pub const DIVIDER_MIN: u8 = 2;
pub const DIVIDER_MAX: u8 = 64;

/// The two bytes that feed the watchdog, in the order they are written.
pub const FEED_FIRST: u8 = 0xAA;
pub const FEED_SECOND: u8 = 0x55;

impl WatchdogFrequency {
    /// The value of the frequency selector.
    pub open spec fn selector(self) -> u32 {
        match self {
            WatchdogFrequency::Mhz0_6 => 0x1,
            WatchdogFrequency::Mhz1_05 => 0x2,
            WatchdogFrequency::Mhz1_4 => 0x3,
            WatchdogFrequency::Mhz1_75 => 0x4,
            WatchdogFrequency::Mhz2_1 => 0x5,
            WatchdogFrequency::Mhz2_4 => 0x6,
            WatchdogFrequency::Mhz2_7 => 0x7,
            WatchdogFrequency::Mhz3_0 => 0x8,
            WatchdogFrequency::Mhz3_25 => 0x9,
            WatchdogFrequency::Mhz3_5 => 0xA,
            WatchdogFrequency::Mhz3_75 => 0xB,
            WatchdogFrequency::Mhz4_0 => 0xC,
            WatchdogFrequency::Mhz4_2 => 0xD,
            WatchdogFrequency::Mhz4_4 => 0xE,
            WatchdogFrequency::Mhz4_6 => 0xF,
        }
    }

    /// The value of the frequency selector.
    pub fn bits(self) -> (b: u32)
        ensures
            b == self.selector(),
            1 <= b <= 15,
    {
        match self {
            WatchdogFrequency::Mhz0_6 => 0x1,
            WatchdogFrequency::Mhz1_05 => 0x2,
            WatchdogFrequency::Mhz1_4 => 0x3,
            WatchdogFrequency::Mhz1_75 => 0x4,
            WatchdogFrequency::Mhz2_1 => 0x5,
            WatchdogFrequency::Mhz2_4 => 0x6,
            WatchdogFrequency::Mhz2_7 => 0x7,
            WatchdogFrequency::Mhz3_0 => 0x8,
            WatchdogFrequency::Mhz3_25 => 0x9,
            WatchdogFrequency::Mhz3_5 => 0xA,
            WatchdogFrequency::Mhz3_75 => 0xB,
            WatchdogFrequency::Mhz4_0 => 0xC,
            WatchdogFrequency::Mhz4_2 => 0xD,
            WatchdogFrequency::Mhz4_4 => 0xE,
            WatchdogFrequency::Mhz4_6 => 0xF,
        }
    }
}

impl Wwdt {
    /// A block with every register cleared and nothing fed.
    pub fn new() -> (w: Wwdt)
        ensures
            w.mod_ == 0,
            w.tc == 0,
            w.feed@ == Seq::<u8>::empty(),
            w.clksel == 0,
            w.warnint == 0,
    {
        Wwdt { mod_: 0, tc: 0, feed: Vec::new(), clksel: 0, warnint: 0 }
    }
}

/// The system configuration with the PLL set up and powered: the system
/// oscillator is powered, the PLL takes the crystal oscillator as its source
/// and holds the two dividers.
pub open spec fn pll_configured(syscon: Syscon, mval: u8, pval: u8) -> Syscon {
    Syscon {
        pdawakecfg: with_bit(syscon.pdawakecfg, PD_SYSOSC, false),
        pdruncfg: with_bit(with_bit(syscon.pdruncfg, PD_SYSOSC, false), PD_SYSPLL, false),
        syspllclksel: with_field(syscon.syspllclksel, CLKSEL_OFFSET, CLKSEL_WIDTH, PLLCLKSEL_CRYSTAL),
        syspllctrl: with_field(
            with_field(syscon.syspllctrl, PLL_MSEL_OFFSET, PLL_MSEL_WIDTH, mval as u32),
            PLL_PSEL_OFFSET,
            PLL_PSEL_WIDTH,
            pval as u32,
        ),
        ..syscon
    }
}

/// The system configuration with the PLL output as main clock and the main
/// clock on the clock output.
pub open spec fn pll_selected(syscon: Syscon) -> Syscon {
    Syscon {
        mainclksel: with_field(syscon.mainclksel, CLKSEL_OFFSET, CLKSEL_WIDTH, MAINCLKSEL_PLL_OUTPUT),
        clkoutsel: with_field(syscon.clkoutsel, CLKSEL_OFFSET, CLKSEL_WIDTH, CLKOUTSEL_MAIN_CLOCK),
        ..syscon
    }
}

/// Sets the PLL up and powers it. The PLL is powered down while its source
/// and dividers are written.
pub fn pll_configure(syscon: &mut Syscon, mval: u8, pval: u8)
    ensures
        *final(syscon) == pll_configured(*old(syscon), mval, pval),
{
    // Make sure the system oscillator is powered on, otherwise no system signal
    syscon.pdawakecfg = set_bit(syscon.pdawakecfg, PD_SYSOSC, false);
    syscon.pdruncfg = set_bit(syscon.pdruncfg, PD_SYSOSC, false);
    // Configure the PLL
    proof {
        lemma_with_bit_absorbs(syscon.pdruncfg, PD_SYSPLL, true, false);
    }
    syscon.pdruncfg = set_bit(syscon.pdruncfg, PD_SYSPLL, true);
    syscon.syspllclksel = set_field(
        syscon.syspllclksel,
        CLKSEL_OFFSET,
        CLKSEL_WIDTH,
        PLLCLKSEL_CRYSTAL,
    );
    syscon.syspllctrl = set_field(syscon.syspllctrl, PLL_MSEL_OFFSET, PLL_MSEL_WIDTH, mval as u32);
    syscon.syspllctrl = set_field(syscon.syspllctrl, PLL_PSEL_OFFSET, PLL_PSEL_WIDTH, pval as u32);
    syscon.pdruncfg = set_bit(syscon.pdruncfg, PD_SYSPLL, false);
}

/// Whether the PLL reports that it has locked.
pub fn pll_locked(syscon: &Syscon) -> (locked: bool)
    ensures
        locked == bit(syscon.syspllstat, PLL_LOCK),
{
    get_bit(syscon.syspllstat, PLL_LOCK)
}

/// Makes the PLL output the main clock and puts the main clock on the clock
/// output.
pub fn pll_select(syscon: &mut Syscon)
    ensures
        *final(syscon) == pll_selected(*old(syscon)),
{
    syscon.mainclksel = set_field(
        syscon.mainclksel,
        CLKSEL_OFFSET,
        CLKSEL_WIDTH,
        MAINCLKSEL_PLL_OUTPUT,
    );
    syscon.clkoutsel = set_field(
        syscon.clkoutsel,
        CLKSEL_OFFSET,
        CLKSEL_WIDTH,
        CLKOUTSEL_MAIN_CLOCK,
    );
}

/// Configure the phase-locked-loop
/// Some values of m and p may make the MCU crash, see page 15 and 44 of UM10524
/// for details.
///
/// Sets the PLL up, and with the PLL locked makes its output the main clock.
///
/// The driver does not wait. A post divider selector above 3 is refused, and
/// so is a PLL that does not report a lock; nothing is written then.
///
/// # Arguments
/// * `mval` - Feedback divider value
/// * `pval` - Post-divider ratio
pub fn pll_init(syscon: &mut Syscon, mval: u8, pval: u8) -> (r: Result<(), DriverError>)
    ensures
        r == (if pval > PSEL_MAX {
            Err::<(), DriverError>(DriverError::InvalidPostDivider)
        } else if !bit(old(syscon).syspllstat, PLL_LOCK) {
            Err(DriverError::NotReady)
        } else {
            Ok(())
        }),
        r is Err ==> *final(syscon) == *old(syscon),
        r is Ok ==> *final(syscon) == pll_selected(pll_configured(*old(syscon), mval, pval)),
{
    if pval > PSEL_MAX {
        return Err(DriverError::InvalidPostDivider);
    }
    // Before setting the clocks, wait for the PLL to lock
    if !pll_locked(syscon) {
        return Err(DriverError::NotReady);
    }
    pll_configure(syscon, mval, pval);
    pll_select(syscon);
    Ok(())
}

/// Set the System clock divider
///
/// # Arguments
/// * `divider` -  divider value for Fclkana expressed as a value between 0 and 255.
///
/// A divider value of `0` disables the system clock completely
///
/// Default value: 1
pub fn sysclock_set_divider(syscon: &mut Syscon, divider: u8)
    ensures
        *final(syscon) == (Syscon {
            sysahbclkdiv: with_field(
                old(syscon).sysahbclkdiv,
                CLKDIV_OFFSET,
                CLKDIV_WIDTH,
                divider as u32,
            ),
            ..*old(syscon)
        }),
{
    syscon.sysahbclkdiv = set_field(
        syscon.sysahbclkdiv,
        CLKDIV_OFFSET,
        CLKDIV_WIDTH,
        divider as u32,
    );
}

/// The system configuration once the watchdog oscillator is powered in every
/// mode.
pub open spec fn watchdog_powered(syscon: Syscon) -> Syscon {
    Syscon {
        pdruncfg: with_bit(syscon.pdruncfg, PD_WDTOSC, false),
        pdsleepcfg: with_bit(syscon.pdsleepcfg, PD_WDTOSC, false),
        pdawakecfg: with_bit(syscon.pdawakecfg, PD_WDTOSC, false),
        ..syscon
    }
}

/// The system configuration once the watchdog is initialised.
///
/// The divider selector holds `divider / 2 - 1`. With the interrupt enabled,
/// start logic 1 is written whole: the watchdog's bit is set and every other
/// bit is clear.
pub open spec fn watchdog_initialised(
    syscon: Syscon,
    wd_int_enable: bool,
    frequency: WatchdogFrequency,
    divider: u8,
) -> Syscon {
    let powered = watchdog_powered(syscon);
    Syscon {
        sysahbclkctrl: with_bit(syscon.sysahbclkctrl, CLK_WWDT, true),
        wdtoscctrl: with_field(
            with_field(
                syscon.wdtoscctrl,
                WDTOSC_FREQSEL_OFFSET,
                WDTOSC_FREQSEL_WIDTH,
                frequency.selector(),
            ),
            WDTOSC_DIVSEL_OFFSET,
            WDTOSC_DIVSEL_WIDTH,
            (divider / 2 - 1) as u32,
        ),
        starterp1: if wd_int_enable {
            with_bit(0, START_WWDT, true)
        } else {
            syscon.starterp1
        },
        ..powered
    }
}

/// Initializes the watchdog
///
/// A divider below 2 or above 64 is refused before anything is written.
///
/// # Arguments
/// * `wd_int_enable` - Enable the watchdog timer interrupts
/// * `wwdt_clk_src` - The source for the WWDT clock
/// * `frequency` - Select the WWDT frequency
/// * `divider` -  Divider value for Fclkana expressed as the actual divider, (2, 4, 6, 8, ... 62, 64) all even numbers up to 64.
///
/// Divider is calculated as follows:
/// DIVSEL is the actual register value
///
/// ```text
/// wdt_osc_clk = Fclkana/ (2 * (1 + DIVSEL))
/// 00000: 2 * (1 + DIVSEL) = 2
/// 00001: 2 * (1 + DIVSEL) = 4
/// to
/// 11111: 2 * (1 + DIVSEL) = 64
/// ```
pub fn wwdt_init(
    nvic: &mut Nvic,
    syscon: &mut Syscon,
    wwdt: &mut Wwdt,
    wd_int_enable: bool,
    wwdt_clk_src: WatchdogClock,
    frequency: WatchdogFrequency,
    divider: u8,
) -> (r: Result<(), DriverError>)
    ensures
        r == (if divider < DIVIDER_MIN {
            Err::<(), DriverError>(DriverError::DividerTooSmall)
        } else if divider > DIVIDER_MAX {
            Err(DriverError::DividerTooLarge)
        } else {
            Ok(())
        }),
        r is Err ==> {
            &&& *final(nvic) == *old(nvic)
            &&& *final(syscon) == *old(syscon)
            &&& *final(wwdt) == *old(wwdt)
        },
        r is Ok ==> {
            &&& *final(syscon) == watchdog_initialised(
                *old(syscon),
                wd_int_enable,
                frequency,
                divider,
            )
            &&& *final(wwdt) == (Wwdt {
                clksel: with_bit(
                    old(wwdt).clksel,
                    WDCLKSEL,
                    wwdt_clk_src is WatchdogOscillator,
                ),
                ..*old(wwdt)
            })
            &&& final(nvic).enabled == (if wd_int_enable {
                with_bit(old(nvic).enabled, Interrupt::Wwdt.number(), true)
            } else {
                old(nvic).enabled
            })
        },
{
    if divider < DIVIDER_MIN {
        return Err(DriverError::DividerTooSmall);
    } else if divider > DIVIDER_MAX {
        return Err(DriverError::DividerTooLarge);
    }
    syscon.sysahbclkctrl = set_bit(syscon.sysahbclkctrl, CLK_WWDT, true);
    syscon.pdruncfg = set_bit(syscon.pdruncfg, PD_WDTOSC, false);
    syscon.pdsleepcfg = set_bit(syscon.pdsleepcfg, PD_WDTOSC, false);
    syscon.pdawakecfg = set_bit(syscon.pdawakecfg, PD_WDTOSC, false);

    // Set the clocksource
    wwdt.clksel = set_bit(
        wwdt.clksel,
        WDCLKSEL,
        match wwdt_clk_src {
            WatchdogClock::Irc => false,
            WatchdogClock::WatchdogOscillator => true,
        },
    );
    syscon.wdtoscctrl = set_field(
        syscon.wdtoscctrl,
        WDTOSC_FREQSEL_OFFSET,
        WDTOSC_FREQSEL_WIDTH,
        frequency.bits(),
    );
    syscon.wdtoscctrl = set_field(
        syscon.wdtoscctrl,
        WDTOSC_DIVSEL_OFFSET,
        WDTOSC_DIVSEL_WIDTH,
        (divider / 2 - 1) as u32,
    );
    if wd_int_enable {
        // Enable WWDT Interrupt
        nvic.enable(Interrupt::Wwdt);
        // Configure WWDT to act as wakeup interrupt
        syscon.starterp1 = set_bit(0, START_WWDT, true);
    }
    Ok(())
}

/// The mode register once the watchdog is configured.
pub open spec fn configured_mode(mode: u32, wd_reset: bool, wd_lock: bool, wd_enable: bool) -> u32 {
    with_bit(with_bit(with_bit(mode, MOD_WDRESET, wd_reset), MOD_LOCK, wd_lock), MOD_WDEN, wd_enable)
}

/// Configure and setup the watchdog
///
/// Writes the mode, the time-out value and the warning value, and feeds the
/// watchdog once, which starts it.
///
/// A time-out value above 24 bits is refused, and then a warning value above
/// 10 bits; nothing is written when either is.
///
/// # Arguments
/// * `wd_reset` - Enable if watchdog should reset
/// * `wd_lock` - Prevent disruption of the WDCLKSRC
/// * `wd_enable` - Enable the watchdog timer
/// * `wd_timerconstant` - Specify the time-out value, decrementing counter
/// * `wd_warnint` - Specify the timer warning interrupt value, at which value should interrupt be
/// triggered
pub fn wwdt_configure(
    wwdt: &mut Wwdt,
    wd_reset: bool,
    wd_lock: bool,
    wd_enable: bool,
    wd_timerconstant: u32,
    wd_warnint: u16,
) -> (r: Result<(), DriverError>)
    ensures
        r == (if wd_timerconstant > TIMER_CONSTANT_MAX {
            Err::<(), DriverError>(DriverError::InvalidTimerConstant)
        } else if wd_warnint > WARNINT_MAX {
            Err(DriverError::InvalidWarningValue)
        } else {
            Ok(())
        }),
        r is Err ==> *final(wwdt) == *old(wwdt),
        r is Ok ==> {
            &&& final(wwdt).mod_ == configured_mode(old(wwdt).mod_, wd_reset, wd_lock, wd_enable)
            &&& final(wwdt).tc == with_field(old(wwdt).tc, TC_OFFSET, TC_WIDTH, wd_timerconstant)
            &&& final(wwdt).warnint == with_field(
                old(wwdt).warnint,
                WARNINT_OFFSET,
                WARNINT_WIDTH,
                wd_warnint as u32,
            )
            &&& final(wwdt).feed@ == old(wwdt).feed@.push(FEED_FIRST).push(FEED_SECOND)
            &&& final(wwdt).clksel == old(wwdt).clksel
        },
{
    // Configure the Timer Constant, the time-out value
    // 24-bits max
    if wd_timerconstant > TIMER_CONSTANT_MAX {
        return Err(DriverError::InvalidTimerConstant);
    }
    // Set the warning
    if wd_warnint > WARNINT_MAX {
        return Err(DriverError::InvalidWarningValue);
    }
    // Enable watchdog reset
    wwdt.mod_ = set_bit(wwdt.mod_, MOD_WDRESET, wd_reset);
    // Prevent disabling/powerdown of watchdog clock source
    wwdt.mod_ = set_bit(wwdt.mod_, MOD_LOCK, wd_lock);
    // Enable the watchdog
    wwdt.mod_ = set_bit(wwdt.mod_, MOD_WDEN, wd_enable);
    wwdt.tc = set_field(wwdt.tc, TC_OFFSET, TC_WIDTH, wd_timerconstant);
    wwdt.warnint = set_field(wwdt.warnint, WARNINT_OFFSET, WARNINT_WIDTH, wd_warnint as u32);
    // Required for starting the watchdog, see 15.8.3 in UM10524
    wwdt_feed(wwdt);
    Ok(())
}

/// Feed the Watchdog
///
/// This resets the Watchdog counter to the value contained in WDTC
///
/// Usage (depending on mode): Use this to periodically feed the Watchdog
/// to prevent a system reset
pub fn wwdt_feed(wwdt: &mut Wwdt)
    ensures
        final(wwdt).feed@ == old(wwdt).feed@.push(FEED_FIRST).push(FEED_SECOND),
        final(wwdt).mod_ == old(wwdt).mod_,
        final(wwdt).tc == old(wwdt).tc,
        final(wwdt).clksel == old(wwdt).clksel,
        final(wwdt).warnint == old(wwdt).warnint,
{
    // Resets the watchdog counter back to WDTC
    wwdt.feed.push(FEED_FIRST);
    wwdt.feed.push(FEED_SECOND);
}

/// Clear WDINT interrupt register
///
/// This writes a 1 to WDINT, clearing the interrupt
///
/// The mode register is written whole: the interrupt flag is set and every
/// other bit is clear.
///
/// Usage (depending on mode): Use this to prime the WDINT
pub fn wwdt_intclear(wwdt: &mut Wwdt)
    ensures
        final(wwdt).mod_ == with_bit(0, MOD_WDINT, true),
        final(wwdt).tc == old(wwdt).tc,
        final(wwdt).feed@ == old(wwdt).feed@,
        final(wwdt).clksel == old(wwdt).clksel,
        final(wwdt).warnint == old(wwdt).warnint,
{
    wwdt.mod_ = set_bit(0, MOD_WDINT, true);
}

/// The system configuration with the watchdog oscillator as main clock and
/// the internal RC oscillator powered down.
pub open spec fn watchdog_as_main_clock(syscon: Syscon) -> Syscon {
    let powered = watchdog_powered(syscon);
    Syscon {
        mainclksel: with_field(syscon.mainclksel, CLKSEL_OFFSET, CLKSEL_WIDTH, MAINCLKSEL_WATCHDOG),
        pdawakecfg: with_bit(with_bit(powered.pdawakecfg, PD_IRCOUT, true), PD_IRC, true),
        pdruncfg: with_bit(with_bit(powered.pdruncfg, PD_IRCOUT, true), PD_IRC, true),
        ..powered
    }
}

/// Set WWDT as the system clock source
///
/// Change the main system clock to be the wwdt oscillator
///
/// Attention! Need to start WWDT first
pub fn wwdt_as_mainclk(syscon: &mut Syscon)
    ensures
        *final(syscon) == watchdog_as_main_clock(*old(syscon)),
{
    // WWDT on always, extra precaution
    syscon.pdawakecfg = set_bit(syscon.pdawakecfg, PD_WDTOSC, false);
    syscon.pdruncfg = set_bit(syscon.pdruncfg, PD_WDTOSC, false);
    syscon.pdsleepcfg = set_bit(syscon.pdsleepcfg, PD_WDTOSC, false);
    // Select as main clocksource
    syscon.mainclksel = set_field(
        syscon.mainclksel,
        CLKSEL_OFFSET,
        CLKSEL_WIDTH,
        MAINCLKSEL_WATCHDOG,
    );
    // Disable IRC clock on wakeup
    syscon.pdawakecfg = set_bit(syscon.pdawakecfg, PD_IRCOUT, true);
    syscon.pdawakecfg = set_bit(syscon.pdawakecfg, PD_IRC, true);
    // Power down the IRC oscillator output
    syscon.pdruncfg = set_bit(syscon.pdruncfg, PD_IRCOUT, true);
    // Power down the IRC oscillator
    syscon.pdruncfg = set_bit(syscon.pdruncfg, PD_IRC, true);
}

} // verus!
