//! Power modes and the interrupts that wake the part up.

use crate::bits::{set_bit, set_field, with_bit, with_field};
use crate::nvic::{Interrupt, Nvic};
use crate::syscon::{Syscon, PD_BOD, PD_WDTOSC, START_BOD, START_GPIOINT0, START_GPIOINT1,
    START_USB_WAKEUP, START_WWDT};
use vstd::prelude::*;

verus! {

/// Interrupts to be used for waking up
#[allow(non_camel_case_types)]
#[derive(Clone, Copy, Debug, PartialEq, Eq, Structural)]
pub enum WakeupInts {
    /// Pin 0 interrupt
    Pin0,
    /// Pin 1 interrupt
    Pin1,
    /// Pin 2 interrupt
    Pin2,
    /// Pin 3 interrupt
    Pin3,
    /// Pin 4 interrupt
    Pin4,
    /// Pin 5 interrupt
    Pin5,
    /// Pin 6 interrupt
    Pin6,
    /// Pin 7 interrupt
    Pin7,
    /// Windowed watchdog timer
    WWDT,
    /// Brown-out detected
    BOD,
    /// Wake-up from USB detected
    USBWAKEUP,
    /// GPIO0 group interrupt
    GPIO0,
    /// GPIO1 group interrupt
    GPIO1,
}

/// The power management unit.
#[derive(Clone, Copy, Debug, PartialEq, Eq, Structural)]
pub struct Pmu {
    /// Power control: the power mode in bits 2..0.
    pub pcon: u32,
}

/// The system control block of the core.
#[derive(Clone, Copy, Debug, PartialEq, Eq, Structural)]
pub struct Scb {
    /// System control: bit 2 selects deep sleep for the next wait.
    pub scr: u32,
}

// The power-mode field of `pcon` and its values.
pub const PM_OFFSET: u32 = 0;
pub const PM_WIDTH: u32 = 3;
pub const PM_DEFAULT: u32 = 0;
pub const PM_DEEP_SLEEP: u32 = 1;
pub const PM_POWER_DOWN: u32 = 2;
pub const PM_DEEP_POWER_DOWN: u32 = 3;

/// Bit of `scr` that selects deep sleep.
pub const SLEEPDEEP: u32 = 2;

impl Pmu {
    /// A unit with its register cleared.
    pub fn new() -> (p: Pmu)
        ensures
            p.pcon == 0,
    {
        Pmu { pcon: 0 }
    }
}

impl Scb {
    /// A block with its register cleared.
    pub fn new() -> (s: Scb)
        ensures
            s.scr == 0,
    {
        Scb { scr: 0 }
    }
}

impl WakeupInts {
    /// The interrupt source that wakes the part up.
    pub open spec fn source(self) -> Interrupt {
        match self {
            WakeupInts::Pin0 => Interrupt::PinInt0,
            WakeupInts::Pin1 => Interrupt::PinInt1,
            WakeupInts::Pin2 => Interrupt::PinInt2,
            WakeupInts::Pin3 => Interrupt::PinInt3,
            WakeupInts::Pin4 => Interrupt::PinInt4,
            WakeupInts::Pin5 => Interrupt::PinInt5,
            WakeupInts::Pin6 => Interrupt::PinInt6,
            WakeupInts::Pin7 => Interrupt::PinInt7,
            WakeupInts::WWDT => Interrupt::Wwdt,
            WakeupInts::BOD => Interrupt::Bod,
            WakeupInts::USBWAKEUP => Interrupt::UsbWakeup,
            WakeupInts::GPIO0 => Interrupt::Gint0,
            WakeupInts::GPIO1 => Interrupt::Gint1,
        }
    }

    /// Whether the source is a pin interrupt, which start logic 0 holds.
    pub open spec fn is_pin(self) -> bool {
        self.source().number() < 8
    }

    /// The bit of the source in its start logic register.
    pub open spec fn start_bit(self) -> u32 {
        match self {
            WakeupInts::WWDT => START_WWDT,
            WakeupInts::BOD => START_BOD,
            WakeupInts::USBWAKEUP => START_USB_WAKEUP,
            WakeupInts::GPIO0 => START_GPIOINT0,
            WakeupInts::GPIO1 => START_GPIOINT1,
            _ => self.source().number(),
        }
    }

    fn route(self) -> (r: (Interrupt, bool, u32))
        ensures
            r.0 == self.source(),
            r.1 == self.is_pin(),
            r.2 == self.start_bit(),
            r.2 < 32,
    {
        match self {
            WakeupInts::Pin0 => (Interrupt::PinInt0, true, 0),
            WakeupInts::Pin1 => (Interrupt::PinInt1, true, 1),
            WakeupInts::Pin2 => (Interrupt::PinInt2, true, 2),
            WakeupInts::Pin3 => (Interrupt::PinInt3, true, 3),
            WakeupInts::Pin4 => (Interrupt::PinInt4, true, 4),
            WakeupInts::Pin5 => (Interrupt::PinInt5, true, 5),
            WakeupInts::Pin6 => (Interrupt::PinInt6, true, 6),
            WakeupInts::Pin7 => (Interrupt::PinInt7, true, 7),
            WakeupInts::WWDT => (Interrupt::Wwdt, false, START_WWDT),
            WakeupInts::BOD => (Interrupt::Bod, false, START_BOD),
            WakeupInts::USBWAKEUP => (Interrupt::UsbWakeup, false, START_USB_WAKEUP),
            WakeupInts::GPIO0 => (Interrupt::Gint0, false, START_GPIOINT0),
            WakeupInts::GPIO1 => (Interrupt::Gint1, false, START_GPIOINT1),
        }
    }
}

/// The power configuration for a low-power mode: the watchdog oscillator is
/// powered in sleep and after wake-up exactly when `watchdog` is set, and the
/// brown-out detector in sleep, while running and after wake-up exactly when
/// `bod` is set. A set bit powers a block down.
pub open spec fn sleep_power(syscon: Syscon, bod: bool, watchdog: bool) -> Syscon {
    Syscon {
        pdsleepcfg: with_bit(with_bit(syscon.pdsleepcfg, PD_WDTOSC, !watchdog), PD_BOD, !bod),
        pdawakecfg: with_bit(with_bit(syscon.pdawakecfg, PD_WDTOSC, !watchdog), PD_BOD, !bod),
        pdruncfg: with_bit(syscon.pdruncfg, PD_BOD, !bod),
        ..syscon
    }
}

fn enter_low_power(
    pmu: &mut Pmu,
    syscon: &mut Syscon,
    scb: &mut Scb,
    mode: u32,
    enable_bod: bool,
    enable_watchdog: bool,
)
    ensures
        final(pmu).pcon == with_field(old(pmu).pcon, PM_OFFSET, PM_WIDTH, mode),
        *final(syscon) == sleep_power(*old(syscon), enable_bod, enable_watchdog),
        final(scb).scr == with_bit(old(scb).scr, SLEEPDEEP, true),
{
    pmu.pcon = set_field(pmu.pcon, PM_OFFSET, PM_WIDTH, mode);
    syscon.pdsleepcfg = set_bit(syscon.pdsleepcfg, PD_WDTOSC, !enable_watchdog);
    syscon.pdawakecfg = set_bit(syscon.pdawakecfg, PD_WDTOSC, !enable_watchdog);
    syscon.pdsleepcfg = set_bit(syscon.pdsleepcfg, PD_BOD, !enable_bod);
    syscon.pdruncfg = set_bit(syscon.pdruncfg, PD_BOD, !enable_bod);
    syscon.pdawakecfg = set_bit(syscon.pdawakecfg, PD_BOD, !enable_bod);
    scb.scr = set_bit(scb.scr, SLEEPDEEP, true);
}

/// Enter sleep mode
///
/// Selects the default power mode and an ordinary sleep for the next wait.
pub fn sleep(pmu: &mut Pmu, scb: &mut Scb)
    ensures
        final(pmu).pcon == with_field(old(pmu).pcon, PM_OFFSET, PM_WIDTH, PM_DEFAULT),
        final(scb).scr == with_bit(old(scb).scr, SLEEPDEEP, false),
{
    // Active/Sleep is the default power mode
    pmu.pcon = set_field(pmu.pcon, PM_OFFSET, PM_WIDTH, PM_DEFAULT);
    scb.scr = set_bit(scb.scr, SLEEPDEEP, false);
}

/// Enter deep-sleep mode
///
/// # Arguments
/// * `enabled_bod` - Enable brown-out detector clock, this is useful if low-voltage-induced non-determinism may cause severe errors
/// * `enabled_watchdog` - Enable watchdog clock, use this if you need to employ timed wake-ups
pub fn deep_sleep(
    pmu: &mut Pmu,
    syscon: &mut Syscon,
    scb: &mut Scb,
    enable_bod: bool,
    enable_watchdog: bool,
)
    ensures
        final(pmu).pcon == with_field(old(pmu).pcon, PM_OFFSET, PM_WIDTH, PM_DEEP_SLEEP),
        *final(syscon) == sleep_power(*old(syscon), enable_bod, enable_watchdog),
        final(scb).scr == with_bit(old(scb).scr, SLEEPDEEP, true),
{
    enter_low_power(pmu, syscon, scb, PM_DEEP_SLEEP, enable_bod, enable_watchdog);
}

/// Enter power-down mode
///
/// # Arguments
/// * `enabled_bod` - Enable brown-out detector clock, this is useful if low-voltage-induced non-determinism may cause severe errors
/// * `enabled_watchdog` - Enable watchdog clock, use this if you need to employ timed wake-ups
pub fn power_down(
    pmu: &mut Pmu,
    syscon: &mut Syscon,
    scb: &mut Scb,
    enable_bod: bool,
    enable_watchdog: bool,
)
    ensures
        final(pmu).pcon == with_field(old(pmu).pcon, PM_OFFSET, PM_WIDTH, PM_POWER_DOWN),
        *final(syscon) == sleep_power(*old(syscon), enable_bod, enable_watchdog),
        final(scb).scr == with_bit(old(scb).scr, SLEEPDEEP, true),
{
    enter_low_power(pmu, syscon, scb, PM_POWER_DOWN, enable_bod, enable_watchdog);
}

/// Enter deep power-down mode
pub fn deep_power_down(pmu: &mut Pmu, scb: &mut Scb)
    ensures
        final(pmu).pcon == with_field(old(pmu).pcon, PM_OFFSET, PM_WIDTH, PM_DEEP_POWER_DOWN),
        final(scb).scr == with_bit(old(scb).scr, SLEEPDEEP, true),
{
    pmu.pcon = set_field(pmu.pcon, PM_OFFSET, PM_WIDTH, PM_DEEP_POWER_DOWN);
    scb.scr = set_bit(scb.scr, SLEEPDEEP, true);
}

/// The start logic once `interrupt` may wake the part up.
pub open spec fn waking(syscon: Syscon, interrupt: WakeupInts) -> Syscon {
    if interrupt.is_pin() {
        Syscon { starterp0: with_bit(syscon.starterp0, interrupt.start_bit(), true), ..syscon }
    } else {
        Syscon { starterp1: with_bit(syscon.starterp1, interrupt.start_bit(), true), ..syscon }
    }
}

/// Set wakeup interrupts
///
/// Sets the bit of the source in its start logic register and enables the
/// source in the interrupt controller.
pub fn set_wakeup_interrupt(syscon: &mut Syscon, nvic: &mut Nvic, interrupt: WakeupInts)
    ensures
        *final(syscon) == waking(*old(syscon), interrupt),
        final(nvic).enabled == with_bit(old(nvic).enabled, interrupt.source().number(), true),
{
    let (irq, is_pin, start) = interrupt.route();
    if is_pin {
        syscon.starterp0 = set_bit(syscon.starterp0, start, true);
    } else {
        syscon.starterp1 = set_bit(syscon.starterp1, start, true);
    }
    nvic.enable(irq);
}

} // verus!
