//! The two 32-bit counter/timers.

use crate::bits::{set_bit, set_field, with_bit, with_field};
use crate::iocon::{select_func, select_mode, with_func, with_mode, Iocon};
use crate::nvic::{Interrupt, Nvic};
use crate::syscon::{Syscon, CLK_CT32B0, CLK_CT32B1};
use vstd::prelude::*;

verus! {

/// Timer selection
#[derive(Clone, Copy, Debug, PartialEq, Eq, Structural)]
pub enum Timer {
    /// First timer
    Timer0,
    /// Second timer
    Timer1,
}

/// Specify a match register
#[derive(Clone, Copy, Debug, PartialEq, Eq, Structural)]
pub enum MatchReg {
    /// Specifies match register 0
    Reg0,
    /// Specifies match register 1
    Reg1,
    /// Specifies match register 2
    Reg2,
    /// Specifies match register 3
    Reg3,
}

/// Specify PWM-mode
#[derive(Clone, Copy, Debug, PartialEq, Eq, Structural)]
pub enum Control {
    /// Don't do anything
    Nothing,
    /// Clear the output
    Clear,
    /// Set the output
    SetOutput,
    /// Invert the output
    Toggle,
}

/// The registers of a 32-bit timer.
#[derive(Clone, Copy, Debug, PartialEq, Eq)]
pub struct Ct32 {
    /// The interrupt register, as last written.
    pub ir: u32,
    /// Timer control: bit 0 enables the counter, bit 1 holds it in reset.
    pub tcr: u32,
    /// The prescaler.
    pub pr: u32,
    /// Match control: for match register `n`, bit `3n` raises an interrupt,
    /// bit `3n + 1` resets the counter and bit `3n + 2` stops it.
    pub mcr: u32,
    /// The match registers.
    pub mr: [u32; 4],
    /// External match: bit `n` is the output of match register `n`, bits
    /// `5 + 2n..4 + 2n` say what a match does to it.
    pub emr: u32,
    /// PWM control: bit `n` makes the output of match register `n` a PWM
    /// output.
    pub pwmc: u32,
}

/// The first 32-bit timer.
#[derive(Clone, Copy, Debug, PartialEq, Eq)]
pub struct Ct32b0 {
    pub regs: Ct32,
}

/// The second 32-bit timer.
#[derive(Clone, Copy, Debug, PartialEq, Eq)]
pub struct Ct32b1 {
    pub regs: Ct32,
}

// Bits of the timer control register.
pub const TCR_CEN: u32 = 0;
pub const TCR_CRST: u32 = 1;

/// Width of the field of the external match register that says what a match
/// does, and the position of the first such field.
pub const EMC_WIDTH: u32 = 2;
pub const EMC_BASE: u32 = 4;

/// Pull-resistor mode of a PWM output pin.
pub const PWM_PIN_MODE: u32 = 0x2;

impl MatchReg {
    /// The number of the match register.
    pub open spec fn index(self) -> u32 {
        match self {
            MatchReg::Reg0 => 0,
            MatchReg::Reg1 => 1,
            MatchReg::Reg2 => 2,
            MatchReg::Reg3 => 3,
        }
    }

    /// The number of the match register.
    pub fn number(self) -> (n: u32)
        ensures
            n == self.index(),
            n < 4,
    {
        match self {
            MatchReg::Reg0 => 0,
            MatchReg::Reg1 => 1,
            MatchReg::Reg2 => 2,
            MatchReg::Reg3 => 3,
        }
    }
}

impl Control {
    /// The value of the control in the external match register.
    pub open spec fn code(self) -> u32 {
        match self {
            Control::Nothing => 0x0,
            Control::Clear => 0x1,
            Control::SetOutput => 0x2,
            Control::Toggle => 0x3,
        }
    }

    /// The value of the control in the external match register.
    pub fn bits(self) -> (b: u32)
        ensures
            b == self.code(),
    {
        match self {
            Control::Nothing => 0x0,
            Control::Clear => 0x1,
            Control::SetOutput => 0x2,
            Control::Toggle => 0x3,
        }
    }
}

impl Ct32 {
    /// A timer with every register cleared.
    pub fn new() -> (t: Ct32)
        ensures
            t.ir == 0,
            t.tcr == 0,
            t.pr == 0,
            t.mcr == 0,
            t.mr@ == seq![0u32, 0u32, 0u32, 0u32],
            t.emr == 0,
            t.pwmc == 0,
    {
        let t = Ct32 { ir: 0, tcr: 0, pr: 0, mcr: 0, mr: [0, 0, 0, 0], emr: 0, pwmc: 0 };
        assert(t.mr@ =~= seq![0u32, 0u32, 0u32, 0u32]);
        t
    }

    /// The match control register once a match of `mr` raises an interrupt,
    /// resets the counter and stops it as the three flags say.
    pub open spec fn match_control(
        mcr: u32,
        mr: MatchReg,
        interrupt: bool,
        reset: bool,
        stop: bool,
    ) -> u32 {
        with_bit(
            with_bit(with_bit(mcr, (3 * mr.index()) as u32, interrupt), (3 * mr.index() + 1) as u32, reset),
            (3 * mr.index() + 2) as u32,
            stop,
        )
    }

    /// The external match register once a match of `mr` applies `control` to
    /// an output that starts at `mat`.
    pub open spec fn external_match(emr: u32, mr: MatchReg, control: Control, mat: bool) -> u32 {
        with_bit(
            with_field(emr, (EMC_BASE + 2 * mr.index()) as u32, EMC_WIDTH, control.code()),
            mr.index(),
            mat,
        )
    }

    /// Writes a match value.
    pub fn set_match(&mut self, mr: MatchReg, value: u32)
        ensures
            final(self).mr@ == old(self).mr@.update(mr.index() as int, value),
            (Ct32 { mr: old(self).mr, ..*final(self) }) == *old(self),
    {
        let slot = mr.number() as usize;
        self.mr[slot] = value;
    }

    /// Says what a match does to the counter.
    pub fn set_interrupt(&mut self, mr: MatchReg, interrupt: bool, reset: bool, stop: bool)
        ensures
            *final(self) == (Ct32 {
                mcr: Ct32::match_control(old(self).mcr, mr, interrupt, reset, stop),
                ..*old(self)
            }),
    {
        let base: u32 = 3 * mr.number();
        self.mcr = set_bit(self.mcr, base, interrupt);
        self.mcr = set_bit(self.mcr, base + 1, reset);
        self.mcr = set_bit(self.mcr, base + 2, stop);
    }

    /// Writes the interrupt flag of a match register, and nothing else, to
    /// the interrupt register.
    pub fn clear_interrupt(&mut self, mr: MatchReg)
        ensures
            *final(self) == (Ct32 { ir: with_bit(0, mr.index(), true), ..*old(self) }),
    {
        self.ir = set_bit(0, mr.number(), true);
    }

    /// Writes the prescaler.
    pub fn set_prescaler(&mut self, value: u32)
        ensures
            *final(self) == (Ct32 { pr: value, ..*old(self) }),
    {
        self.pr = value;
    }

    /// Starts or stops the counter.
    pub fn set_enabled(&mut self, enabled: bool)
        ensures
            *final(self) == (Ct32 { tcr: with_bit(old(self).tcr, TCR_CEN, enabled), ..*old(self) }),
    {
        self.tcr = set_bit(self.tcr, TCR_CEN, enabled);
    }

    /// Holds the counter in reset.
    pub fn reset(&mut self)
        ensures
            *final(self) == (Ct32 { tcr: with_bit(old(self).tcr, TCR_CRST, true), ..*old(self) }),
    {
        self.tcr = set_bit(self.tcr, TCR_CRST, true);
    }

    /// Sets the PWM options of a match register.
    pub fn set_pwm_opts(&mut self, mr: MatchReg, control: Control, mat: bool, enabled: bool)
        ensures
            *final(self) == (Ct32 {
                emr: Ct32::external_match(old(self).emr, mr, control, mat),
                pwmc: with_bit(old(self).pwmc, mr.index(), enabled),
                ..*old(self)
            }),
    {
        let n: u32 = mr.number();
        self.emr = set_field(self.emr, EMC_BASE + 2 * n, EMC_WIDTH, control.bits());
        self.emr = set_bit(self.emr, n, mat);
        self.pwmc = set_bit(self.pwmc, n, enabled);
    }
}

impl Ct32b0 {
    /// A timer with every register cleared.
    pub fn new() -> (t: Ct32b0)
        ensures
            t.regs.ir == 0,
            t.regs.tcr == 0,
            t.regs.pr == 0,
            t.regs.mcr == 0,
            t.regs.mr@ == seq![0u32, 0u32, 0u32, 0u32],
            t.regs.emr == 0,
            t.regs.pwmc == 0,
    {
        Ct32b0 { regs: Ct32::new() }
    }
}

impl Ct32b1 {
    /// A timer with every register cleared.
    pub fn new() -> (t: Ct32b1)
        ensures
            t.regs.ir == 0,
            t.regs.tcr == 0,
            t.regs.pr == 0,
            t.regs.mcr == 0,
            t.regs.mr@ == seq![0u32, 0u32, 0u32, 0u32],
            t.regs.emr == 0,
            t.regs.pwmc == 0,
    {
        Ct32b1 { regs: Ct32::new() }
    }
}

/// Initialize 32-bit timers
///
/// Starts the clock of the timer and enables its interrupt.
///
/// # Arguments
/// * `timer` - Selects one of the two 32-bit timers
pub fn init(syscon: &mut Syscon, nvic: &mut Nvic, timer: Timer)
    ensures
        *final(syscon) == (Syscon {
            sysahbclkctrl: with_bit(
                old(syscon).sysahbclkctrl,
                if timer is Timer0 {
                    CLK_CT32B0
                } else {
                    CLK_CT32B1
                },
                true,
            ),
            ..*old(syscon)
        }),
        final(nvic).enabled == with_bit(
            old(nvic).enabled,
            if timer is Timer0 {
                Interrupt::Ct32b0.number()
            } else {
                Interrupt::Ct32b1.number()
            },
            true,
        ),
{
    match timer {
        Timer::Timer0 => {
            syscon.sysahbclkctrl = set_bit(syscon.sysahbclkctrl, CLK_CT32B0, true);
            nvic.enable(Interrupt::Ct32b0);
        },
        Timer::Timer1 => {
            syscon.sysahbclkctrl = set_bit(syscon.sysahbclkctrl, CLK_CT32B1, true);
            nvic.enable(Interrupt::Ct32b1);
        },
    }
}

/// Set a match-register value for the first clock
///
/// # Arguments
/// * `mr` - Selects the MatchReg
/// * `value` - Value to match on
pub fn set_match_t0(ct32b0: &mut Ct32b0, mr: MatchReg, value: u32)
    ensures
        final(ct32b0).regs.mr@ == old(ct32b0).regs.mr@.update(mr.index() as int, value),
        (Ct32 { mr: old(ct32b0).regs.mr, ..final(ct32b0).regs }) == old(ct32b0).regs,
{
    ct32b0.regs.set_match(mr, value);
}

/// Set a match-register value for the second clock
///
/// # Arguments
/// * `mr` - Selects the MatchReg
/// * `value` - Value to match on
pub fn set_match_t1(ct32b1: &mut Ct32b1, mr: MatchReg, value: u32)
    ensures
        final(ct32b1).regs.mr@ == old(ct32b1).regs.mr@.update(mr.index() as int, value),
        (Ct32 { mr: old(ct32b1).regs.mr, ..final(ct32b1).regs }) == old(ct32b1).regs,
{
    ct32b1.regs.set_match(mr, value);
}

/// Configure an interrupt for the first timer
///
/// # Arguments
/// * `mr` - Selects the MatchReg
/// * `interrupt` - Enable interrupt when MatchReg matches
/// * `reset` - Reset the TC counter when MatchReg matches
/// * `stop` - Stop the counter and disable the timer when MatchReg matches
pub fn set_interrupt_t0(
    ct32b0: &mut Ct32b0,
    mr: MatchReg,
    interrupt: bool,
    reset: bool,
    stop: bool,
)
    ensures
        final(ct32b0).regs == (Ct32 {
            mcr: Ct32::match_control(old(ct32b0).regs.mcr, mr, interrupt, reset, stop),
            ..old(ct32b0).regs
        }),
{
    ct32b0.regs.set_interrupt(mr, interrupt, reset, stop);
}

/// Configure an interrupt for the second timer
///
/// # Arguments
/// * `mr` - Selects the MatchReg
/// * `interrupt` - Enable interrupt when MatchReg matches
/// * `reset` - Reset the TC counter when MatchReg matches
/// * `stop` - Stop the counter and disable the timer when MatchReg matches
pub fn set_interrupt_t1(
    ct32b1: &mut Ct32b1,
    mr: MatchReg,
    interrupt: bool,
    reset: bool,
    stop: bool,
)
    ensures
        final(ct32b1).regs == (Ct32 {
            mcr: Ct32::match_control(old(ct32b1).regs.mcr, mr, interrupt, reset, stop),
            ..old(ct32b1).regs
        }),
{
    ct32b1.regs.set_interrupt(mr, interrupt, reset, stop);
}

/// Clear interrupt
///
/// # Arguments
/// * `mr` - Selects the MatchReg
pub fn clear_interrupt_t0(ct32b0: &mut Ct32b0, mr: MatchReg)
    ensures
        final(ct32b0).regs == (Ct32 { ir: with_bit(0, mr.index(), true), ..old(ct32b0).regs }),
{
    ct32b0.regs.clear_interrupt(mr);
}

/// Clear interrupt
///
/// # Arguments
/// * `mr` - Selects the MatchReg
pub fn clear_interrupt_t1(ct32b1: &mut Ct32b1, mr: MatchReg)
    ensures
        final(ct32b1).regs == (Ct32 { ir: with_bit(0, mr.index(), true), ..old(ct32b1).regs }),
{
    ct32b1.regs.clear_interrupt(mr);
}

/// Set a prescale-register value for the first clock
pub fn set_prescaler_t0(ct32b0: &mut Ct32b0, value: u32)
    ensures
        final(ct32b0).regs == (Ct32 { pr: value, ..old(ct32b0).regs }),
{
    ct32b0.regs.set_prescaler(value);
}

/// Set a prescale-register value for the second clock
pub fn set_prescaler_t1(ct32b1: &mut Ct32b1, value: u32)
    ensures
        final(ct32b1).regs == (Ct32 { pr: value, ..old(ct32b1).regs }),
{
    ct32b1.regs.set_prescaler(value);
}

/// Turn timer one on or off
///
/// # Arguments
/// * `enabled` - true enables
pub fn set_enabled_t0(ct32b0: &mut Ct32b0, enabled: bool)
    ensures
        final(ct32b0).regs == (Ct32 {
            tcr: with_bit(old(ct32b0).regs.tcr, TCR_CEN, enabled),
            ..old(ct32b0).regs
        }),
{
    ct32b0.regs.set_enabled(enabled);
}

/// Turn timer two on or off
///
/// # Arguments
/// * `enabled` - true enables
pub fn set_enabled_t1(ct32b1: &mut Ct32b1, enabled: bool)
    ensures
        final(ct32b1).regs == (Ct32 {
            tcr: with_bit(old(ct32b1).regs.tcr, TCR_CEN, enabled),
            ..old(ct32b1).regs
        }),
{
    ct32b1.regs.set_enabled(enabled);
}

/// Reset timer one
pub fn reset_t0(ct32b0: &mut Ct32b0)
    ensures
        final(ct32b0).regs == (Ct32 {
            tcr: with_bit(old(ct32b0).regs.tcr, TCR_CRST, true),
            ..old(ct32b0).regs
        }),
{
    ct32b0.regs.reset();
}

/// Reset timer two
pub fn reset_t1(ct32b1: &mut Ct32b1)
    ensures
        final(ct32b1).regs == (Ct32 {
            tcr: with_bit(old(ct32b1).regs.tcr, TCR_CRST, true),
            ..old(ct32b1).regs
        }),
{
    ct32b1.regs.reset();
}

/// A pin register connected to a match output.
pub open spec fn pwm_output(pin: u32, func: u32) -> u32 {
    with_mode(with_func(pin, func), PWM_PIN_MODE)
}

/// The pin configuration once the pin of a match output is connected to it.
pub open spec fn pwm_pin(iocon: Iocon, timer: Timer, mr: MatchReg) -> Iocon {
    match timer {
        Timer::Timer0 => match mr {
            MatchReg::Reg0 => Iocon { pio0_18: pwm_output(iocon.pio0_18, 0x2), ..iocon },
            MatchReg::Reg1 => Iocon { pio0_19: pwm_output(iocon.pio0_19, 0x2), ..iocon },
            MatchReg::Reg2 => Iocon { pio0_1: pwm_output(iocon.pio0_1, 0x2), ..iocon },
            MatchReg::Reg3 => Iocon { tdi_pio0_11: pwm_output(iocon.tdi_pio0_11, 0x3), ..iocon },
        },
        Timer::Timer1 => match mr {
            MatchReg::Reg0 => Iocon { tdo_pio0_13: pwm_output(iocon.tdo_pio0_13, 0x3), ..iocon },
            MatchReg::Reg1 => Iocon { trst_pio0_14: pwm_output(iocon.trst_pio0_14, 0x3), ..iocon },
            MatchReg::Reg2 => Iocon {
                swdio_pio0_15: pwm_output(iocon.swdio_pio0_15, 0x3),
                ..iocon
            },
            MatchReg::Reg3 => Iocon { pio0_16: pwm_output(iocon.pio0_16, 0x2), ..iocon },
        },
    }
}

fn connect(pin: u32, func: u32) -> (r: u32)
    ensures
        r == pwm_output(pin, func),
{
    select_mode(select_func(pin, func), PWM_PIN_MODE)
}

/// Configure pins to use for PWM output
///
/// # Arguments
/// * `timer` - Selects one of the two 32-bit timers
/// * `mr` - Match register to activate GPIO pins for
pub fn set_pwm_output_pin(iocon: &mut Iocon, timer: Timer, mr: MatchReg)
    ensures
        *final(iocon) == pwm_pin(*old(iocon), timer, mr),
{
    match timer {
        Timer::Timer0 => match mr {
            MatchReg::Reg0 => {
                iocon.pio0_18 = connect(iocon.pio0_18, 0x2);
            },
            MatchReg::Reg1 => {
                iocon.pio0_19 = connect(iocon.pio0_19, 0x2);
            },
            MatchReg::Reg2 => {
                iocon.pio0_1 = connect(iocon.pio0_1, 0x2);
            },
            MatchReg::Reg3 => {
                iocon.tdi_pio0_11 = connect(iocon.tdi_pio0_11, 0x3);
            },
        },
        Timer::Timer1 => match mr {
            MatchReg::Reg0 => {
                iocon.tdo_pio0_13 = connect(iocon.tdo_pio0_13, 0x3);
            },
            MatchReg::Reg1 => {
                iocon.trst_pio0_14 = connect(iocon.trst_pio0_14, 0x3);
            },
            MatchReg::Reg2 => {
                iocon.swdio_pio0_15 = connect(iocon.swdio_pio0_15, 0x3);
            },
            MatchReg::Reg3 => {
                iocon.pio0_16 = connect(iocon.pio0_16, 0x2);
            },
        },
    }
}

/// Set options for PWM on timer one
///
/// # Arguments
/// * `mr` - Select match-register
/// * `control` - Select behaviour when a match occurs
/// * `mat` - The initial value written into external match register `em`
/// * `enabled` - Enable or disable PWM
pub fn set_pwm_opts_t0(
    ct32b0: &mut Ct32b0,
    mr: MatchReg,
    control: Control,
    mat: bool,
    enabled: bool,
)
    ensures
        final(ct32b0).regs == (Ct32 {
            emr: Ct32::external_match(old(ct32b0).regs.emr, mr, control, mat),
            pwmc: with_bit(old(ct32b0).regs.pwmc, mr.index(), enabled),
            ..old(ct32b0).regs
        }),
{
    ct32b0.regs.set_pwm_opts(mr, control, mat, enabled);
}

/// Set options for PWM on timer two
///
/// # Arguments
/// * `mr` - Select match-register
/// * `control` - Select behaviour when a match occurs
/// * `mat` - The initial value written into external match register `em`
/// * `enabled` - Enable or disable PWM
pub fn set_pwm_opts_t1(
    ct32b1: &mut Ct32b1,
    mr: MatchReg,
    control: Control,
    mat: bool,
    enabled: bool,
)
    ensures
        final(ct32b1).regs == (Ct32 {
            emr: Ct32::external_match(old(ct32b1).regs.emr, mr, control, mat),
            pwmc: with_bit(old(ct32b1).regs.pwmc, mr.index(), enabled),
            ..old(ct32b1).regs
        }),
{
    ct32b1.regs.set_pwm_opts(mr, control, mat, enabled);
}

} // verus!
