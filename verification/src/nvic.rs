//! The interrupt controller: which interrupt sources are enabled.

use crate::bits::{bit, get_bit, set_bit, with_bit};
use vstd::prelude::*;

verus! {

/// The interrupt sources the drivers enable or disable.
#[derive(Clone, Copy, Debug, PartialEq, Eq, Structural)]
pub enum Interrupt {
    PinInt0,
    PinInt1,
    PinInt2,
    PinInt3,
    PinInt4,
    PinInt5,
    PinInt6,
    PinInt7,
    Gint0,
    Gint1,
    Rit,
    Ct16b0,
    Ct16b1,
    Ct32b0,
    Ct32b1,
    Usart,
    Wwdt,
    Bod,
    UsbWakeup,
}

impl Interrupt {
    /// The number of the source in the vector table.
    pub open spec fn number(self) -> u32 {
        match self {
            Interrupt::PinInt0 => 0,
            Interrupt::PinInt1 => 1,
            Interrupt::PinInt2 => 2,
            Interrupt::PinInt3 => 3,
            Interrupt::PinInt4 => 4,
            Interrupt::PinInt5 => 5,
            Interrupt::PinInt6 => 6,
            Interrupt::PinInt7 => 7,
            Interrupt::Gint0 => 8,
            Interrupt::Gint1 => 9,
            Interrupt::Rit => 12,
            Interrupt::Ct16b0 => 16,
            Interrupt::Ct16b1 => 17,
            Interrupt::Ct32b0 => 18,
            Interrupt::Ct32b1 => 19,
            Interrupt::Usart => 21,
            Interrupt::Wwdt => 25,
            Interrupt::Bod => 26,
            Interrupt::UsbWakeup => 30,
        }
    }

    /// The number of the source in the vector table.
    pub fn nr(self) -> (n: u32)
        ensures
            n == self.number(),
            n < 32,
    {
        match self {
            Interrupt::PinInt0 => 0,
            Interrupt::PinInt1 => 1,
            Interrupt::PinInt2 => 2,
            Interrupt::PinInt3 => 3,
            Interrupt::PinInt4 => 4,
            Interrupt::PinInt5 => 5,
            Interrupt::PinInt6 => 6,
            Interrupt::PinInt7 => 7,
            Interrupt::Gint0 => 8,
            Interrupt::Gint1 => 9,
            Interrupt::Rit => 12,
            Interrupt::Ct16b0 => 16,
            Interrupt::Ct16b1 => 17,
            Interrupt::Ct32b0 => 18,
            Interrupt::Ct32b1 => 19,
            Interrupt::Usart => 21,
            Interrupt::Wwdt => 25,
            Interrupt::Bod => 26,
            Interrupt::UsbWakeup => 30,
        }
    }

    /// The pin interrupt of a channel.
    pub open spec fn of_channel(channel: u8) -> Interrupt {
        if channel == 0 {
            Interrupt::PinInt0
        } else if channel == 1 {
            Interrupt::PinInt1
        } else if channel == 2 {
            Interrupt::PinInt2
        } else if channel == 3 {
            Interrupt::PinInt3
        } else if channel == 4 {
            Interrupt::PinInt4
        } else if channel == 5 {
            Interrupt::PinInt5
        } else if channel == 6 {
            Interrupt::PinInt6
        } else {
            Interrupt::PinInt7
        }
    }

    /// The pin interrupt of a channel; `None` for a channel above 7.
    pub fn pin_interrupt(channel: u8) -> (r: Option<Interrupt>)
        ensures
            r == (if channel <= 7 {
                Some(Interrupt::of_channel(channel))
            } else {
                None
            }),
            r matches Some(irq) ==> irq.number() == channel,
    {
        match channel {
            0 => Some(Interrupt::PinInt0),
            1 => Some(Interrupt::PinInt1),
            2 => Some(Interrupt::PinInt2),
            3 => Some(Interrupt::PinInt3),
            4 => Some(Interrupt::PinInt4),
            5 => Some(Interrupt::PinInt5),
            6 => Some(Interrupt::PinInt6),
            7 => Some(Interrupt::PinInt7),
            _ => None,
        }
    }
}

/// The interrupt controller. Bit `n` of `enabled` is set while source `n` is
/// enabled.
#[derive(Clone, Copy, Debug, PartialEq, Eq, Structural)]
pub struct Nvic {
    pub enabled: u32,
}

impl Nvic {
    /// A controller with every source disabled.
    pub fn new() -> (n: Nvic)
        ensures
            n.enabled == 0,
    {
        Nvic { enabled: 0 }
    }

    /// Enables a source; the others stay as they are.
    pub fn enable(&mut self, irq: Interrupt)
        ensures
            final(self).enabled == with_bit(old(self).enabled, irq.number(), true),
    {
        self.enabled = set_bit(self.enabled, irq.nr(), true);
    }

    /// Disables a source; the others stay as they are.
    pub fn disable(&mut self, irq: Interrupt)
        ensures
            final(self).enabled == with_bit(old(self).enabled, irq.number(), false),
    {
        self.enabled = set_bit(self.enabled, irq.nr(), false);
    }

    /// Whether a source is enabled.
    pub fn is_enabled(&self, irq: Interrupt) -> (b: bool)
        ensures
            b == bit(self.enabled, irq.number()),
    {
        get_bit(self.enabled, irq.nr())
    }
}

} // verus!
