//! The pin configuration block: what each pin is connected to.

use crate::bits::{set_bit, set_field, with_bit, with_field};
use vstd::prelude::*;

verus! {

/// The pin configuration registers that the drivers use, one per pin.
///
/// In each register bits 2..0 select the pin's function and bits 4..3 its
/// pull resistors; on a pin with an analog input, bit 7 is clear for analog
/// mode.
#[derive(Clone, Copy, Debug, PartialEq, Eq, Structural)]
pub struct Iocon {
    pub pio0_1: u32,
    pub pio0_7: u32,
    pub tdi_pio0_11: u32,
    pub tms_pio0_12: u32,
    pub tdo_pio0_13: u32,
    pub trst_pio0_14: u32,
    pub swdio_pio0_15: u32,
    pub pio0_16: u32,
    pub pio0_17: u32,
    pub pio0_18: u32,
    pub pio0_19: u32,
    pub pio0_22: u32,
    pub pio0_23: u32,
}

pub const FUNC_OFFSET: u32 = 0;
pub const FUNC_WIDTH: u32 = 3;
pub const MODE_OFFSET: u32 = 3;
pub const MODE_WIDTH: u32 = 2;

/// Bit that is clear while a pin is in analog mode.
pub const ADMODE: u32 = 7;

/// A pin register with the function selected.
pub open spec fn with_func(pin: u32, func: u32) -> u32 {
    with_field(pin, FUNC_OFFSET, FUNC_WIDTH, func)
}

/// A pin register with the pull resistors selected.
pub open spec fn with_mode(pin: u32, mode: u32) -> u32 {
    with_field(pin, MODE_OFFSET, MODE_WIDTH, mode)
}

/// A pin register in analog mode with the function selected.
pub open spec fn analog(pin: u32, func: u32) -> u32 {
    with_func(with_bit(pin, ADMODE, false), func)
}

/// Selects the function of a pin.
pub fn select_func(pin: u32, func: u32) -> (r: u32)
    ensures
        r == with_func(pin, func),
{
    set_field(pin, FUNC_OFFSET, FUNC_WIDTH, func)
}

/// Selects the pull resistors of a pin.
pub fn select_mode(pin: u32, mode: u32) -> (r: u32)
    ensures
        r == with_mode(pin, mode),
{
    set_field(pin, MODE_OFFSET, MODE_WIDTH, mode)
}

/// Puts a pin in analog mode and selects its function.
pub fn select_analog(pin: u32, func: u32) -> (r: u32)
    ensures
        r == analog(pin, func),
{
    select_func(set_bit(pin, ADMODE, false), func)
}

impl Iocon {
    /// A block with every register cleared.
    pub fn new() -> (i: Iocon)
        ensures
            i == (Iocon {
                pio0_1: 0,
                pio0_7: 0,
                tdi_pio0_11: 0,
                tms_pio0_12: 0,
                tdo_pio0_13: 0,
                trst_pio0_14: 0,
                swdio_pio0_15: 0,
                pio0_16: 0,
                pio0_17: 0,
                pio0_18: 0,
                pio0_19: 0,
                pio0_22: 0,
                pio0_23: 0,
            }),
    {
        Iocon {
            pio0_1: 0,
            pio0_7: 0,
            tdi_pio0_11: 0,
            tms_pio0_12: 0,
            tdo_pio0_13: 0,
            trst_pio0_14: 0,
            swdio_pio0_15: 0,
            pio0_16: 0,
            pio0_17: 0,
            pio0_18: 0,
            pio0_19: 0,
            pio0_22: 0,
            pio0_23: 0,
        }
    }
}

} // verus!
