//! The repetitive-interrupt timer.

use crate::bits::{set_bit, set_field, with_bit, with_field};
use crate::nvic::{Interrupt, Nvic};
use vstd::prelude::*;

verus! {

/// The repetitive-interrupt timer block. The counter, the compare value and
/// the mask are 48 bits wide: 32 bits in one register and 16 in bits 15..0 of
/// a second.
#[derive(Clone, Copy, Debug, PartialEq, Eq, Structural)]
pub struct Ritimer {
    pub compval: u32,
    pub mask: u32,
    pub ctrl: u32,
    pub counter: u32,
    pub compval_h: u32,
    pub mask_h: u32,
    pub counter_h: u32,
}

// Bits of the control register.
pub const CTRL_RITENCLR: u32 = 1;
pub const CTRL_RITENBR: u32 = 2;
pub const CTRL_RITEN: u32 = 3;

/// Width of the upper part of the counter, of the compare value and of the
/// mask.
pub const HIGH_WIDTH: u32 = 16;

impl Ritimer {
    /// A block with every register cleared.
    pub fn new() -> (r: Ritimer)
        ensures
            r == (Ritimer {
                compval: 0,
                mask: 0,
                ctrl: 0,
                counter: 0,
                compval_h: 0,
                mask_h: 0,
                counter_h: 0,
            }),
    {
        Ritimer { compval: 0, mask: 0, ctrl: 0, counter: 0, compval_h: 0, mask_h: 0, counter_h: 0 }
    }
}

/// The lower 32 bits of a value.
pub open spec fn low_word(value: u64) -> u32 {
    (value & 0xFFFF_FFFFu64) as u32
}

/// Bits 31..16 of a value.
pub open spec fn second_half_word(value: u64) -> u32 {
    ((value >> 16u64) & 0x0000_FFFFu64) as u32
}

fn split(value: u64) -> (r: (u32, u32))
    ensures
        r.0 == low_word(value),
        r.1 == second_half_word(value),
{
    assert(value & 0xFFFF_FFFFu64 <= 0xFFFF_FFFFu64) by (bit_vector);
    assert((value >> 16u64) & 0x0000_FFFFu64 <= 0xFFFFu64) by (bit_vector);
    ((value & 0xFFFF_FFFFu64) as u32, ((value >> 16u64) & 0x0000_FFFFu64) as u32)
}

/// Initialize the timer
///
/// # Arguments
/// * `clear` - Clear the counter when it reaches the compare value
/// * `debug` - Halt the timer while the core is halted for debugging
pub fn init(rit: &mut Ritimer, clear: bool, debug: bool)
    ensures
        *final(rit) == (Ritimer {
            ctrl: with_bit(with_bit(old(rit).ctrl, CTRL_RITENCLR, clear), CTRL_RITENBR, debug),
            ..*old(rit)
        }),
{
    rit.ctrl = set_bit(rit.ctrl, CTRL_RITENCLR, clear);
    rit.ctrl = set_bit(rit.ctrl, CTRL_RITENBR, debug);
}

/// Reset the timer
///
/// Clears the counter: the lower register whole, and the 16 bits of the
/// upper.
pub fn reset(rit: &mut Ritimer)
    ensures
        *final(rit) == (Ritimer {
            counter: 0,
            counter_h: with_field(old(rit).counter_h, 0, HIGH_WIDTH, 0),
            ..*old(rit)
        }),
{
    rit.counter = 0;
    rit.counter_h = set_field(rit.counter_h, 0, HIGH_WIDTH, 0);
}

/// Turn the timer on or off
///
/// The timer's interrupt is enabled or disabled with it.
pub fn set_enabled(rit: &mut Ritimer, nvic: &mut Nvic, enable: bool)
    ensures
        *final(rit) == (Ritimer { ctrl: with_bit(old(rit).ctrl, CTRL_RITEN, enable), ..*old(rit) }),
        final(nvic).enabled == with_bit(old(nvic).enabled, Interrupt::Rit.number(), enable),
{
    rit.ctrl = set_bit(rit.ctrl, CTRL_RITEN, enable);
    if enable {
        nvic.enable(Interrupt::Rit);
    } else {
        nvic.disable(Interrupt::Rit);
    }
}

/// Set the comparison bits
///
/// The lower register takes the lower 32 bits of the value, the upper
/// register bits 31..16 of it.
pub fn set_compare(rit: &mut Ritimer, value: u64)
    ensures
        *final(rit) == (Ritimer {
            compval: low_word(value),
            compval_h: with_field(old(rit).compval_h, 0, HIGH_WIDTH, second_half_word(value)),
            ..*old(rit)
        }),
{
    let (low, high) = split(value);
    rit.compval = low;
    rit.compval_h = set_field(rit.compval_h, 0, HIGH_WIDTH, high);
}

/// Set the mask bits
///
/// The lower register takes the lower 32 bits of the value, the upper
/// register bits 31..16 of it.
pub fn set_mask(rit: &mut Ritimer, value: u64)
    ensures
        *final(rit) == (Ritimer {
            mask: low_word(value),
            mask_h: with_field(old(rit).mask_h, 0, HIGH_WIDTH, second_half_word(value)),
            ..*old(rit)
        }),
{
    let (low, high) = split(value);
    rit.mask = low;
    rit.mask_h = set_field(rit.mask_h, 0, HIGH_WIDTH, high);
}

} // verus!
