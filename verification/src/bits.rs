//! Single bits and bit fields of a 32-bit register.
//!
//! A field is given by the position of its lowest bit (`offset`) and its
//! number of bits (`width`). All peripheral drivers go through the four
//! accessors of this module; the lemmas say what the accessors mean.

use vstd::prelude::*;

verus! {

/// Number of bits in a register.
pub const REGISTER_BITS: u32 = 32;

/// A register whose lowest `width` bits are set and whose other bits are clear.
pub open spec fn low_mask(width: u32) -> u32 {
    if width >= 32 {
        0xffff_ffffu32
    } else {
        !(0xffff_ffffu32 << width)
    }
}

/// Whether bit `pos` of `reg` is set.
pub open spec fn bit(reg: u32, pos: u32) -> bool {
    (reg >> pos) & 1u32 == 1u32
}

/// `reg` with bit `pos` set to `value` and every other bit as it was.
pub open spec fn with_bit(reg: u32, pos: u32, value: bool) -> u32 {
    if value {
        reg | (1u32 << pos)
    } else {
        reg & !(1u32 << pos)
    }
}

/// The `width` bits of `reg` that start at bit `offset`, as a number.
pub open spec fn field(reg: u32, offset: u32, width: u32) -> u32 {
    (reg >> offset) & low_mask(width)
}

/// `reg` with the field at `offset` holding the low `width` bits of `value`
/// and every bit outside the field as it was.
pub open spec fn with_field(reg: u32, offset: u32, width: u32, value: u32) -> u32 {
    (reg & !(low_mask(width) << offset)) | ((value & low_mask(width)) << offset)
}

/// A field lies inside a register.
pub open spec fn field_fits(offset: u32, width: u32) -> bool {
    1 <= width && offset + width <= 32
}

/// The mask of the lowest `width` bits.
pub fn mask_of(width: u32) -> (m: u32)
    requires
        width <= 32,
    ensures
        m == low_mask(width),
{
    if width >= 32 {
        0xffff_ffffu32
    } else {
        !(0xffff_ffffu32 << width)
    }
}

/// Reads bit `pos`.
pub fn get_bit(reg: u32, pos: u32) -> (b: bool)
    requires
        pos < 32,
    ensures
        b == bit(reg, pos),
{
    (reg >> pos) & 1u32 == 1u32
}

/// Writes bit `pos`.
pub fn set_bit(reg: u32, pos: u32, value: bool) -> (r: u32)
    requires
        pos < 32,
    ensures
        r == with_bit(reg, pos, value),
{
    if value {
        reg | (1u32 << pos)
    } else {
        reg & !(1u32 << pos)
    }
}

/// Reads the field at `offset`.
pub fn get_field(reg: u32, offset: u32, width: u32) -> (v: u32)
    requires
        field_fits(offset, width),
    ensures
        v == field(reg, offset, width),
{
    (reg >> offset) & mask_of(width)
}

/// Writes the low `width` bits of `value` to the field at `offset`.
pub fn set_field(reg: u32, offset: u32, width: u32, value: u32) -> (r: u32)
    requires
        field_fits(offset, width),
    ensures
        r == with_field(reg, offset, width, value),
{
    let m: u32 = mask_of(width);
    (reg & !(m << offset)) | ((value & m) << offset)
}

/// A written bit reads back, and no other bit moves.
pub proof fn lemma_with_bit(reg: u32, pos: u32, value: bool, other: u32)
    requires
        pos < 32,
        other < 32,
    ensures
        bit(with_bit(reg, pos, value), other) == (if other == pos {
            value
        } else {
            bit(reg, other)
        }),
{
    assert(((reg | (1u32 << pos)) >> other) & 1u32 == (if other == pos {
        1u32
    } else {
        (reg >> other) & 1u32
    })) by (bit_vector)
        requires
            pos < 32,
            other < 32,
    ;
    assert(((reg & !(1u32 << pos)) >> other) & 1u32 == (if other == pos {
        0u32
    } else {
        (reg >> other) & 1u32
    })) by (bit_vector)
        requires
            pos < 32,
            other < 32,
    ;
    assert((reg >> other) & 1u32 == 0u32 || (reg >> other) & 1u32 == 1u32) by (bit_vector);
}

/// Writing a bit twice keeps the second value; writing the value a bit
/// already has changes nothing.
pub proof fn lemma_with_bit_absorbs(reg: u32, pos: u32, first: bool, second: bool)
    requires
        pos < 32,
    ensures
        with_bit(with_bit(reg, pos, first), pos, second) == with_bit(reg, pos, second),
        with_bit(reg, pos, bit(reg, pos)) == reg,
{
    assert((reg | (1u32 << pos)) | (1u32 << pos) == reg | (1u32 << pos)) by (bit_vector);
    assert((reg & !(1u32 << pos)) | (1u32 << pos) == reg | (1u32 << pos)) by (bit_vector);
    assert((reg | (1u32 << pos)) & !(1u32 << pos) == reg & !(1u32 << pos)) by (bit_vector);
    assert((reg & !(1u32 << pos)) & !(1u32 << pos) == reg & !(1u32 << pos)) by (bit_vector);
    assert((reg >> pos) & 1u32 == 1u32 ==> reg | (1u32 << pos) == reg) by (bit_vector)
        requires
            pos < 32,
    ;
    assert((reg >> pos) & 1u32 != 1u32 ==> reg & !(1u32 << pos) == reg) by (bit_vector)
        requires
            pos < 32,
    ;
}

/// A written field reads back as the low `width` bits of what was written.
pub proof fn lemma_with_field_reads_back(reg: u32, offset: u32, width: u32, value: u32)
    requires
        field_fits(offset, width),
    ensures
        field(with_field(reg, offset, width, value), offset, width) == value & low_mask(width),
        value & low_mask(width) <= low_mask(width),
{
    let m = low_mask(width);
    assert((((reg & !(m << offset)) | ((value & m) << offset)) >> offset) & m == value & m)
        by (bit_vector)
        requires
            offset < 32,
            m == (if width >= 32 {
                0xffff_ffffu32
            } else {
                !(0xffff_ffffu32 << width)
            }),
            1 <= width,
            offset + width <= 32,
    ;
    assert(value & m <= m) by (bit_vector);
}

/// Writing a field leaves every bit outside the field as it was.
pub proof fn lemma_with_field_frame(reg: u32, offset: u32, width: u32, value: u32, other: u32)
    requires
        field_fits(offset, width),
        other < 32,
        other < offset || other >= offset + width,
    ensures
        bit(with_field(reg, offset, width, value), other) == bit(reg, other),
{
    let m = low_mask(width);
    assert((((reg & !(m << offset)) | ((value & m) << offset)) >> other) & 1u32 == (reg >> other)
        & 1u32) by (bit_vector)
        requires
            offset < 32,
            other < 32,
            m == (if width >= 32 {
                0xffff_ffffu32
            } else {
                !(0xffff_ffffu32 << width)
            }),
            1 <= width,
            offset + width <= 32,
            other < offset || other >= offset + width,
    ;
}

/// A field of one bit is that bit.
pub proof fn lemma_field_of_one_bit(reg: u32, pos: u32, value: bool)
    requires
        pos < 32,
    ensures
        with_field(reg, pos, 1, if value { 1u32 } else { 0u32 }) == with_bit(reg, pos, value),
        field(reg, pos, 1) == (if bit(reg, pos) { 1u32 } else { 0u32 }),
{
    assert(!(0xffff_ffffu32 << 1u32) == 1u32) by (bit_vector);
    assert((reg & !(1u32 << pos)) | ((1u32 & 1u32) << pos) == reg | (1u32 << pos)) by (bit_vector);
    assert((reg & !(1u32 << pos)) | ((0u32 & 1u32) << pos) == reg & !(1u32 << pos)) by (bit_vector);
    assert((reg >> pos) & 1u32 == 0u32 || (reg >> pos) & 1u32 == 1u32) by (bit_vector);
}

} // verus!
