use lpc1347_rtfm3::bits::{get_bit, get_field, mask_of, set_bit, set_field};

#[test]
fn mask_has_the_lowest_bits_set() {
    assert_eq!(mask_of(0), 0);
    assert_eq!(mask_of(1), 1);
    assert_eq!(mask_of(12), 0xFFF);
    assert_eq!(mask_of(31), 0x7FFF_FFFF);
    assert_eq!(mask_of(32), 0xFFFF_FFFF);
}

#[test]
fn written_bit_reads_back_and_no_other_bit_moves() {
    assert_eq!(set_bit(0, 0, true), 1);
    assert_eq!(set_bit(0, 31, true), 0x8000_0000);
    assert_eq!(set_bit(0xFFFF_FFFF, 31, false), 0x7FFF_FFFF);
    assert_eq!(set_bit(0x0000_00F0, 4, false), 0x0000_00E0);
    assert_eq!(set_bit(0x0000_00F0, 4, true), 0x0000_00F0);
    for pos in 0..32 {
        for value in [false, true] {
            let written = set_bit(0xA5A5_5A5A, pos, value);
            for other in 0..32 {
                let expected = if other == pos { value } else { get_bit(0xA5A5_5A5A, other) };
                assert_eq!(get_bit(written, other), expected);
            }
        }
    }
}

#[test]
fn field_is_read_from_its_offset() {
    assert_eq!(get_field(0x1234_5678, 8, 12), 0x456);
    assert_eq!(get_field(0x1234_5678, 0, 32), 0x1234_5678);
    assert_eq!(get_field(0x1234_5678, 28, 4), 0x1);
    assert_eq!(get_field(0x8000_0000, 31, 1), 1);
}

#[test]
fn written_field_keeps_the_bits_around_it() {
    assert_eq!(set_field(0xFFFF_FFFF, 4, 8, 0xAB), 0xFFFF_FABF);
    assert_eq!(set_field(0, 4, 8, 0xAB), 0x0000_0AB0);
    assert_eq!(set_field(0x1234_5678, 0, 32, 0xDEAD_BEEF), 0xDEAD_BEEF);
    assert_eq!(set_field(0x1234_5678, 24, 8, 0), 0x0034_5678);
}

#[test]
fn value_wider_than_the_field_is_cut_to_the_field() {
    assert_eq!(set_field(0, 0, 4, 0x1F), 0xF);
    assert_eq!(set_field(0xFFFF_0000, 8, 2, 0xFF), 0xFFFF_0300);
    assert_eq!(get_field(set_field(0, 5, 2, 7), 5, 2), 3);
}
