use nes_emu::bit_utils::{
    bit_set, bits_mask, bits_ranges_mask, copy_bit, copy_bit_ranges, copy_bits, extract_bits_ranges, get_bits,
    nth_bit, set_bit, set_bits, toggle_bit,
};

#[test]
fn nth_bit_is_a_power_of_two() {
    assert_eq!(nth_bit::<u8>(3), 0x08);
    assert_eq!(nth_bit::<u16>(15), 0x8000);
}

#[test]
fn masks_cover_their_range() {
    assert_eq!(bits_mask::<u16>(4..8), 0x00F0);
    assert_eq!(bits_mask::<u8>(0..0), 0x00);
    // A mask reaching past the width is cut to it.
    assert_eq!(bits_mask::<u8>(4..11), 0xF0);
    assert_eq!(bits_ranges_mask::<u16>(&[0..5, 10..11]), 0x041F);
    assert_eq!(bits_ranges_mask::<u16>(&[]), 0x0000);
}

#[test]
fn single_bit_operations() {
    assert!(bit_set(0b100u8, 2));
    assert!(!bit_set(0b100u8, 1));
    assert_eq!(set_bit(0u8, 7, true), 0x80);
    assert_eq!(set_bit(0xFFu8, 0, false), 0xFE);
    assert_eq!(toggle_bit(0x0400u16, 10), 0x0000);
    assert_eq!(toggle_bit(0x0000u16, 11), 0x0800);
    assert_eq!(copy_bit(0u8, 0xFF, 3), 0x08);
}

#[test]
fn fields_are_moved_down_to_bit_zero() {
    assert_eq!(get_bits(0b1101_0000u8, 4..8), 0b1101);
    assert_eq!(get_bits(0x7BE0u16, 5..10), 0x1F);
    assert_eq!(extract_bits_ranges(0xFFFFu16, &[0..5, 10..11]), 0x041F);
}

#[test]
fn fields_are_replaced_in_place() {
    assert_eq!(set_bits(0xFFFFu16, 12..15, 0b010), 0xAFFF);
    // Only the low bits of the new value are used.
    assert_eq!(set_bits(0x0000u16, 0..5, 0xFFFF), 0x001F);
    assert_eq!(copy_bits(0u16, 0x7BE0, 5..10), 0x03E0);
    assert_eq!(copy_bit_ranges(0x0000u16, 0x7FFF, &[0..5, 10..11]), 0x041F);
    assert_eq!(copy_bit_ranges(0xFFFFu16, 0x0000, &[5..10, 11..15]), 0x841F);
}

#[test]
fn set_then_get_gives_back_the_field() {
    let v = set_bits(0x1234u16, 4..9, 0x15);
    assert_eq!(get_bits(v, 4..9), 0x15);
}
