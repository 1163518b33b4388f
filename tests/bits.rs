use k210_hal::bits::{u32_bit_is_clear, u32_bit_is_set, u32_set_bit, u32_toggle_bit};

#[test]
fn set_and_clear_single_bits() {
    assert_eq!(u32_set_bit(0, true, 6), 0x40);
    assert_eq!(u32_set_bit(0xffff_ffff, false, 31), 0x7fff_ffff);
    assert_eq!(u32_set_bit(0x40, true, 6), 0x40);
    assert!(u32_bit_is_set(0x40, 6));
    assert!(u32_bit_is_clear(0x40, 5));
    assert_eq!(u32_toggle_bit(0x41, 0), 0x40);
    assert_eq!(u32_toggle_bit(0x40, 1), 0x42);
}

#[test]
fn updates_on_two_bits_both_take_effect() {
    let word = 0x0000_f00fu32;
    let a = u32_set_bit(u32_set_bit(word, true, 6), false, 12);
    let b = u32_set_bit(u32_set_bit(word, false, 12), true, 6);
    assert_eq!(a, b);
    assert!(u32_bit_is_set(a, 6));
    assert!(u32_bit_is_clear(a, 12));
    assert_eq!(a, 0x0000_e04f);
}
