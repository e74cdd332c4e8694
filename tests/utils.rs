use lc3_vm::utils::sign_extend;

#[test]
fn test_sign_extend() {
    assert_eq!(sign_extend(0u16, 1), 0u16);
    assert_eq!(sign_extend(13u16, 0), 13u16);
    assert_eq!(sign_extend(13u16, 5), 13u16);
    assert_eq!(sign_extend(13u16, 4), 0b1111_1111_1111_1101u16);
}

#[test]
fn test_end_swap() {
    assert_eq!(0x6969u16.rotate_right(8), 0x6969u16);
    assert_eq!(0x6699u16.rotate_right(8), 0x9966u16);
    assert_eq!(0x6996u16.rotate_right(8), 0x9669u16);
    assert_eq!(
        0b1100_1010_1101_0110u16.rotate_right(8),
        0b1101_0110_1100_1010u16
    );
}

#[test]
fn sign_extend_keeps_low_bits_and_copies_sign() {
    // negative 9-bit field
    assert_eq!(sign_extend(0b1_0000_0001, 9), 0b1111_1111_0000_0001);
    // positive field with junk above it: the junk is cleared
    assert_eq!(sign_extend(0b1110_0000_0000_0101, 5), 0b0000_0000_0000_0101);
    // negative 11-bit field
    assert_eq!(sign_extend(0x7FF, 11), 0xFFFF);
    // all bits significant
    assert_eq!(sign_extend(0x8001, 16), 0x8001);
    assert_eq!(sign_extend(0x8001, 20), 0x8001);
    // width one
    assert_eq!(sign_extend(1, 1), 0xFFFF);
    assert_eq!(sign_extend(2, 1), 0);
}
