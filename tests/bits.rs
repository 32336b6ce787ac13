use gb_emu::util::bits::Bits;

#[test]
fn test_u8_bit() {
    let a0: u8 = 0b0000_1110;

    assert_eq!(a0.bit(0), 0b0);
    assert_eq!(a0.bit(1), 0b1);
    assert_eq!(a0.bit(3), 0b1);
    assert_eq!(a0.bit(4), 0b0);
    assert_eq!(a0.bit(7), 0b0);
}

#[test]
fn test_u8_bits() {
    let x: u8 = 0b0000_1110;
    assert_eq!(x.bits(3, 1), 0b111);
    assert_eq!(x.bits(4, 2), 0b011);

    let x: u8 = 0b0100_0001;
    assert_eq!(x.bits(7, 0), 0b0100_0001);
    assert_eq!(x.bits(3, 0), 0b0001);
    assert_eq!(x.bits(7, 4), 0b0100);
}

#[test]
fn test_u8_set_bit() {
    let mut x: u8 = 0b0000_0000;
    x.set_bit(5, 1);
    assert_eq!(x, 0b0010_0000);

    let mut x: u8 = 0b1111_1111;
    x.set_bit(5, 0);
    assert_eq!(x, 0b1101_1111);
}

#[test]
fn test_u8_set_bits() {
    let mut x: u8 = 0b0000_0000;
    x.set_bits(5, 2, 0b1111);
    assert_eq!(x, 0b0011_1100);

    let mut x: u8 = 0b1011_0110;
    x.set_bits(6, 3, 0b1001);
    assert_eq!(x, 0b1100_1110);
}

#[test]
fn test_u8_set_bits_masked() {
    let mut x: u8 = 0b0000_0000;
    x.set_bits_masked(0b1010_1010, 0b1111_1111);
    assert_eq!(x, 0b1010_1010);

    let mut x: u8 = 0b1010_1010;
    x.set_bits_masked(0b0000_1111, 0b0000_0000);
    assert_eq!(x, 0b1010_0000);
}

#[test]
fn test_u16_bit() {
    let a0: u16 = 0b1111_1101_0000_1110;

    assert_eq!(a0.bit(0), 0b0);
    assert_eq!(a0.bit(1), 0b1);
    assert_eq!(a0.bit(3), 0b1);
    assert_eq!(a0.bit(4), 0b0);
    assert_eq!(a0.bit(7), 0b0);
    assert_eq!(a0.bit(9), 0b0);
    assert_eq!(a0.bit(11), 0b1);
    assert_eq!(a0.bit(15), 0b1);
}

#[test]
fn test_u16_bits() {
    let x: u16 = 0b0000_1110_0000_1110;
    assert_eq!(x.bits(3, 1), 0b111);
    assert_eq!(x.bits(4, 2), 0b011);

    let x: u16 = 0b0100_0001_0100_0001;
    assert_eq!(x.bits(7, 0), 0b0100_0001);
    assert_eq!(x.bits(3, 0), 0b0001);
    assert_eq!(x.bits(12, 4), 0b0_0001_0100);
    assert_eq!(x.bits(15, 8), 0b0100_0001);
}

#[test]
fn set_bits_then_bits_gives_value_cut_to_field() {
    for x in 0..=255u8 {
        for lo in 0..8u8 {
            for hi in lo..8u8 {
                for v in [0u8, 1, 0x5A, 0xFF, 0x13] {
                    let mut y = x;
                    y.set_bits(hi, lo, v);
                    let width = hi - lo + 1;
                    let mask: u8 = if width == 8 { 0xFF } else { (1u8 << width) - 1 };
                    assert_eq!(y.bits(hi, lo), v & mask);
                    // Bits outside the field keep their value.
                    let field: u8 = mask << lo;
                    assert_eq!(y & !field, x & !field);
                }
            }
        }
    }
}

#[test]
fn set_bit_then_bit_round_trips_and_keeps_others() {
    for x in 0..=255u8 {
        for idx in 0..8u8 {
            for v in 0..2u8 {
                let mut y = x;
                y.set_bit(idx, v);
                assert_eq!(y.bit(idx), v);
                for other in 0..8u8 {
                    if other != idx {
                        assert_eq!(y.bit(other), x.bit(other));
                    }
                }
            }
        }
    }
}

#[test]
fn toggle_bit_flips_one_bit() {
    let mut x: u8 = 0b0000_0100;
    assert_eq!(x.toggle_bit(2), 0);
    assert_eq!(x, 0);
    assert_eq!(x.toggle_bit(7), 1);
    assert_eq!(x, 0b1000_0000);
}

#[test]
fn u16_set_bits_writes_field() {
    let mut x: u16 = 0xFFFF;
    x.set_bits(11, 4, 0);
    assert_eq!(x, 0xF00F);
    x.set_bit(15, 0);
    assert_eq!(x, 0x700F);
    x.set_bits_masked(0x00F0, 0x1234);
    assert_eq!(x, 0x703F);
}
