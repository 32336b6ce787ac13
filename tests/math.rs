use gb_emu::util::math::{add16_ui, add16_uu, join_16, split_16};

#[test]
fn test_join16_split16() {
    let x = join_16(0xFF, 0x77);
    assert_eq!(x, 0xFF77);

    let (hi, lo) = split_16(x);
    assert_eq!(hi, 0xFF);
    assert_eq!(lo, 0x77);

    let x = join_16(0x12, 0xAD);
    assert_eq!(x, 0x12AD);

    let (hi, lo) = split_16(x);
    assert_eq!(hi, 0x12);
    assert_eq!(lo, 0xAD);
}

#[test]
fn test_add16_ui() {
    let y = add16_ui(0xFFFF, 0);
    assert_eq!(y, 0xFFFF);

    let y = add16_ui(0xFFFF, 1);
    assert_eq!(y, 0);

    let y = add16_ui(0, -1);
    assert_eq!(y, 0xFFFF);
}

#[test]
fn add16_ui_extremes() {
    assert_eq!(add16_ui(0x8000, i16::MIN), 0x0000);
    assert_eq!(add16_ui(0x0100, -2), 0x00FE);
    assert_eq!(add16_ui(0x7FFF, i16::MAX), 0xFFFE);
}

#[test]
fn add16_uu_wraps() {
    assert_eq!(add16_uu(0xFFFF, 2), 1);
    assert_eq!(add16_uu(0x1234, 0x1111), 0x2345);
}

#[test]
fn split_join_round_trip_everywhere() {
    for x in 0..=0xFFFFu16 {
        let (h, l) = split_16(x);
        assert_eq!(join_16(h, l), x);
    }
    for h in 0..=255u8 {
        for l in 0..=255u8 {
            assert_eq!(split_16(join_16(h, l)), (h, l));
        }
    }
}
