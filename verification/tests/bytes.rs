use bsp_loader::bytes::{
    ascii_lower, eq_ignore_ascii_case, u16_be_at, u16_le_at, u32_be_at, u32_le_at,
};

#[test]
fn fixed_width_reads() {
    let d = [0x12, 0x34, 0x56, 0x78, 0x9a];
    assert_eq!(u16_le_at(&d, 0), 0x3412);
    assert_eq!(u16_be_at(&d, 1), 0x3456);
    assert_eq!(u32_le_at(&d, 0), 0x7856_3412);
    assert_eq!(u32_be_at(&d, 1), 0x3456_789a);
}

#[test]
fn text_helpers() {
    assert_eq!(ascii_lower(b'Q'), b'q');
    assert_eq!(ascii_lower(b'['), b'[');
    assert!(eq_ignore_ascii_case(b"D1.DAT", b"d1.dat"));
    assert!(!eq_ignore_ascii_case(b"d1.dat", b"d1.da"));
    assert!(!eq_ignore_ascii_case(b"[", b"{"));
}
