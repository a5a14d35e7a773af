use workmux::text::{decimal, hex, trim};

#[test]
fn trims_like_std() {
    for c in (0..=0x10ffffu32).filter_map(char::from_u32) {
        let s: String = [c, 'x', c].iter().collect();
        assert_eq!(trim(&s), s.trim());
    }
    assert_eq!(trim("  a b \n"), "a b");
    assert_eq!(trim(" \t\n"), "");
}

#[test]
fn formats_numbers() {
    assert_eq!(decimal(0), "0");
    assert_eq!(decimal(1234567890), "1234567890");
    assert_eq!(decimal(u64::MAX), u64::MAX.to_string());
    assert_eq!(hex(&[0x00, 0x0f, 0xa5, 0xff]), "000fa5ff");
}
