use minikernel::parse::{parse_hex_u16, parse_hex_u32, parse_hex_u64, parse_hex_u8};

#[test]
fn parses_prefixed_and_bare_values() {
    assert_eq!(parse_hex_u32(b"0x1F0"), Some(0x1F0));
    assert_eq!(parse_hex_u32(b"1f0"), Some(0x1F0));
    assert_eq!(parse_hex_u32(b"00ff"), Some(0xFF));
    assert_eq!(parse_hex_u16(b"0xA1"), Some(0xA1));
}

#[test]
fn strips_repeated_prefixes() {
    // the prefix trim removes every leading `0x` pair
    assert_eq!(parse_hex_u32(b"0x0x10"), Some(0x10));
}

#[test]
fn accepts_one_leading_plus() {
    assert_eq!(parse_hex_u8(b"+ff"), Some(0xFF));
    assert_eq!(parse_hex_u8(b"++ff"), None);
}

#[test]
fn rejects_empty_and_stray_bytes() {
    assert_eq!(parse_hex_u32(b""), None);
    assert_eq!(parse_hex_u32(b"0x"), None);
    assert_eq!(parse_hex_u32(b"+"), None);
    assert_eq!(parse_hex_u32(b"12g4"), None);
    assert_eq!(parse_hex_u32(b" 12"), None);
}

#[test]
fn enforces_the_target_width() {
    assert_eq!(parse_hex_u8(b"ff"), Some(0xFF));
    assert_eq!(parse_hex_u8(b"100"), None);
    assert_eq!(parse_hex_u16(b"ffff"), Some(0xFFFF));
    assert_eq!(parse_hex_u16(b"10000"), None);
    assert_eq!(parse_hex_u32(b"0xFFFFFFFF"), Some(u32::MAX));
    assert_eq!(parse_hex_u32(b"0x100000000"), None);
    assert_eq!(parse_hex_u64(b"0xFFFFFFFFFFFFFFFF"), Some(u64::MAX));
    assert_eq!(parse_hex_u64(b"0x10000000000000000"), None);
}

#[test]
fn upper_and_lower_case_digits_agree() {
    assert_eq!(parse_hex_u32(b"aBcDeF"), Some(0xABCDEF));
    assert_eq!(parse_hex_u32(b"ABCDEF"), Some(0xABCDEF));
}
