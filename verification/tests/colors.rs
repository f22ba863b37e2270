use minikernel::vga_buffer::{Color, ColorCode};

#[test]
fn color_roundtrip_all_pairs() {
    for fg in 0u8..16 {
        for bg in 0u8..16 {
            let f = Color::from_u8(fg);
            let b = Color::from_u8(bg);
            let code = ColorCode::new(f, b);
            assert_eq!(code.foreground(), f);
            assert_eq!(code.background(), b);
        }
    }
}

#[test]
fn color_from_u8_out_of_range_is_white() {
    assert_eq!(Color::from_u8(16), Color::White);
    assert_eq!(Color::from_u8(255), Color::White);
}

#[test]
fn color_numbers_match_palette() {
    assert_eq!(Color::Black.number(), 0);
    assert_eq!(Color::Blue.number(), 1);
    assert_eq!(Color::LightGreen.number(), 10);
    assert_eq!(Color::White.number(), 15);
}

#[test]
fn attribute_byte_layout() {
    // background in the high nibble, foreground in the low nibble
    let code = ColorCode::new(Color::Blue, Color::Red);
    assert_eq!(code.0, (4 << 4) | 1);
    let code = ColorCode::new(Color::White, Color::Black);
    assert_eq!(code.0, 0x0F);
}
