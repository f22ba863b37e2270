use minikernel::vga_buffer::{self, Color, ColorCode, Console, VideoMode, Writer};

#[test]
fn video_mode_parameters() {
    assert_eq!(VideoMode::Text80x25.dimensions(), (80, 25));
    assert_eq!(VideoMode::Text80x25.memory_address(), 0xb8000);
}

#[test]
fn fresh_writer_is_blank() {
    let w = Writer::new();
    assert_eq!(w.column(), 0);
    assert_eq!(w.cell_at(0, 0).ascii_character, b' ');
    assert_eq!(w.cell_at(24, 79).ascii_character, b' ');
}

#[test]
fn writing_a_byte_lands_on_the_last_row() {
    let mut w = Writer::new();
    w.write_byte(b'A');
    assert_eq!(w.column(), 1);
    assert_eq!(w.cell_at(24, 0).ascii_character, b'A');
    assert_eq!(
        w.cell_at(24, 0).color_code,
        ColorCode::new(Color::LightGreen, Color::Black)
    );
}

#[test]
fn full_row_plus_one_scrolls_exactly_once() {
    let mut w = Writer::new();
    // fill the row: the 80 characters stay on the last row
    for _ in 0..80 {
        w.write_byte(b'x');
    }
    assert_eq!(w.column(), 80);
    assert_eq!(w.cell_at(24, 79).ascii_character, b'x');
    assert_eq!(w.cell_at(23, 0).ascii_character, b' ');
    // one more printable character: exactly one scroll, column reset
    // to the row start, and the character placed there
    w.write_byte(b'y');
    assert_eq!(w.column(), 1);
    assert_eq!(w.cell_at(23, 0).ascii_character, b'x');
    assert_eq!(w.cell_at(23, 79).ascii_character, b'x');
    assert_eq!(w.cell_at(24, 0).ascii_character, b'y');
    assert_eq!(w.cell_at(24, 1).ascii_character, b' ');
}

#[test]
fn newline_scrolls_and_resets_column() {
    let mut w = Writer::new();
    w.write_byte(b'A');
    w.write_byte(b'\n');
    assert_eq!(w.column(), 0);
    assert_eq!(w.cell_at(23, 0).ascii_character, b'A');
    assert_eq!(w.cell_at(24, 0).ascii_character, b' ');
}

#[test]
fn delete_char_blanks_the_previous_cell() {
    let mut w = Writer::new();
    w.write_byte(b'A');
    w.write_byte(b'B');
    w.delete_char();
    assert_eq!(w.column(), 1);
    assert_eq!(w.cell_at(24, 0).ascii_character, b'A');
    assert_eq!(w.cell_at(24, 1).ascii_character, b' ');
}

#[test]
fn delete_char_at_column_zero_is_a_noop() {
    let mut w = Writer::new();
    w.delete_char();
    assert_eq!(w.column(), 0);
    assert_eq!(w.cell_at(24, 0).ascii_character, b' ');
    // also at column zero of the top row of a freshly scrolled screen
    w.write_byte(b'\n');
    w.delete_char();
    assert_eq!(w.column(), 0);
}

#[test]
fn clear_screen_blanks_everything() {
    let mut w = Writer::new();
    w.write_byte(b'A');
    w.write_byte(b'B');
    w.clear_screen();
    assert_eq!(w.column(), 0);
    assert_eq!(w.cell_at(24, 0).ascii_character, b' ');
    assert_eq!(w.cell_at(24, 1).ascii_character, b' ');
}

#[test]
fn color_setters_touch_only_their_nibble() {
    let mut w = Writer::new();
    w.set_foreground_color(Color::Red);
    assert_eq!(w.color_code, ColorCode::new(Color::Red, Color::Black));
    w.set_background_color(Color::Blue);
    assert_eq!(w.color_code, ColorCode::new(Color::Red, Color::Blue));
}

#[test]
fn print_overrides_color_once_and_restores_the_default() {
    let mut con = Console::new();
    vga_buffer::print(&mut con, b"hi", Some(Color::Red), None);
    let guard = con.writer.lock();
    let w = con.writer.borrow();
    assert_eq!(w.cell_at(24, 0).ascii_character, b'h');
    assert_eq!(w.cell_at(24, 1).ascii_character, b'i');
    assert_eq!(
        w.cell_at(24, 0).color_code,
        ColorCode::new(Color::Red, Color::Black)
    );
    assert_eq!(w.color_code, ColorCode::new(Color::LightGreen, Color::Black));
    assert_eq!(w.column(), 2);
    con.writer.unlock(guard);
}

#[test]
fn module_clear_screen_resets_the_grid() {
    let mut con = Console::new();
    vga_buffer::print(&mut con, b"something", None, Some(Color::Blue));
    vga_buffer::clear_screen(&mut con);
    let guard = con.writer.lock();
    let w = con.writer.borrow();
    assert_eq!(w.column(), 0);
    assert_eq!(w.cell_at(24, 0).ascii_character, b' ');
    con.writer.unlock(guard);
}

#[test]
fn module_set_video_mode_blanks_the_fresh_grid() {
    let mut con = Console::new();
    vga_buffer::print(&mut con, b"text", None, None);
    vga_buffer::set_video_mode(&mut con, VideoMode::Text80x25);
    let guard = con.writer.lock();
    let w = con.writer.borrow();
    assert_eq!(w.column(), 0);
    assert_eq!(w.cell_at(24, 0).ascii_character, b' ');
    con.writer.unlock(guard);
}
