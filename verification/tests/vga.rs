use kurogane_os::vga_buffer::{Color, ColorCode, Writer, BUFFER_HEIGHT, BUFFER_WIDTH};

fn fresh_writer() -> Writer {
    Writer::new(ColorCode::new(Color::Yellow, Color::Black))
}

#[test]
fn trivial_assertion() {
    assert!(kurogane_os::trivial_assertion());
}

#[test]
fn color_code_packs_background_above_foreground() {
    assert_eq!(ColorCode::new(Color::Yellow, Color::Black).as_byte(), 14);
    assert_eq!(ColorCode::new(Color::White, Color::Blue).as_byte(), 0x1f);
    assert_eq!(ColorCode::new(Color::Black, Color::White).as_byte(), 0xf0);
}

#[test]
fn new_writer_is_blank() {
    let w = fresh_writer();
    assert_eq!(w.column_position(), 0);
    for row in 0..BUFFER_HEIGHT {
        for col in 0..BUFFER_WIDTH {
            let cell = w.read_cell(row, col);
            assert_eq!(cell.ascii_character, b' ');
            assert_eq!(cell.color_code, w.color_code());
        }
    }
}

#[test]
fn test_println_simple() {
    // One short printable string lands in the bottom row, byte for byte,
    // in the active style.
    let mut w = fresh_writer();
    let s = "test_println_simple_output";
    w.write_string(s);
    assert_eq!(w.column_position(), s.len());
    for (i, b) in s.bytes().enumerate() {
        let cell = w.read_cell(BUFFER_HEIGHT - 1, i);
        assert_eq!(cell.ascii_character, b);
        assert_eq!(cell.color_code, w.color_code());
    }
    // The rest of the bottom row is untouched.
    for col in s.len()..BUFFER_WIDTH {
        assert_eq!(w.read_cell(BUFFER_HEIGHT - 1, col).ascii_character, b' ');
    }
}

#[test]
fn test_println_many() {
    // 200 short lines scroll without corrupting cell state.
    let mut w = fresh_writer();
    for _ in 0..200 {
        w.write_string("test_println_many output\n");
    }
    assert_eq!(w.column_position(), 0);
    // Every visible row is either blank or a copy of the line.
    let line = "test_println_many output";
    for row in 0..BUFFER_HEIGHT {
        let first = w.read_cell(row, 0).ascii_character;
        if first == b' ' {
            for col in 0..BUFFER_WIDTH {
                assert_eq!(w.read_cell(row, col).ascii_character, b' ');
            }
        } else {
            for (i, b) in line.bytes().enumerate() {
                assert_eq!(w.read_cell(row, i).ascii_character, b);
            }
        }
    }
}

#[test]
fn test_println_output() {
    // A newline, the string, then a newline: the string sits one row above
    // the bottom.
    let mut w = fresh_writer();
    let s = "Some test string that fits on a single line";
    w.write_string("\n");
    w.write_string(s);
    w.write_string("\n");
    for (i, b) in s.bytes().enumerate() {
        assert_eq!(w.read_cell(BUFFER_HEIGHT - 2, i).ascii_character, b);
    }
}

#[test]
fn scroll_and_reprint_keeps_order() {
    // Write a line, complete it, write it again: the first copy is one row
    // above the second.
    let mut w = fresh_writer();
    let s = "scroll me";
    w.write_string(s);
    w.write_string("\n");
    w.write_string(s);
    for (i, b) in s.bytes().enumerate() {
        assert_eq!(w.read_cell(BUFFER_HEIGHT - 2, i).ascii_character, b);
        assert_eq!(w.read_cell(BUFFER_HEIGHT - 1, i).ascii_character, b);
    }
}

#[test]
fn unprintable_bytes_become_placeholder() {
    // A two-byte UTF-8 character and a control character are stored as the
    // placeholder glyph 0xFE, never as their own bytes.
    let mut w = fresh_writer();
    w.write_string("é");
    assert_eq!(w.read_cell(BUFFER_HEIGHT - 1, 0).ascii_character, 0xfe);
    assert_eq!(w.read_cell(BUFFER_HEIGHT - 1, 1).ascii_character, 0xfe);
    w.write_string("\u{1}");
    assert_eq!(w.read_cell(BUFFER_HEIGHT - 1, 2).ascii_character, 0xfe);
    assert_eq!(w.column_position(), 3);
}

#[test]
fn long_line_scrolls_once_per_width() {
    // 85 printable bytes with no newline: one scroll, five bytes on the
    // bottom row, the first eighty one row above.
    let mut w = fresh_writer();
    let mut line = String::new();
    for i in 0..85 {
        line.push((b'a' + (i % 26) as u8) as char);
    }
    w.write_string(&line);
    assert_eq!(w.column_position(), 5);
    let bytes = line.as_bytes();
    for col in 0..BUFFER_WIDTH {
        assert_eq!(w.read_cell(BUFFER_HEIGHT - 2, col).ascii_character, bytes[col]);
    }
    for col in 0..5 {
        assert_eq!(w.read_cell(BUFFER_HEIGHT - 1, col).ascii_character, bytes[80 + col]);
    }
    for col in 5..BUFFER_WIDTH {
        assert_eq!(w.read_cell(BUFFER_HEIGHT - 1, col).ascii_character, b' ');
    }
}

#[test]
fn whole_grid_overwritten_after_enough_bytes() {
    // More than height x width printable bytes leave nothing of the
    // original (blank) grid: even the top row now holds written bytes.
    let mut w = fresh_writer();
    let mut line = String::new();
    for _ in 0..(25 * 80 + 5) {
        line.push('x');
    }
    w.write_string(&line);
    assert_eq!(w.column_position(), 5);
    for col in 0..BUFFER_WIDTH {
        assert_eq!(w.read_cell(0, col).ascii_character, b'x');
    }
    for col in 0..5 {
        assert_eq!(w.read_cell(BUFFER_HEIGHT - 1, col).ascii_character, b'x');
    }
}

#[test]
fn write_byte_places_raw_byte() {
    let mut w = fresh_writer();
    w.write_byte(b'H');
    assert_eq!(w.read_cell(BUFFER_HEIGHT - 1, 0).ascii_character, b'H');
    assert_eq!(w.column_position(), 1);
    w.write_byte(b'\n');
    assert_eq!(w.column_position(), 0);
    assert_eq!(w.read_cell(BUFFER_HEIGHT - 2, 0).ascii_character, b'H');
    assert_eq!(w.read_cell(BUFFER_HEIGHT - 1, 0).ascii_character, b' ');
}
