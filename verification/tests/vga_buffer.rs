use kinitos::vga_buffer::{
    BackgroundColor, ColorCode, FontColor, VGAChar, Writer, SCREEN_HEIGHT, SCREEN_WIDTH,
};

fn println(writer: &mut Writer, text: &str) {
    writer.print(text);
    writer.print("\n");
}

#[test]
fn color_codes() {
    assert_eq!(ColorCode::new(FontColor::LightGray, BackgroundColor::Black).code(), 0x07);
    assert_eq!(ColorCode::new(FontColor::Pink, BackgroundColor::Cyan).code(), 0x3d);
    assert_eq!(ColorCode::new(FontColor::White, BackgroundColor::LightGray).code(), 0x7f);
    assert_eq!(ColorCode::new(FontColor::Black, BackgroundColor::Blue).code(), 0x10);
}

#[test]
fn palette_numbers() {
    let font = [
        FontColor::Black,
        FontColor::Blue,
        FontColor::Green,
        FontColor::Cyan,
        FontColor::Red,
        FontColor::Magenta,
        FontColor::Brown,
        FontColor::LightGray,
        FontColor::DarkGray,
        FontColor::LightBlue,
        FontColor::LightGreen,
        FontColor::LightCyan,
        FontColor::LightRed,
        FontColor::Pink,
        FontColor::Yellow,
        FontColor::White,
    ];
    for (number, color) in font.iter().enumerate() {
        assert_eq!(color.code() as usize, number);
    }
    let background = [
        BackgroundColor::Black,
        BackgroundColor::Blue,
        BackgroundColor::Green,
        BackgroundColor::Cyan,
        BackgroundColor::Red,
        BackgroundColor::Magenta,
        BackgroundColor::Brown,
        BackgroundColor::LightGray,
    ];
    for (number, color) in background.iter().enumerate() {
        assert_eq!(color.code() as usize, number);
    }
}

#[test]
fn new_writer_is_blank() {
    let writer = Writer::new();
    assert_eq!(writer.row_position(), 0);
    assert_eq!(writer.column_position(), 0);
    assert_eq!(writer.color().code(), 0x07);
    let blank = VGAChar { character: b' ', color_code: writer.color() };
    for row in 0..SCREEN_HEIGHT {
        for column in 0..SCREEN_WIDTH {
            assert_eq!(writer.char_at(row, column), blank);
        }
    }
}

#[test]
fn test_simple_print_char_char_val() {
    let mut writer = Writer::new();
    let c = b'a';
    writer.print_char(c);
    let rowpos = writer.row_position();
    let colpos = writer.column_position();
    let screen_char = writer.char_at(rowpos, colpos - 1);
    assert_eq!(c, screen_char.character);
}

#[test]
fn test_simple_print_char_color_val() {
    let mut writer = Writer::new();
    let c = b'a';
    let color_code = ColorCode::new(FontColor::Pink, BackgroundColor::Cyan);
    writer.set_color(FontColor::Pink, BackgroundColor::Cyan);
    writer.print_char(c);
    let rowpos = writer.row_position();
    let colpos = writer.column_position();
    let screen_char = writer.char_at(rowpos, colpos - 1);
    assert_eq!(color_code, screen_char.color_code);
}

#[test]
fn test_simple_print_macro() {
    let mut writer = Writer::new();
    let s = "test string";
    writer.clean_buffer();
    writer.print(s);
    for (pos, c) in s.bytes().enumerate() {
        let screen_char = writer.char_at(0, pos);
        assert_eq!(screen_char.character, c);
    }
}

#[test]
fn test_print_macro_almost_full_line() {
    let mut writer = Writer::new();
    writer.clean_buffer();
    let s = "c";
    let c = s.as_bytes();
    for _ in 0..SCREEN_WIDTH - 1 {
        writer.print(s);
    }

    for i in 0..SCREEN_WIDTH - 1 {
        let screen_char = writer.char_at(0, i);
        assert_eq!(screen_char.character, c[0]);
    }

    assert_eq!(writer.row_position(), 0);
}

#[test]
fn test_print_macro_full_line() {
    let mut writer = Writer::new();
    writer.clean_buffer();
    let s = "c";
    let c = s.as_bytes();
    for _ in 0..SCREEN_WIDTH {
        writer.print(s);
    }

    for i in 0..SCREEN_WIDTH {
        let screen_char = writer.char_at(0, i);
        assert_eq!(screen_char.character, c[0]);
    }

    assert_eq!(writer.row_position(), 1);
}

#[test]
fn test_print_macro_more_than_full_line() {
    let mut writer = Writer::new();
    writer.clean_buffer();
    let s = "a";
    let c = s.as_bytes();
    for _ in 0..SCREEN_WIDTH {
        writer.print(s);
    }

    writer.print("b");

    for i in 0..SCREEN_WIDTH {
        let screen_char = writer.char_at(0, i);
        assert_eq!(screen_char.character, c[0]);
    }

    let screen_char = writer.char_at(1, 0);
    assert_eq!(screen_char.character, b'b');

    assert_eq!(writer.row_position(), 1);
}

#[test]
fn test_println_macro_empty() {
    let mut writer = Writer::new();
    writer.clean_buffer();
    writer.print("\n");
    assert_eq!(writer.row_position(), 1);
}

#[test]
fn test_println_macro_empty_string() {
    let mut writer = Writer::new();
    writer.clean_buffer();
    println(&mut writer, "");
    assert_eq!(writer.row_position(), 1);
}

#[test]
fn test_println_macro_simple() {
    let mut writer = Writer::new();
    let s = "QSqsdFliq albcbw";
    writer.clean_buffer();
    println(&mut writer, s);
    assert_eq!(writer.row_position(), 1);
}

#[test]
fn test_swift_up_simple() {
    let mut writer = Writer::new();
    writer.clean_buffer();
    let mut c = b'a';
    for _ in 0..SCREEN_HEIGHT - 1 {
        println(&mut writer, &format!("{}", c as char));
        c += 1;
    }

    writer.print(&format!("{}", c as char));

    let mut c = b'a';
    for i in 0..SCREEN_HEIGHT {
        let screen_char = writer.char_at(i, 0);
        assert_eq!(screen_char.character, c);
        c += 1;
    }
}

#[test]
fn test_swift_up_full() {
    let mut writer = Writer::new();
    writer.clean_buffer();
    let mut c = b'a';
    for _ in 0..SCREEN_HEIGHT {
        println(&mut writer, &format!("{}", c as char));
        c += 1;
    }

    let mut c = b'b';
    for i in 0..SCREEN_HEIGHT - 1 {
        let screen_char = writer.char_at(i, 0);
        assert_eq!(screen_char.character, c);
        c += 1;
    }
}

#[test]
fn test_swift_up_full_with_last_line() {
    let mut writer = Writer::new();
    writer.clean_buffer();
    let mut c = b'a';
    for _ in 0..SCREEN_HEIGHT {
        println(&mut writer, &format!("{}", c as char));
        c += 1;
    }

    writer.print(&format!("{}", c as char));

    let mut c = b'b';
    for i in 0..SCREEN_HEIGHT {
        let screen_char = writer.char_at(i, 0);
        assert_eq!(screen_char.character, c);
        c += 1;
    }
}

#[test]
fn shift_up_moves_rows_and_blanks_the_last() {
    let mut writer = Writer::new();
    for row in 0..SCREEN_HEIGHT - 1 {
        println(&mut writer, &format!("{}", (b'A' + row as u8) as char));
    }
    writer.print("Y");
    assert_eq!(writer.row_position(), SCREEN_HEIGHT - 1);
    assert_eq!(writer.column_position(), 1);
    writer.set_color(FontColor::Yellow, BackgroundColor::Red);
    writer.shift_up();
    assert_eq!(writer.row_position(), SCREEN_HEIGHT - 1);
    assert_eq!(writer.column_position(), 1);
    for row in 0..SCREEN_HEIGHT - 1 {
        assert_eq!(writer.char_at(row, 0).character, b'B' + row as u8);
        assert_eq!(writer.char_at(row, 0).color_code.code(), 0x07);
    }
    for column in 0..SCREEN_WIDTH {
        let cell = writer.char_at(SCREEN_HEIGHT - 1, column);
        assert_eq!(cell.character, b' ');
        assert_eq!(cell.color_code.code(), 0x4e);
    }
}

#[test]
fn new_line_on_the_last_row_scrolls() {
    let mut writer = Writer::new();
    for _ in 0..SCREEN_HEIGHT - 1 {
        writer.new_line();
    }
    assert_eq!(writer.row_position(), SCREEN_HEIGHT - 1);
    writer.print("last");
    assert_eq!(writer.column_position(), 4);
    writer.new_line();
    assert_eq!(writer.row_position(), SCREEN_HEIGHT - 1);
    assert_eq!(writer.column_position(), 0);
    assert_eq!(writer.char_at(SCREEN_HEIGHT - 2, 0).character, b'l');
    assert_eq!(writer.char_at(SCREEN_HEIGHT - 2, 3).character, b't');
    assert_eq!(writer.char_at(SCREEN_HEIGHT - 1, 0).character, b' ');
}

#[test]
fn character_in_the_last_column_wraps() {
    let mut writer = Writer::new();
    for _ in 0..SCREEN_WIDTH - 1 {
        writer.print_char(b'x');
    }
    assert_eq!(writer.row_position(), 0);
    assert_eq!(writer.column_position(), SCREEN_WIDTH - 1);
    writer.print_char(b'y');
    assert_eq!(writer.char_at(0, SCREEN_WIDTH - 1).character, b'y');
    assert_eq!(writer.row_position(), 1);
    assert_eq!(writer.column_position(), 0);
}

#[test]
fn unprintable_bytes_show_as_the_place_holder() {
    let mut writer = Writer::new();
    writer.print_bytes(&[0x00, 0x1f, 0x20, 0x7e, 0x7f, 0xff, b'\t']);
    let shown: Vec<u8> = (0..7).map(|column| writer.char_at(0, column).character).collect();
    assert_eq!(shown, vec![0xfe, 0xfe, 0x20, 0x7e, 0xfe, 0xfe, 0xfe]);
    assert_eq!(writer.column_position(), 7);

    let mut writer = Writer::new();
    writer.print("é");
    assert_eq!(writer.char_at(0, 0).character, 0xfe);
    assert_eq!(writer.char_at(0, 1).character, 0xfe);
    assert_eq!(writer.column_position(), 2);
}

#[test]
fn print_char_writes_any_byte_but_the_line_feed() {
    let mut writer = Writer::new();
    writer.print_char(0x01);
    assert_eq!(writer.char_at(0, 0).character, 0x01);
    writer.print_char(b'\n');
    assert_eq!(writer.row_position(), 1);
    assert_eq!(writer.column_position(), 0);
    assert_eq!(writer.char_at(0, 1).character, b' ');
}

#[test]
fn set_color_changes_only_the_characters_to_come() {
    let mut writer = Writer::new();
    writer.print("ab");
    writer.set_color(FontColor::Green, BackgroundColor::Blue);
    writer.print("c");
    assert_eq!(writer.char_at(0, 0).color_code.code(), 0x07);
    assert_eq!(writer.char_at(0, 1).color_code.code(), 0x07);
    assert_eq!(writer.char_at(0, 2).color_code.code(), 0x12);
    assert_eq!(writer.color().code(), 0x12);
    assert_eq!(writer.column_position(), 3);
}

#[test]
fn clean_buffer_clears_above_and_left_of_the_cursor() {
    let mut writer = Writer::new();
    println(&mut writer, "abcd");
    println(&mut writer, "efgh");
    writer.print("ij");
    assert_eq!(writer.row_position(), 2);
    assert_eq!(writer.column_position(), 2);
    writer.clean_buffer();
    assert_eq!(writer.row_position(), 0);
    assert_eq!(writer.column_position(), 0);
    for row in 0..2 {
        for column in 0..2 {
            assert_eq!(writer.char_at(row, column).character, 0);
        }
    }
    assert_eq!(writer.char_at(0, 2).character, b'c');
    assert_eq!(writer.char_at(1, 3).character, b'h');
    assert_eq!(writer.char_at(2, 0).character, b'i');
    assert_eq!(writer.char_at(2, 1).character, b'j');
}
