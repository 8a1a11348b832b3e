use kinitos::text::{digit, Line, LINE_CAPACITY};
use kinitos::QemuExitCode;

fn text(line: &Line) -> &str {
    std::str::from_utf8(line.as_bytes()).unwrap()
}

#[test]
fn digits() {
    let expected = b"0123456789abcdef";
    for value in 0..16u8 {
        assert_eq!(digit(value), expected[value as usize]);
    }
}

#[test]
fn new_line_is_empty() {
    let line = Line::new();
    assert_eq!(line.len(), 0);
    assert_eq!(line.as_bytes(), b"");
}

#[test]
fn decimal_of_every_byte() {
    for number in 0..=255u8 {
        let mut line = Line::new();
        line.push_text("v");
        line.push_decimal(number);
        assert_eq!(text(&line), format!("v{}", number));
    }
}

#[test]
fn hex_has_sixteen_digits() {
    for (value, expected) in [
        (0u64, "0000000000000000"),
        (0x10, "0000000000000010"),
        (0xFFFF, "000000000000ffff"),
        (0x0123_4567_89AB_CDEF, "0123456789abcdef"),
        (u64::MAX, "ffffffffffffffff"),
    ] {
        let mut line = Line::new();
        line.push_hex(value);
        assert_eq!(text(&line), expected);
    }
    let mut line = Line::new();
    line.push_text("0x");
    line.push_hex(0xB8000);
    assert_eq!(text(&line), "0x00000000000b8000");
    assert_eq!(line.len(), 18);
}

#[test]
fn push_text_and_bytes_append() {
    let mut line = Line::new();
    line.push_text("ab");
    line.push_byte(b'c');
    line.push_bytes(b"de");
    line.push_text("");
    assert_eq!(text(&line), "abcde");
    assert_eq!(line.len(), 5);
}

#[test]
fn full_line_keeps_its_first_bytes() {
    let mut line = Line::new();
    for _ in 0..LINE_CAPACITY - 2 {
        line.push_byte(b'x');
    }
    assert_eq!(line.len(), LINE_CAPACITY - 2);
    line.push_text("abcd");
    assert_eq!(line.len(), LINE_CAPACITY);
    assert_eq!(&line.as_bytes()[LINE_CAPACITY - 2..], b"ab");
    line.push_byte(b'y');
    line.push_decimal(255);
    line.push_hex(0);
    assert_eq!(line.len(), LINE_CAPACITY);
    assert_eq!(&line.as_bytes()[LINE_CAPACITY - 2..], b"ab");
    assert!(line.as_bytes()[..LINE_CAPACITY - 2].iter().all(|byte| *byte == b'x'));
}

#[test]
fn decimal_is_clipped_at_the_end_of_the_line() {
    let mut line = Line::new();
    for _ in 0..LINE_CAPACITY - 2 {
        line.push_byte(b'.');
    }
    line.push_decimal(123);
    assert_eq!(&line.as_bytes()[LINE_CAPACITY - 2..], b"12");
}

#[test]
fn exit_codes() {
    assert_eq!(QemuExitCode::Success.code(), 0x10);
    assert_eq!(QemuExitCode::Failure.code(), 0x11);
}
