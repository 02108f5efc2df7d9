use asm_repl::lexer::{decimal, hex_digit, hexadecimal, spaces, starts_with, word};
use asm_repl::words::{
    begins_with, blanks, digit, is_blank, lines, magnitude, parse_signed, parse_unsigned,
    same_text, split_whitespace, trim, word_end, IntegerError,
};

#[test]
fn white_space_is_the_unicode_property() {
    for code in 0..=0x10FFFFu32 {
        if let Some(c) = char::from_u32(code) {
            assert_eq!(is_blank(c), c.is_whitespace(), "U+{:04X}", code);
        }
    }
}

#[test]
fn words_are_runs_without_white_space() {
    for text in ["", "   ", "a", " a ", "a b", "  mov\trax ,5\n", "→ x\u{3000}5", "one\u{a0}two  three "] {
        let expected: Vec<&str> = text.split_whitespace().collect();
        assert_eq!(split_whitespace(text), expected, "{:?}", text);
    }
    assert_eq!(split_whitespace(" ι  3 "), vec!["ι", "3"]);
}

#[test]
fn trimming() {
    for text in ["", "   ", "a", " a ", "\t a b \r\n", "→ ", "\u{2003}x\u{2003}"] {
        assert_eq!(trim(text), text.trim(), "{:?}", text);
    }
    assert_eq!(trim("  a b  "), "a b");
}

#[test]
fn lines_end_at_line_feeds() {
    for text in ["", "\n", "a", "a\n", "a\nb", "a\n\nb\n", "\n\n"] {
        let expected: Vec<&str> = text.lines().collect();
        assert_eq!(lines(text), expected, "{:?}", text);
    }
    assert_eq!(lines("a\nb\n"), vec!["a", "b"]);
    // A carriage return stays with its line; trimming removes it later.
    assert_eq!(lines("a\r\nb"), vec!["a\r", "b"]);
}

#[test]
fn positions_in_text() {
    let text = "  ab  c";
    assert_eq!(blanks(text, 7, 0), 2);
    assert_eq!(blanks(text, 7, 2), 2);
    assert_eq!(word_end(text, 7, 2), 4);
    assert_eq!(blanks(text, 7, 4), 6);
    assert_eq!(word_end(text, 7, 6), 7);
    assert_eq!(blanks(text, 7, 7), 7);
}

#[test]
fn comparing_texts() {
    assert!(same_text("rax", "rax"));
    assert!(!same_text("rax", "Rax"));
    assert!(!same_text("rax", "ra"));
    assert!(same_text("", ""));
    assert!(begins_with("// note", "//"));
    assert!(begins_with("//", "//"));
    assert!(!begins_with("/", "//"));
    assert!(!begins_with("a//", "//"));
    assert!(begins_with("→x", "→"));
    assert!(begins_with("x", ""));
}

#[test]
fn unsigned_numbers_agree_with_the_standard_parser() {
    for text in [
        "", "0", "7", "+7", "-7", "+", "-", "007", "18446744073709551615", "18446744073709551616",
        "99999999999999999999999x", "1x", "x1", " 1", "1 ", "1_0", "٣", "+-1", "++1", "4294967295",
        "4294967296",
    ] {
        let expected = text.parse::<u64>().map_err(|e| e.to_string());
        let found = parse_unsigned(text, 10, u64::MAX).map_err(|e| e.message().to_string());
        assert_eq!(found, expected, "{:?}", text);
        let expected32 = text.parse::<u32>().map(u64::from).map_err(|e| e.to_string());
        let found32 = parse_unsigned(text, 10, 0xffff_ffff).map_err(|e| e.message().to_string());
        assert_eq!(found32, expected32, "{:?}", text);
    }
    assert_eq!(parse_unsigned("12", 10, 11), Err(IntegerError::PosOverflow));
    assert_eq!(parse_unsigned("", 10, 11), Err(IntegerError::Empty));
    assert_eq!(parse_unsigned("1a", 10, 11), Err(IntegerError::InvalidDigit));
}

#[test]
fn signed_numbers_agree_with_the_standard_parser() {
    for radix in [2u32, 10, 16] {
        for text in [
            "", "0", "-0", "+0", "101", "-101", "ff", "-FF", "fF", "g", "-", "+",
            "9223372036854775807", "9223372036854775808", "-9223372036854775808",
            "-9223372036854775809", "7fffffffffffffff", "8000000000000000", "-8000000000000000",
            "-8000000000000001", "1111111111111111111111111111111111111111111111111111111111111111",
            "--1", "1-", "0x1",
        ] {
            let expected = i64::from_str_radix(text, radix).map_err(|e| e.to_string());
            let found = parse_signed(text, radix as u64).map_err(|e| e.message().to_string());
            assert_eq!(found, expected, "{:?} in radix {}", text, radix);
        }
    }
    assert_eq!(parse_signed("-9223372036854775809", 10), Err(IntegerError::NegOverflow));
}

#[test]
fn digits_and_magnitudes() {
    assert_eq!(digit('7', 10), Some(7));
    assert_eq!(digit('a', 16), Some(10));
    assert_eq!(digit('F', 16), Some(15));
    assert_eq!(digit('a', 10), None);
    assert_eq!(digit('2', 2), None);
    assert_eq!(digit('/', 10), None);
    assert_eq!(digit(':', 16), None);
    assert_eq!(digit('g', 16), None);
    assert_eq!(magnitude("x123", 1, 10, 200), Ok(123));
    assert_eq!(magnitude("x123", 1, 10, 122), Err(true));
    assert_eq!(magnitude("x12y", 1, 10, 200), Err(false));
    assert_eq!(magnitude("x", 1, 10, 200), Err(false));
}

#[test]
fn bytes_are_scanned_by_position() {
    let input = b"  mov\t5 ff";
    assert_eq!(spaces(input, 0), 2);
    assert_eq!(spaces(input, 2), 2);
    assert_eq!(spaces(input, 5), 6);
    assert!(starts_with(input, 2, "mov"));
    assert!(!starts_with(input, 2, "move"));
    assert!(!starts_with(input, 8, "ffff"));
    assert!(starts_with(input, 10, ""));
    assert!(!starts_with(input, 11, ""));
    assert_eq!(word(input, 2, "mov"), Some(5));
    assert_eq!(word(input, 3, "mov"), None);
    assert_eq!(decimal(input, 6, 10), Some((5, 7)));
    assert_eq!(decimal(input, 6, 4), None);
    assert_eq!(decimal(input, 5, 10), None);
    assert_eq!(decimal(b"123456", 0, 123456), Some((123456, 6)));
    assert_eq!(decimal(b"123456", 0, 123455), None);
    assert_eq!(hexadecimal(input, 8), Some((Some(0xff), 10)));
    assert_eq!(hexadecimal(input, 7), None);
    assert_eq!(hexadecimal(b"10000000000000000", 0), Some((None, 17)));
    assert_eq!(hexadecimal(b"ffffffffffffffffg", 0), Some((Some(u64::MAX), 16)));
    assert_eq!(hex_digit(b'a'), Some(10));
    assert_eq!(hex_digit(b'F'), Some(15));
    assert_eq!(hex_digit(b'9'), Some(9));
    assert_eq!(hex_digit(b'g'), None);
    assert_eq!(hex_digit(b'@'), None);
}
