use taurus::text::{
    chars_of, decode_trimmed, find_byte, find_char, find_space, is_whitespace, parse_number,
    same_text, starts_with, string_of, trim,
};

#[test]
fn whitespace_is_what_std_calls_whitespace() {
    for n in 0..=0x10ffffu32 {
        if let Some(c) = char::from_u32(n) {
            assert_eq!(is_whitespace(c), c.is_whitespace(), "U+{n:04X}");
        }
    }
}

#[test]
fn trim_is_what_std_trims() {
    let samples = [
        "",
        " ",
        "a",
        "  a  ",
        "\t\r\n a b \u{a0}\u{3000}",
        "\u{2003}x\u{2003}y\u{2003}",
        "no-space",
        " \u{1680} ",
        "é ü ",
    ];
    for s in samples {
        let v = chars_of(s);
        assert_eq!(string_of(trim(&v)), s.trim(), "{s:?}");
    }
}

#[test]
fn chars_and_strings_round_trip() {
    let v = chars_of("aé\u{1f600}");
    assert_eq!(v, vec!['a', 'é', '\u{1f600}']);
    assert_eq!(string_of(&v), "aé\u{1f600}");
    assert_eq!(string_of(&[]), "");
}

#[test]
fn find_gives_the_first_position_or_the_length() {
    assert_eq!(find_byte(b"ab\ncd\n", b'\n'), 2);
    assert_eq!(find_byte(b"abcd", b'\n'), 4);
    assert_eq!(find_byte(b"", b'\n'), 0);
    assert_eq!(find_char(&chars_of("é\nx"), '\n'), 1);
    assert_eq!(find_char(&chars_of("abc"), 'z'), 3);
    assert_eq!(find_space(&chars_of("ab\u{a0}c d")), 2);
    assert_eq!(find_space(&chars_of("abc")), 3);
}

#[test]
fn starts_with_compares_characters() {
    assert!(starts_with(&chars_of("=> x"), "=>"));
    assert!(starts_with(&chars_of("=>"), "=>"));
    assert!(!starts_with(&chars_of("="), "=>"));
    assert!(!starts_with(&chars_of(" =>"), "=>"));
    assert!(starts_with(&chars_of("anything"), ""));
}

#[test]
fn same_text_is_equality() {
    assert!(same_text("gemini", "gemini"));
    assert!(!same_text("gemini", "gemini2"));
    assert!(!same_text("gemini2", "gemini"));
    assert!(!same_text("Gemini", "gemini"));
    assert!(same_text("", ""));
}

#[test]
fn numbers_are_read_as_std_reads_them() {
    let samples = [
        "0",
        "7",
        "42",
        "007",
        "+5",
        "+",
        "",
        "-5",
        "++5",
        "5+",
        " 5",
        "5 ",
        "1a",
        "٣",
        "18446744073709551615",
        "18446744073709551616",
        "99999999999999999999999999",
        "4294967295",
        "4294967296",
    ];
    for s in samples {
        assert_eq!(parse_number(&chars_of(s)), s.parse::<usize>().ok(), "{s:?}");
    }
}

#[test]
fn a_number_has_its_exact_value() {
    assert_eq!(parse_number(&chars_of("1965")), Some(1965));
    assert_eq!(parse_number(&chars_of("+10")), Some(10));
    assert_eq!(parse_number(&chars_of("x")), None);
}

#[test]
fn decoding_refuses_invalid_utf8_and_trims_valid_text() {
    assert_eq!(decode_trimmed(b"  hello \r\n".to_vec()), Some("hello".to_string()));
    assert_eq!(decode_trimmed(Vec::new()), Some(String::new()));
    assert_eq!(decode_trimmed(vec![0xc3]), None);
    assert_eq!(decode_trimmed(vec![b' ', 0xc3, 0xa9, b' ']), Some("é".to_string()));
}
