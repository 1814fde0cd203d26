use note_ledger_backend::numeral::{decimal_string, parse_number};
use note_ledger_backend::text::{is_space, trim};

#[test]
fn whitespace_is_what_the_standard_library_calls_whitespace() {
    let mut code: u32 = 0;
    while code <= 0x10FFFF {
        if let Some(c) = char::from_u32(code) {
            assert_eq!(is_space(c), c.is_whitespace(), "U+{:04X}", code);
        }
        code += 1;
    }
}

#[test]
fn whitespace_examples() {
    for c in [' ', '\t', '\n', '\r', '\u{0B}', '\u{0C}', '\u{85}', '\u{A0}', '\u{3000}'] {
        assert!(is_space(c));
    }
    for c in ['a', '0', '_', '\u{200B}', '\u{180E}', '\u{FEFF}', '\u{1C}'] {
        assert!(!is_space(c));
    }
}

#[test]
fn trim_drops_whitespace_at_both_ends_only() {
    assert_eq!(trim("  Hello \n"), "Hello");
    assert_eq!(trim("Hello"), "Hello");
    assert_eq!(trim("\t a  b \r\n"), "a  b");
    assert_eq!(trim(" x"), "x");
    assert_eq!(trim("x "), "x");
}

#[test]
fn trim_of_nothing_but_whitespace_is_empty() {
    assert_eq!(trim(""), "");
    assert_eq!(trim(" "), "");
    assert_eq!(trim(" \t\r\n\u{A0}\u{3000} "), "");
}

#[test]
fn trim_agrees_with_the_standard_library() {
    let samples = [
        "",
        " ",
        "a",
        " a",
        "a ",
        "  Fotoğraf  Notu  ",
        "\u{2003}çay\u{2009}",
        "\u{200B}x\u{200B}",
        "\n\n1\n\n",
        "\u{85}\u{1680}ok\u{2028}\u{2029}\u{202F}\u{205F}",
        "日本語 テキスト　",
        " \u{1F600} ",
    ];
    for s in samples {
        assert_eq!(trim(s), s.trim(), "{:?}", s);
    }
}

#[test]
fn decimal_string_examples() {
    assert_eq!(decimal_string(0), "0");
    assert_eq!(decimal_string(7), "7");
    assert_eq!(decimal_string(9), "9");
    assert_eq!(decimal_string(10), "10");
    assert_eq!(decimal_string(101), "101");
    assert_eq!(decimal_string(4096), "4096");
}

#[test]
fn decimal_string_agrees_with_the_standard_library() {
    let mut n: usize = 0;
    while n < 2000 {
        assert_eq!(decimal_string(n), n.to_string());
        n += 1;
    }
    for n in [usize::MAX, usize::MAX - 1, usize::MAX / 10, 1 << 31, 999_999_999] {
        assert_eq!(decimal_string(n), n.to_string());
    }
}

#[test]
fn parse_number_reads_numerals() {
    assert_eq!(parse_number("0"), Some(0));
    assert_eq!(parse_number("1"), Some(1));
    assert_eq!(parse_number("42"), Some(42));
    assert_eq!(parse_number("+42"), Some(42));
    assert_eq!(parse_number("007"), Some(7));
    assert_eq!(parse_number("+0"), Some(0));
}

#[test]
fn parse_number_rejects_what_is_no_numeral() {
    for s in ["", "+", "-", "-1", "++1", "1+", "1 ", " 1", "1.0", "1e3", "0x10", "abc", "１", "٣", "1_000"] {
        assert_eq!(parse_number(s), None, "{:?}", s);
    }
}

#[test]
fn parse_number_stops_at_the_largest_usize() {
    let max = usize::MAX.to_string();
    assert_eq!(parse_number(&max), Some(usize::MAX));
    assert_eq!(parse_number(&format!("000{}", max)), Some(usize::MAX));
    let mut beyond = max.clone();
    beyond.push('0');
    assert_eq!(parse_number(&beyond), None);
    let next = (usize::MAX as u128 + 1).to_string();
    assert_eq!(parse_number(&next), None);
    assert_eq!(parse_number("99999999999999999999999999999999999999999"), None);
    assert_eq!(parse_number("99999999999999999999999999999999999999999x"), None);
}

#[test]
fn parse_number_agrees_with_the_standard_library() {
    let samples = [
        "", "+", "-", "0", "-0", "+1", "-1", "12", "0012", "18446744073709551615",
        "18446744073709551616", "4294967295", "4294967296", "9x", "x9", " 9", "+-9", "٣",
    ];
    for s in samples {
        assert_eq!(parse_number(s), s.parse::<usize>().ok(), "{:?}", s);
    }
}

#[test]
fn number_written_then_read_is_the_number() {
    for n in [0usize, 1, 9, 10, 99, 100, 65535, usize::MAX] {
        assert_eq!(parse_number(&decimal_string(n)), Some(n));
    }
}
