use fleet::text::{
    copy_texts, decimal, is_space, parse_u32, split_lines, split_words, to_chars, trim,
};

#[test]
fn white_space_is_unicode_white_space() {
    for c in (0u32..0x11000).filter_map(char::from_u32) {
        assert_eq!(is_space(c), c.is_whitespace(), "U+{:04X}", c as u32);
    }
}

#[test]
fn chars_round_trip() {
    let cs = to_chars("a b\u{e9}");
    assert_eq!(cs, vec!['a', ' ', 'b', '\u{e9}']);
    assert!(to_chars("").is_empty());
}

#[test]
fn words_are_runs_without_white_space() {
    assert_eq!(split_words("  42  2024-01-01\t12:00:00 (current) "), vec![
        "42",
        "2024-01-01",
        "12:00:00",
        "(current)"
    ]);
    assert_eq!(split_words("one"), vec!["one"]);
    assert_eq!(split_words("a\u{a0}b\u{3000}c"), vec!["a", "b", "c"]);
    assert!(split_words("").is_empty());
    assert!(split_words(" \t\r ").is_empty());
}

#[test]
fn words_agree_with_split_whitespace() {
    for s in ["", " ", "a", " a", "a ", "a b", "  a   bb  ccc ", "\ta\nb\r\nc", "x\u{2003}y"] {
        let expected: Vec<String> = s.split_whitespace().map(|w| w.to_string()).collect();
        assert_eq!(split_words(s), expected, "{:?}", s);
    }
}

#[test]
fn lines_are_split_at_line_feeds() {
    assert_eq!(split_lines("a\nb"), vec!["a", "b"]);
    assert_eq!(split_lines("a\n"), vec!["a", ""]);
    assert_eq!(split_lines("\n\nx"), vec!["", "", "x"]);
    assert_eq!(split_lines(""), vec![""]);
    assert_eq!(split_lines("a\r\nb"), vec!["a\r", "b"]);
}

#[test]
fn lines_agree_with_split() {
    for s in ["", "\n", "a", "a\n", "\na", "a\n\nb", "a\nb\nc\n"] {
        let expected: Vec<String> = s.split('\n').map(|w| w.to_string()).collect();
        assert_eq!(split_lines(s), expected, "{:?}", s);
    }
}

#[test]
fn trim_strips_both_ends() {
    assert_eq!(trim("  a b \t"), "a b");
    assert_eq!(trim("a"), "a");
    assert_eq!(trim(""), "");
    assert_eq!(trim(" \n "), "");
    for s in ["", " ", " a", "a ", " a b ", "\u{a0}x\u{2028}"] {
        assert_eq!(trim(s), s.trim(), "{:?}", s);
    }
}

#[test]
fn parse_u32_reads_decimal() {
    assert_eq!(parse_u32("0"), Some(0));
    assert_eq!(parse_u32("42"), Some(42));
    assert_eq!(parse_u32("007"), Some(7));
    assert_eq!(parse_u32("+5"), Some(5));
    assert_eq!(parse_u32("4294967295"), Some(u32::MAX));
    assert_eq!(parse_u32("0000000004294967295"), Some(u32::MAX));
}

#[test]
fn parse_u32_rejects_what_is_no_number() {
    assert_eq!(parse_u32(""), None);
    assert_eq!(parse_u32("+"), None);
    assert_eq!(parse_u32("-1"), None);
    assert_eq!(parse_u32("++1"), None);
    assert_eq!(parse_u32("1+"), None);
    assert_eq!(parse_u32("12a"), None);
    assert_eq!(parse_u32("abc"), None);
    assert_eq!(parse_u32(" 1"), None);
    assert_eq!(parse_u32("4294967296"), None);
    assert_eq!(parse_u32("99999999999999999999999"), None);
    assert_eq!(parse_u32("\u{661}"), None);
}

#[test]
fn parse_u32_agrees_with_std() {
    for s in ["", "+", "-", "0", "+0", "-0", "10", "4294967295", "4294967296", "1_0", "0x10"] {
        assert_eq!(parse_u32(s), s.parse::<u32>().ok(), "{:?}", s);
    }
}

#[test]
fn decimal_writes_digits() {
    assert_eq!(decimal(0), "0");
    assert_eq!(decimal(7), "7");
    assert_eq!(decimal(10), "10");
    assert_eq!(decimal(42), "42");
    assert_eq!(decimal(1203), "1203");
    assert_eq!(decimal(u32::MAX), "4294967295");
}

#[test]
fn decimal_round_trips() {
    for n in [0u32, 1, 9, 10, 11, 99, 100, 12345, 1 << 31, u32::MAX - 1, u32::MAX] {
        assert_eq!(parse_u32(&decimal(n)), Some(n));
        assert_eq!(decimal(n), n.to_string());
    }
}

#[test]
fn copy_texts_copies() {
    let v = vec!["a".to_string(), String::new(), "b c".to_string()];
    assert_eq!(copy_texts(&v), v);
    assert!(copy_texts(&Vec::new()).is_empty());
}
