use hal_sdk::text::{
    decimal_i64, decimal_u64, is_white_space_char, join_strings, join_strs, parse_u32,
    split_whitespace, str_eq, trim,
};

#[test]
fn words_are_split_on_unicode_white_space() {
    assert_eq!(split_whitespace("open science"), vec!["open", "science"]);
    assert_eq!(split_whitespace("  a\u{a0}b\u{2003}c\u{85}d  "), vec!["a", "b", "c", "d"]);
    assert!(split_whitespace("").is_empty());
    assert!(split_whitespace(" \t\r\n").is_empty());
    assert_eq!(split_whitespace("é\u{2028}ü"), vec!["é", "ü"]);
}

#[test]
fn split_matches_std() {
    for s in ["", "x", " a  b ", "\u{3000}x\u{202f}y\u{205f}", "tab\tsep\u{b}v\u{c}f"] {
        let ours = split_whitespace(s);
        let std: Vec<&str> = s.split_whitespace().collect();
        assert_eq!(ours, std);
    }
}

#[test]
fn white_space_matches_std() {
    for c in ['\t', '\n', ' ', '\u{85}', '\u{a0}', '\u{1680}', '\u{2000}', '\u{200a}', '\u{200b}',
        '\u{2028}', '\u{2029}', '\u{202f}', '\u{205f}', '\u{3000}', 'a', '\u{feff}', '\u{1c}']
    {
        assert_eq!(is_white_space_char(c), c.is_whitespace(), "{:?}", c);
    }
}

#[test]
fn trimming() {
    assert_eq!(trim("  europe \n"), "europe");
    assert_eq!(trim(" \t "), "");
    assert_eq!(trim(""), "");
    assert_eq!(trim("a b"), "a b");
    assert_eq!(trim("\u{3000}x\u{a0}"), "x");
}

#[test]
fn joining() {
    assert_eq!(join_strs(&["a", "b", "c"], ", "), "a, b, c");
    assert_eq!(join_strs(&[], ","), "");
    assert_eq!(join_strings(&vec!["x".to_string()], " AND "), "x");
}

#[test]
fn decimals() {
    assert_eq!(decimal_u64(0), "0");
    assert_eq!(decimal_u64(10), "10");
    assert_eq!(decimal_u64(u64::MAX), u64::MAX.to_string());
    assert_eq!(decimal_i64(-42), "-42");
    assert_eq!(decimal_i64(i64::MIN), i64::MIN.to_string());
    assert_eq!(decimal_i64(7), "7");
}

#[test]
fn parsing_u32_like_std() {
    for s in ["0", "10", "+7", "007", "4294967295", "4294967296", "", "+", "-1", "-0", "1 ", " 1",
        "1a", "٣", "99999999999999999999"]
    {
        assert_eq!(parse_u32(s), s.parse::<u32>().ok(), "{:?}", s);
    }
}

#[test]
fn decimal_round_trip() {
    for n in [0u32, 1, 9, 10, 12345, u32::MAX] {
        assert_eq!(parse_u32(&decimal_u64(n as u64)), Some(n));
    }
}

#[test]
fn string_equality() {
    assert!(str_eq("title", "title"));
    assert!(!str_eq("title", "titles"));
    assert!(!str_eq("Title", "title"));
    assert!(str_eq("", ""));
}

#[test]
fn trimming_keeps_the_words() {
    for s in ["  open science ", "\u{3000}a\tb\u{a0}", "", "   ", "x"] {
        assert_eq!(split_whitespace(trim(s)), split_whitespace(s));
    }
}
