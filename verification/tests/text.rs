use rustegram::text::{
    decimal_i64, decimal_u64, skip_first, space, split_spaces, starts_with, trim,
};

#[test]
fn decimal_of_unsigned_numbers() {
    assert_eq!(decimal_u64(0), "0");
    assert_eq!(decimal_u64(7), "7");
    assert_eq!(decimal_u64(10), "10");
    assert_eq!(decimal_u64(443), "443");
    assert_eq!(decimal_u64(1441645532), "1441645532");
    assert_eq!(decimal_u64(u64::MAX), "18446744073709551615");
    for n in [1u64, 9, 99, 100, 101, 12345678901234567890] {
        assert_eq!(decimal_u64(n), n.to_string());
    }
}

#[test]
fn decimal_of_signed_numbers() {
    assert_eq!(decimal_i64(0), "0");
    assert_eq!(decimal_i64(1111111), "1111111");
    assert_eq!(decimal_i64(-1), "-1");
    assert_eq!(decimal_i64(-1001234567890), "-1001234567890");
    assert_eq!(decimal_i64(i64::MAX), "9223372036854775807");
    assert_eq!(decimal_i64(i64::MIN), "-9223372036854775808");
    for n in [-10i64, -9, 10, 42, i64::MIN + 1] {
        assert_eq!(decimal_i64(n), n.to_string());
    }
}

#[test]
fn trim_takes_white_space_from_both_ends() {
    assert_eq!(trim("  /start  "), "/start");
    assert_eq!(trim("\t\n a b \r\n"), "a b");
    assert_eq!(trim(""), "");
    assert_eq!(trim("   "), "");
    assert_eq!(trim("x"), "x");
    assert_eq!(trim("\u{a0}\u{3000}x\u{2003}"), "x");
    // a zero-width space is no white space
    assert_eq!(trim("\u{200b}x"), "\u{200b}x");
}

#[test]
fn trim_agrees_with_std() {
    for s in
        ["", " ", "a", " a", "a ", " a b ", "\u{85}a\u{1680}", "\u{2028}\u{2029}q\u{202f}\u{205f}", "\u{b}\u{c}z"]
    {
        assert_eq!(trim(s), s.trim(), "text {:?}", s);
    }
    for code in 0u32..0x3100 {
        if let Some(c) = char::from_u32(code) {
            assert_eq!(space(c), c.is_whitespace(), "char {:?}", c);
        }
    }
}

#[test]
fn split_at_spaces() {
    assert_eq!(split_spaces("/swearto the developer"), vec!["/swearto", "the", "developer"]);
    assert_eq!(split_spaces("one"), vec!["one"]);
    assert_eq!(split_spaces(""), vec![""]);
    assert_eq!(split_spaces(" "), vec!["", ""]);
    assert_eq!(split_spaces("a  b"), vec!["a", "", "b"]);
    assert_eq!(split_spaces(" a "), vec!["", "a", ""]);
    // only the space splits
    assert_eq!(split_spaces("a\tb\nc"), vec!["a\tb\nc"]);
    for s in ["x y z", "  ", "\u{e9} \u{e8}", "a b "] {
        let expected: Vec<String> = s.split(' ').map(|p| p.to_string()).collect();
        assert_eq!(split_spaces(s), expected);
    }
}

#[test]
fn first_character() {
    assert!(starts_with("/start", '/'));
    assert!(!starts_with("start", '/'));
    assert!(!starts_with("", '/'));
    assert!(starts_with("#tag", '#'));
    assert_eq!(skip_first("/start"), "start");
    assert_eq!(skip_first("/"), "");
    assert_eq!(skip_first(""), "");
    assert_eq!(skip_first("\u{e9}t\u{e9}"), "t\u{e9}");
}
