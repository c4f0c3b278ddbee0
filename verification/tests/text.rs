use botcore::text::{
    chars_of, i64_text, joined, parse_u8, replace_all, same_text, string_of, trim, u64_text,
};

#[test]
fn chars_and_strings_round_trip() {
    let v = chars_of("héllo");
    assert_eq!(v, vec!['h', 'é', 'l', 'l', 'o']);
    assert_eq!(string_of(&v), "héllo");
    assert_eq!(string_of(&Vec::new()), "");
}

#[test]
fn same_text_compares_characters() {
    assert!(same_text("ping", "ping"));
    assert!(!same_text("ping", "pong"));
    assert!(!same_text("ping", "pin"));
    assert!(same_text("", ""));
}

#[test]
fn joined_puts_one_text_after_the_other() {
    assert_eq!(joined("2023", " Season Calendar"), "2023 Season Calendar");
    assert_eq!(joined("", ""), "");
}

#[test]
fn u64_text_writes_decimal_digits() {
    assert_eq!(u64_text(0), "0");
    assert_eq!(u64_text(7), "7");
    assert_eq!(u64_text(10), "10");
    assert_eq!(u64_text(1200), "1200");
    assert_eq!(u64_text(u64::MAX), "18446744073709551615");
}

#[test]
fn i64_text_writes_the_sign_of_a_negative_number() {
    assert_eq!(i64_text(0), "0");
    assert_eq!(i64_text(-1), "-1");
    assert_eq!(i64_text(4321), "4321");
    assert_eq!(i64_text(i64::MIN), "-9223372036854775808");
    assert_eq!(i64_text(i64::MAX), "9223372036854775807");
}

#[test]
fn parse_u8_reads_plain_digits() {
    assert_eq!(parse_u8("0"), Some(0));
    assert_eq!(parse_u8("22"), Some(22));
    assert_eq!(parse_u8("255"), Some(255));
    assert_eq!(parse_u8("007"), Some(7));
}

#[test]
fn parse_u8_takes_one_leading_plus() {
    assert_eq!(parse_u8("+7"), Some(7));
    assert_eq!(parse_u8("++7"), None);
    assert_eq!(parse_u8("+"), None);
}

#[test]
fn parse_u8_refuses_what_is_no_number_below_256() {
    assert_eq!(parse_u8(""), None);
    assert_eq!(parse_u8("256"), None);
    assert_eq!(parse_u8("1000"), None);
    assert_eq!(parse_u8("99999999999999999999999"), None);
    assert_eq!(parse_u8("-1"), None);
    assert_eq!(parse_u8("1 "), None);
    assert_eq!(parse_u8(" 1"), None);
    assert_eq!(parse_u8("1a"), None);
    assert_eq!(parse_u8("٣"), None);
}

#[test]
fn parse_u8_agrees_with_std() {
    for s in ["0", "9", "10", "255", "256", "+255", "+256", "", "+", "-0", "00", "2 5", "१"] {
        assert_eq!(parse_u8(s), s.parse::<u8>().ok(), "for {:?}", s);
    }
}

#[test]
fn replace_all_is_leftmost_and_non_overlapping() {
    assert_eq!(replace_all("aaa", "aa", "b"), "ba");
    assert_eq!(replace_all("aaaa", "aa", "b"), "bb");
    assert_eq!(replace_all("abcabc", "bc", ""), "aa");
    assert_eq!(replace_all("a\"b\"", "\"", ""), "ab");
    assert_eq!(replace_all("abc", "abcd", "x"), "abc");
    assert_eq!(replace_all("", "a", "b"), "");
    assert_eq!(replace_all("xyz", "z", "zz"), "xyzz");
}

#[test]
fn replace_all_leaves_the_text_alone_for_an_empty_pattern() {
    assert_eq!(replace_all("abc", "", "x"), "abc");
}

#[test]
fn replace_all_agrees_with_std_for_patterns_that_are_not_empty() {
    let cases = [
        ("line\\n\\nbreak", "\\n\\n", " "),
        ("a\\nb\\nc", "\\n", " "),
        ("say \\\"hi\\\"", "\\\"", ""),
        ("\"quoted\"", "\"", ""),
        ("aXaXa", "aXa", "-"),
    ];
    for (s, pat, to) in cases {
        assert_eq!(replace_all(s, pat, to), s.replace(pat, to));
    }
}

#[test]
fn trim_removes_outer_white_space() {
    assert_eq!(trim("  a b \n"), "a b");
    assert_eq!(trim("\t\r\nx\u{3000}"), "x");
    assert_eq!(trim("\u{a0}\u{2003}x y\u{85}"), "x y");
    assert_eq!(trim("   "), "");
    assert_eq!(trim(""), "");
    assert_eq!(trim("x"), "x");
}

#[test]
fn trim_keeps_what_is_no_white_space() {
    assert_eq!(trim("\u{200b}x\u{200b}"), "\u{200b}x\u{200b}");
    assert_eq!(trim("\u{feff}x"), "\u{feff}x");
}

#[test]
fn trim_agrees_with_std_on_every_character() {
    for n in 0u32..0x3100 {
        if let Some(c) = char::from_u32(n) {
            let s = format!("{}x{}", c, c);
            assert_eq!(trim(&s), s.trim(), "for U+{:04X}", n);
        }
    }
}
