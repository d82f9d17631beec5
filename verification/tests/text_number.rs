use grim::number::{parse_i64, parse_u16, parse_u32, parse_u64, parse_u8, parse_usize, parse_usize_chars};
use grim::text::{
    chars_of, contains, ends_with, is_white_space_char, push_text, replace, same_text, starts_with,
    string_from_chars, to_uppercase, trim_chars, trim_str,
};

fn cs(s: &str) -> Vec<char> {
    s.chars().collect()
}

#[test]
fn push_text_appends() {
    let mut s = String::from("ab");
    push_text(&mut s, "cd");
    assert_eq!(s, "abcd");
    push_text(&mut s, "");
    assert_eq!(s, "abcd");
}

#[test]
fn chars_and_back() {
    let v = chars_of("grin ツ");
    assert_eq!(v.len(), 6);
    assert_eq!(string_from_chars(&v), "grin ツ");
}

#[test]
fn uppercase_of_text() {
    assert_eq!(to_uppercase("exit"), "EXIT");
    assert_eq!(to_uppercase("straße"), "STRASSE");
}

#[test]
fn trimming() {
    assert_eq!(trim_str("  a b \n"), "a b");
    assert_eq!(trim_str("   "), "");
    assert_eq!(string_from_chars(&trim_chars(&cs("\t x\u{3000}"))), "x");
    assert!(is_white_space_char('\u{a0}'));
    assert!(!is_white_space_char('x'));
}

#[test]
fn searching() {
    assert!(starts_with(&cs("socks5://a"), &cs("socks5://")));
    assert!(!starts_with(&cs("so"), &cs("socks5://")));
    assert!(ends_with(&cs("abc"), &cs("bc")));
    assert!(contains(&cs("a http://b"), &cs("http://")));
    assert!(!contains(&cs("a htp://b"), &cs("http://")));
    assert!(same_text("a", "a"));
    assert!(!same_text("a", "ab"));
}

#[test]
fn replacing_all() {
    let r = replace(&cs("http://x http://y"), &cs("http://"), &cs(""));
    assert_eq!(string_from_chars(&r), "x y");
    let r = replace(&cs("aaa"), &cs("aa"), &cs("b"));
    assert_eq!(string_from_chars(&r), "ba");
}

#[test]
fn parse_unsigned_values() {
    assert_eq!(parse_u16("8080"), Some(8080));
    assert_eq!(parse_u16("+5"), Some(5));
    assert_eq!(parse_u16("-0"), None);
    assert_eq!(parse_u16("65535"), Some(65535));
    assert_eq!(parse_u16("65536"), None);
    assert_eq!(parse_u16(""), None);
    assert_eq!(parse_u16("+"), None);
    assert_eq!(parse_u16(" 1"), None);
    assert_eq!(parse_u8("255"), Some(255));
    assert_eq!(parse_u8("256"), None);
    assert_eq!(parse_u32("4294967295"), Some(u32::MAX));
    assert_eq!(parse_u32("4294967296"), None);
    assert_eq!(parse_u64("18446744073709551615"), Some(u64::MAX));
    assert_eq!(parse_u64("18446744073709551616"), None);
    assert_eq!(parse_u64("0007"), Some(7));
    assert_eq!(parse_usize("12"), Some(12));
    assert_eq!(parse_usize_chars(&cs("12a")), None);
}

#[test]
fn parse_signed_values() {
    assert_eq!(parse_i64("-42"), Some(-42));
    assert_eq!(parse_i64("+42"), Some(42));
    assert_eq!(parse_i64("-"), None);
    assert_eq!(parse_i64("-9223372036854775808"), Some(i64::MIN));
    assert_eq!(parse_i64("9223372036854775807"), Some(i64::MAX));
    assert_eq!(parse_i64("9223372036854775808"), None);
    assert_eq!(parse_i64("1-"), None);
}

#[test]
fn law_unsigned_widening_example() {
    assert_eq!(parse_u8("200"), Some(200));
    assert_eq!(parse_u16("200"), Some(200));
    assert_eq!(parse_u32("200"), Some(200));
    assert_eq!(parse_u64("200"), Some(200));
    assert_eq!(parse_u64("+77"), Some(77));
    assert_eq!(parse_i64("+77"), Some(77));
}

#[test]
fn law_trim_idempotent_example() {
    for s in ["  a b \t", "x", "", " \u{2003} ", "\n\nq\n"] {
        let once = trim_str(s);
        assert_eq!(trim_str(&once), once);
    }
}
