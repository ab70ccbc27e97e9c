use andromeda_stars::number::{i64_text, parse_i64};
use andromeda_stars::text::{trim, trim_chars, CharClass};

fn chars(s: &str) -> Vec<char> {
    s.chars().collect()
}

fn text(v: &[char]) -> String {
    v.iter().collect()
}

#[test]
fn trim_strips_unicode_white_space() {
    assert_eq!(trim("\u{3000}\t Andromeda M31 \n\u{a0}"), "Andromeda M31");
    assert_eq!(trim("   "), "");
    assert_eq!(trim(""), "");
    assert_eq!(trim("a b"), "a b");
}

#[test]
fn trim_matches_slashes() {
    let v = chars("//andromeda/");
    assert_eq!(text(&trim_chars(&v, CharClass::Exactly('/'))), "andromeda");
    assert_eq!(text(&trim_chars(&chars("///"), CharClass::Exactly('/'))), "");
}

#[test]
fn parse_i64_follows_std() {
    let cases = [
        "42", "-7", "+5", "", "-", "+", "12a", " 1", "1 ", "007",
        "9223372036854775807", "9223372036854775808", "-9223372036854775808",
        "-9223372036854775809", "99999999999999999999999", "first",
    ];
    for case in cases {
        assert_eq!(parse_i64(&chars(case)), case.parse::<i64>().ok(), "case {:?}", case);
    }
}

#[test]
fn i64_text_matches_display() {
    for v in [0i64, 7, 10, -1, -10, 12345, i64::MAX, i64::MIN] {
        assert_eq!(text(&i64_text(v)), v.to_string());
        assert_eq!(parse_i64(&i64_text(v)), Some(v));
    }
}

#[test]
fn trimming_twice_changes_nothing() {
    for s in ["  a  ", "\u{2003}x y\u{2028}", "", "   ", "b"] {
        let once = trim(s);
        assert_eq!(trim(&once), once);
    }
}
