use whisper::decimal::{decimal_text, parse_u64, signed_decimal_text};
use whisper::json::quoted;
use whisper::search::{eq_ignoring_ascii_case, find_from, has_text};
use whisper::text::{chars_of, same_text, trim_text, white_space};

#[test]
fn white_space_agrees_with_std() {
    for c in '\0'..=char::MAX {
        assert_eq!(white_space(c), c.is_whitespace(), "{c:?}");
    }
}

#[test]
fn trim_agrees_with_std() {
    for text in ["", " ", "a", " a ", "\u{a0}a b\u{3000}\n", "\u{200b}x"] {
        assert_eq!(trim_text(text), text.trim());
    }
}

#[test]
fn numbers_are_written_and_read_back() {
    for n in [0, 1, 9, 10, 99, 100, 65_535, u64::MAX] {
        assert_eq!(decimal_text(n), n.to_string());
        assert_eq!(parse_u64(&chars_of(&decimal_text(n))), Some(n));
    }
    for n in [0, 7, -7, i32::MAX, i32::MIN] {
        assert_eq!(signed_decimal_text(n), n.to_string());
    }
}

#[test]
fn parsing_agrees_with_std() {
    for text in ["", "+", "+1", "-1", "1 ", "١", "007", "18446744073709551616", "1_0"] {
        assert_eq!(parse_u64(&chars_of(text)), text.parse::<u64>().ok(), "{text}");
    }
}

#[test]
fn json_strings_agree_with_serde_json() {
    for c in ('\0'..='\u{ff}').chain(['\u{2028}', '\u{2029}', '😀']) {
        let text = format!("a{c}b");
        assert_eq!(quoted(&text), serde_json::to_string(&text).unwrap());
    }
    assert_eq!(quoted("\"\\\n"), "\"\\\"\\\\\\n\"");
}

#[test]
fn searching_finds_the_first_occurrence() {
    let hay = chars_of("abcabc");
    assert_eq!(find_from(&hay, &chars_of("bc"), 0), Some(1));
    assert_eq!(find_from(&hay, &chars_of("bc"), 2), Some(4));
    assert_eq!(find_from(&hay, &chars_of("bc"), 5), None);
    assert!(has_text(&hay, &chars_of("")));
    assert!(!has_text(&hay, &chars_of("cb")));
}

#[test]
fn comparisons() {
    assert!(same_text("ção", "ção"));
    assert!(!same_text("a", "A"));
    assert!(eq_ignoring_ascii_case(&chars_of("AbÇ"), &chars_of("aBÇ")));
    assert!(!eq_ignoring_ascii_case(&chars_of("ç"), &chars_of("Ç")));
    assert!(!eq_ignoring_ascii_case(&chars_of("ab"), &chars_of("a")));
}
