use content_pipeline::text::{
    begins_with, chars_of, equal_ignoring_case, find, find_stop, includes, is_whitespace,
    lower_code, occurs_at_position, range_equals, trim_bounds,
};

fn chars(s: &str) -> Vec<char> {
    s.chars().collect()
}

#[test]
fn chars_of_keeps_every_character_in_order() {
    assert_eq!(chars_of(""), Vec::<char>::new());
    assert_eq!(chars_of("abc"), vec!['a', 'b', 'c']);
    assert_eq!(chars_of("é→z"), vec!['é', '→', 'z']);
}

#[test]
fn find_returns_the_leftmost_occurrence() {
    assert_eq!(find(&chars("abcabc"), &chars("bc")), Some(1));
    assert_eq!(find(&chars("aaa"), &chars("aa")), Some(0));
    assert_eq!(find(&chars("abc"), &chars("abc")), Some(0));
    assert_eq!(find(&chars("xxabc"), &chars("abc")), Some(2));
}

#[test]
fn find_reports_a_missing_needle() {
    assert_eq!(find(&chars("abc"), &chars("abd")), None);
    assert_eq!(find(&chars("ab"), &chars("abc")), None);
    assert_eq!(find(&chars(""), &chars("a")), None);
}

#[test]
fn find_places_the_empty_needle_at_the_start() {
    assert_eq!(find(&chars("abc"), &chars("")), Some(0));
    assert_eq!(find(&chars(""), &chars("")), Some(0));
}

#[test]
fn find_counts_characters_not_bytes() {
    assert_eq!(find(&chars("ééab"), &chars("ab")), Some(2));
}

#[test]
fn occurs_at_position_checks_one_place() {
    let hay = chars("hello");
    assert!(occurs_at_position(&hay, &chars("ell"), 1));
    assert!(!occurs_at_position(&hay, &chars("ell"), 0));
    assert!(occurs_at_position(&hay, &chars(""), 5));
    assert!(!occurs_at_position(&hay, &chars(""), 6));
    assert!(!occurs_at_position(&hay, &chars("lo"), 4));
    assert!(!occurs_at_position(&hay, &chars("hello!"), 0));
}

#[test]
fn begins_with_tests_the_prefix_only() {
    assert!(begins_with(&chars("{\"users\":[]}"), &chars("{\"users\":[")));
    assert!(!begins_with(&chars(" {\"users\":[]}"), &chars("{\"users\":[")));
    assert!(begins_with(&chars("abc"), &chars("")));
    assert!(!begins_with(&chars("ab"), &chars("abc")));
}

#[test]
fn includes_is_a_substring_test() {
    assert!(includes(&chars("application/json; charset=utf-8"), &chars("application/json")));
    assert!(!includes(&chars("application/json"), &chars("text/html")));
    assert!(includes(&chars("x"), &chars("")));
}

#[test]
fn find_stop_stops_at_the_first_stop_or_at_the_end() {
    let s = chars("ab,cd,ef");
    assert_eq!(find_stop(&s, 0, ','), 2);
    assert_eq!(find_stop(&s, 2, ','), 2);
    assert_eq!(find_stop(&s, 3, ','), 5);
    assert_eq!(find_stop(&s, 6, ','), 8);
    assert_eq!(find_stop(&s, 8, ','), 8);
}

#[test]
fn is_whitespace_knows_the_unicode_white_space() {
    for c in [
        '\t', '\n', '\u{0B}', '\u{0C}', '\r', ' ', '\u{85}', '\u{A0}', '\u{1680}', '\u{2000}',
        '\u{2005}', '\u{200A}', '\u{2028}', '\u{2029}', '\u{202F}', '\u{205F}', '\u{3000}',
    ] {
        assert!(is_whitespace(c), "{:?}", c);
    }
    for c in ['a', '0', '\u{08}', '\u{0E}', '\u{200B}', '\u{180E}', '\u{FEFF}', '"', ','] {
        assert!(!is_whitespace(c), "{:?}", c);
    }
}

#[test]
fn is_whitespace_agrees_with_the_standard_library() {
    let mut code: u32 = 0;
    while code <= 0x10FFFF {
        if let Some(c) = char::from_u32(code) {
            assert_eq!(is_whitespace(c), c.is_whitespace(), "U+{:04X}", code);
        }
        code += 1;
    }
}

#[test]
fn trim_bounds_strips_both_ends() {
    let s = chars("xx  true \t,");
    assert_eq!(trim_bounds(&s, 2, 10), (4, 8));
    assert_eq!(trim_bounds(&s, 4, 8), (4, 8));
    assert_eq!(trim_bounds(&s, 0, 11), (0, 11));
}

#[test]
fn trim_bounds_of_blank_text_is_empty() {
    let s = chars("a   b");
    let (lo, hi) = trim_bounds(&s, 1, 4);
    assert_eq!(lo, hi);
    let (lo, hi) = trim_bounds(&s, 2, 2);
    assert_eq!((lo, hi), (2, 2));
}

#[test]
fn trim_bounds_agrees_with_the_standard_library() {
    for text in ["", " ", "a", " a", "a ", "  a b  ", "\u{3000}x\u{A0}", "\n\ttrue\r\n", " \u{200B} "] {
        let s = chars(text);
        let (lo, hi) = trim_bounds(&s, 0, s.len());
        let got: String = s[lo..hi].iter().collect();
        assert_eq!(got, text.trim(), "{:?}", text);
    }
}

#[test]
fn range_equals_compares_a_part_with_a_word() {
    let s = chars("is true, yes");
    assert!(range_equals(&s, 3, 7, &chars("true")));
    assert!(!range_equals(&s, 3, 8, &chars("true")));
    assert!(!range_equals(&s, 2, 6, &chars("true")));
    assert!(range_equals(&s, 5, 5, &chars("")));
}

#[test]
fn lower_code_lowers_ascii_capitals_only() {
    assert_eq!(lower_code('A'), 'a' as u32);
    assert_eq!(lower_code('Z'), 'z' as u32);
    assert_eq!(lower_code('a'), 'a' as u32);
    assert_eq!(lower_code('@'), '@' as u32);
    assert_eq!(lower_code('['), '[' as u32);
    assert_eq!(lower_code('É'), 'É' as u32);
}

#[test]
fn equal_ignoring_case_ignores_ascii_case_only() {
    assert!(equal_ignoring_case(&chars("Content-Type"), &chars("content-type")));
    assert!(equal_ignoring_case(&chars("CONTENT-TYPE"), &chars("Content-Type")));
    assert!(!equal_ignoring_case(&chars("Content-Type"), &chars("Content-Typ")));
    assert!(!equal_ignoring_case(&chars("Content-Type"), &chars("Content_Type")));
    assert!(!equal_ignoring_case(&chars("É"), &chars("é")));
    assert!(equal_ignoring_case(&chars(""), &chars("")));
}
