use euphonica::common::Date;
use euphonica::dates::release_date_label;
use euphonica::paths::{file_path, first_uri};
use euphonica::text::{
    chars_of, clone_opt, decimal_string, is_before, is_white_space, join, join2, join3, rfind,
    same, shown_text, signed_string, text_of_entry, trim, value_of_entry,
};

#[test]
fn numbers_are_written_in_decimal() {
    assert_eq!(decimal_string(0), "0");
    assert_eq!(decimal_string(9), "9");
    assert_eq!(decimal_string(10), "10");
    assert_eq!(decimal_string(1970), "1970");
    assert_eq!(decimal_string(u64::MAX), "18446744073709551615");
    assert_eq!(signed_string(-7), "-7");
    assert_eq!(signed_string(0), "0");
    assert_eq!(signed_string(42), "42");
    assert_eq!(signed_string(i64::MIN), "-9223372036854775808");
}

#[test]
fn texts_are_joined() {
    assert_eq!(join2("ab", "cd"), "abcd");
    assert_eq!(join3("ab", "", "cd"), "abcd");
    let parts = vec!["a".to_string(), "b".to_string(), "c".to_string()];
    assert_eq!(join(&parts, 0, "/"), "");
    assert_eq!(join(&parts, 1, "/"), "a");
    assert_eq!(join(&parts, 2, "/"), "a/b");
    assert_eq!(join(&parts, 3, "/"), "a/b/c");
}

#[test]
fn texts_are_compared() {
    assert!(same("né", "né"));
    assert!(!same("a", "A"));
    assert!(!same("", "a"));
    assert!(is_before("a", "b"));
    assert!(is_before("a", "ab"));
    assert!(is_before("Z", "a"));
    assert!(is_before("z", "é"));
    assert!(!is_before("b", "a"));
    assert!(!is_before("a", "a"));
    assert!(!is_before("", ""));
}

#[test]
fn the_order_of_texts_is_that_of_strings() {
    let texts = ["", "a", "ab", "b", "Z", "é", "漢", "😀", "a b"];
    for a in texts {
        for b in texts {
            assert_eq!(is_before(a, b), a < b, "{a:?} and {b:?}");
        }
    }
}

#[test]
fn the_last_occurrence_is_found() {
    let text = chars_of("<a href=1><a href=2>");
    assert_eq!(rfind(&text, &chars_of("<a href")), Some(10));
    assert_eq!(rfind(&text, &chars_of("</a>")), None);
    assert_eq!(rfind(&chars_of("aa"), &chars_of("aaa")), None);
    assert_eq!(rfind(&chars_of("aaa"), &chars_of("aa")), Some(1));
}

#[test]
fn white_space_is_trimmed() {
    assert_eq!(trim("  a b \n"), "a b");
    assert_eq!(trim("\u{3000}a\u{a0}"), "a");
    assert_eq!(trim(" \t "), "");
    assert_eq!(trim(""), "");
    assert_eq!(trim("a"), "a");
    for n in 0..0x3100u32 {
        if let Some(c) = char::from_u32(n) {
            assert_eq!(is_white_space(c), c.is_whitespace(), "{n:#x}");
        }
    }
}

#[test]
fn entries_hold_values() {
    assert_eq!(value_of_entry(String::new()), None);
    assert_eq!(value_of_entry("x".to_string()), Some("x".to_string()));
    assert_eq!(text_of_entry(&None), "");
    assert_eq!(text_of_entry(&Some("x".to_string())), "x");
    assert_eq!(clone_opt(&Some("x".to_string())), Some("x".to_string()));
    assert_eq!(clone_opt(&None), None);
}

#[test]
fn placeholders_stand_for_nothing() {
    assert_eq!(shown_text(None, "Unknown album"), "Unknown album");
    assert_eq!(shown_text(Some(""), "Unknown album"), "Unknown album");
    assert_eq!(shown_text(Some("Low"), "Unknown album"), "Low");
}

#[test]
fn release_dates_are_labelled() {
    let date = |year, month, day| Some(Date { year, month, day });
    assert_eq!(release_date_label(&None), "-");
    assert_eq!(release_date_label(&date(1977, 1, 14)), "1977-01-14");
    assert_eq!(release_date_label(&date(12, 12, 31)), "0012-12-31");
    assert_eq!(release_date_label(&date(-44, 3, 15)), "-0044-03-15");
    assert_eq!(release_date_label(&date(2000, 2, 29)), "2000-02-29");
    assert_eq!(release_date_label(&date(9999, 12, 31)), "9999-12-31");
    assert_eq!(release_date_label(&date(0, 1, 1)), "0000-01-01");
}

#[test]
fn picked_files_have_paths() {
    assert_eq!(
        file_path("file:///home/u/My%20Music/a%2Bb.jpg"),
        Some("/home/u/My Music/a+b.jpg".to_string())
    );
    assert_eq!(file_path("/plain+path"), Some("/plain+path".to_string()));
    assert_eq!(file_path("100%"), Some("100%".to_string()));
    assert_eq!(file_path("%zz%4"), Some("%zz%4".to_string()));
    assert_eq!(file_path("caf%C3%A9"), Some("café".to_string()));
    assert_eq!(file_path("file:/"), Some("file:/".to_string()));
    assert_eq!(file_path("%ff"), None);
    assert_eq!(file_path(""), Some(String::new()));
}

#[test]
fn a_path_without_percent_signs_is_unchanged() {
    for path in ["/a/b c", "ünï", "a+b&c=d", ""] {
        assert_eq!(file_path(path), Some(path.to_string()));
    }
}

#[test]
fn the_first_file_counts() {
    assert_eq!(first_uri(&vec![]), None);
    assert_eq!(first_uri(&vec!["a".to_string(), "b".to_string()]), Some("a".to_string()));
}
