use astra::decimal::decimal_string;
use astra::text::{
    chars_of, contains, ends_with, is_whitespace, join, same_text, starts_with, trim, unquote,
};

#[test]
fn trim_removes_surrounding_white_space() {
    assert_eq!(trim("  M42 \t\n"), "M42");
    assert_eq!(trim("M 42"), "M 42");
    assert_eq!(trim(" \u{a0}\u{3000}x\u{2009} "), "x");
}

#[test]
fn trim_of_blank_text_is_empty() {
    assert_eq!(trim(""), "");
    assert_eq!(trim("   "), "");
}

#[test]
fn trim_keeps_characters_that_are_not_white_space() {
    assert_eq!(trim("\u{200b}x\u{200b}"), "\u{200b}x\u{200b}");
}

#[test]
fn unquote_strips_one_pair_of_matching_marks() {
    assert_eq!(unquote("'M42   '"), "M42");
    assert_eq!(unquote("  \"NGC 7000\" "), "NGC 7000");
    assert_eq!(unquote("''M31''"), "'M31'");
}

#[test]
fn unquote_leaves_unmatched_marks() {
    assert_eq!(unquote("'M42\""), "'M42\"");
    assert_eq!(unquote("'"), "'");
    assert_eq!(unquote("M'42"), "M'42");
    assert_eq!(unquote("''"), "");
}

#[test]
fn join_puts_the_separator_between_parts() {
    let parts = vec!["a".to_string(), "b".to_string(), "c".to_string()];
    assert_eq!(join(&parts, ", "), "a, b, c");
    assert_eq!(join(&vec!["only".to_string()], ", "), "only");
    assert_eq!(join(&Vec::new(), ", "), "");
}

#[test]
fn prefix_suffix_and_substring_search() {
    let hay = chars_of("zwo seestar s50");
    assert!(starts_with(&hay, &chars_of("zwo")));
    assert!(!starts_with(&hay, &chars_of("wo")));
    assert!(ends_with(&hay, &chars_of("s50")));
    assert!(!ends_with(&hay, &chars_of("zwo seestar s50 ")));
    assert!(contains(&hay, &chars_of("seestar")));
    assert!(contains(&hay, &chars_of("")));
    assert!(contains(&hay, &chars_of("0")));
    assert!(!contains(&hay, &chars_of("seestars")));
    assert!(!contains(&chars_of("see"), &chars_of("seestar")));
}

#[test]
fn same_text_compares_characters() {
    assert!(same_text("Stacked", "Stacked"));
    assert!(!same_text("Stacked", "stacked"));
    assert!(!same_text("Stacked", "Stacked "));
}

#[test]
fn decimal_string_matches_display() {
    for n in [0i64, 7, 10, 99, 100, 2024, -1, -10, -2024, i64::MAX, i64::MIN] {
        assert_eq!(decimal_string(n), format!("{}", n));
    }
}

#[test]
fn white_space_is_what_the_standard_library_trims() {
    for code in 0..=0x10ffffu32 {
        if let Some(c) = char::from_u32(code) {
            assert_eq!(is_whitespace(c), c.is_whitespace(), "U+{:04X}", code);
        }
    }
    for text in ["", " ", " a ", "\t\u{2003}M 42\u{85}\n", "\u{feff}x", "a\u{3000}"] {
        assert_eq!(trim(text), text.trim());
    }
}
