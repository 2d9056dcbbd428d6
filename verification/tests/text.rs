use cio::text::{
    ends_with, is_decimal_digit, is_whitespace, starts_with, str_eq, trim, trim_by,
    trim_end_matches, trim_start_matches, truncate, CharSet,
};

#[test]
fn trim_removes_unicode_white_space_at_both_ends() {
    assert_eq!(trim("  \t hello world \n"), "hello world");
    assert_eq!(trim("\u{3000}\u{a0}x\u{2028}"), "x");
    assert_eq!(trim("   "), "");
    assert_eq!(trim(""), "");
    assert_eq!(trim("a b"), "a b");
}

#[test]
fn trim_agrees_with_std() {
    for s in ["", " ", " a ", "\u{85}b\u{205f}", "\u{200b}c", "x\u{1680}y", "\r\n\tz\u{2029}"] {
        assert_eq!(trim(s), s.trim());
    }
}

#[test]
fn whitespace_classification_agrees_with_std() {
    for c in ['\t', '\n', ' ', '\u{b}', '\u{c}', '\r', '\u{85}', '\u{a0}', '\u{2000}', '\u{200a}', '\u{200b}', 'a', '\u{3000}', '\u{feff}'] {
        assert_eq!(is_whitespace(c), c.is_whitespace());
    }
}

#[test]
fn decimal_digits() {
    assert!(is_decimal_digit('0'));
    assert!(is_decimal_digit('9'));
    assert!(!is_decimal_digit('a'));
    assert!(!is_decimal_digit('٣'));
}

#[test]
fn trim_by_one_character() {
    assert_eq!(trim_by("\"\"name\"", CharSet::Only('"')), "name");
    assert_eq!(trim_by("\"\"\"", CharSet::Only('"')), "");
    assert_eq!(trim_by("a\"b", CharSet::Only('"')), "a\"b");
}

#[test]
fn prefix_and_suffix_tests() {
    assert!(starts_with("Weekly sync recording", "Weekly sync"));
    assert!(!starts_with("Weekly", "Weekly sync"));
    assert!(starts_with("anything", ""));
    assert!(ends_with("calendar@oxide.computer", "oxide.computer"));
    assert!(!ends_with("calendar@example.com", "oxide.computer"));
    assert!(str_eq("video/mp4", "video/mp4"));
    assert!(!str_eq("video/mp4", "video/mp"));
}

#[test]
fn trim_matches_remove_repeated_copies() {
    assert_eq!(trim_start_matches("ababc", "ab"), "c");
    assert_eq!(trim_start_matches("ababc", ""), "ababc");
    assert_eq!(trim_end_matches("cxyxy", "xy"), "c");
    assert_eq!(trim_end_matches("xyxy", "xy"), "");
    for (s, p) in [("aaab", "aa"), ("éée", "é"), ("abc", "abcd")] {
        assert_eq!(trim_start_matches(s, p), s.trim_start_matches(p));
        assert_eq!(trim_end_matches(s, p), s.trim_end_matches(p));
    }
}

#[test]
fn truncate_keeps_first_characters() {
    assert_eq!(truncate("héllo", 2), "hé");
    assert_eq!(truncate("héllo", 5), "héllo");
    assert_eq!(truncate("héllo", 50), "héllo");
    assert_eq!(truncate("", 0), "");
    assert_eq!(truncate(&truncate("abcdef", 3), 3), "abc");
}

#[test]
fn trimming_twice_changes_nothing() {
    for s in ["  a b  ", "\u{2003}x", "", "   ", "\"q\""] {
        assert_eq!(trim(trim(s)), trim(s));
        assert_eq!(trim_by(trim_by(s, CharSet::Only('"')), CharSet::Only('"')), trim_by(s, CharSet::Only('"')));
    }
}
