use iflow_workspace::text;
use iflow_workspace::text::{
    ends_with, find_from, from_chars, join, replace_char, split_ranges, stands_at, starts_with,
    to_chars, to_decimal, trim, trim_range,
};

fn chars(s: &str) -> Vec<char> {
    s.chars().collect()
}

#[test]
fn chars_and_back() {
    assert_eq!(to_chars("aé文"), vec!['a', 'é', '文']);
    assert_eq!(to_chars(""), Vec::<char>::new());
    let all = chars("hello");
    assert_eq!(from_chars(&all, 1, 4), "ell");
    assert_eq!(from_chars(&all, 2, 2), "");
    assert_eq!(from_chars(&all, 0, 5), "hello");
}

#[test]
fn trim_takes_whitespace_off_both_ends() {
    assert_eq!(trim("  a b \t\r\n"), "a b");
    assert_eq!(trim("\u{3000}x\u{a0}"), "x");
    assert_eq!(trim("   "), "");
    assert_eq!(trim(""), "");
    assert_eq!(trim("x"), "x");
    let all = chars(" ab  c ");
    assert_eq!(trim_range(&all, 0, 7), (1, 6));
    assert_eq!(trim_range(&all, 3, 5), (5, 5));
}

#[test]
fn joining_and_concatenating() {
    assert_eq!(text::concat("ab", "cd"), "abcd");
    assert_eq!(text::concat3("a", "", "c"), "ac");
    assert_eq!(join(&vec!["a".to_string(), "b".to_string(), "c".to_string()], ", "), "a, b, c");
    assert_eq!(join(&vec!["a".to_string()], ", "), "a");
    assert_eq!(join(&Vec::new(), ", "), "");
}

#[test]
fn prefixes_and_suffixes() {
    assert!(starts_with("session-1", "session-"));
    assert!(starts_with("a", ""));
    assert!(!starts_with("sess", "session-"));
    assert!(!starts_with("Session-1", "session-"));
    assert!(ends_with("a.jsonl", ".jsonl"));
    assert!(ends_with("a", ""));
    assert!(!ends_with("a.json", ".jsonl"));
    assert!(!ends_with("l", ".jsonl"));
}

#[test]
fn splitting_at_a_character() {
    let all = chars("a\n\nbc\n");
    assert_eq!(split_ranges(&all, '\n'), vec![(0, 1), (2, 2), (3, 5), (6, 6)]);
    assert_eq!(split_ranges(&chars(""), '\n'), vec![(0, 0)]);
    assert_eq!(split_ranges(&chars("abc"), '\n'), vec![(0, 3)]);
}

#[test]
fn replacing_characters() {
    assert_eq!(replace_char("a\\b\\c", '\\', '/'), "a/b/c");
    assert_eq!(replace_char("abc", 'x', 'y'), "abc");
    assert_eq!(replace_char("", 'x', 'y'), "");
}

#[test]
fn finding_patterns() {
    let all = chars("abcabc");
    assert_eq!(find_from(&all, &chars("bc"), 0), Some(1));
    assert_eq!(find_from(&all, &chars("bc"), 2), Some(4));
    assert_eq!(find_from(&all, &chars("bc"), 5), None);
    assert_eq!(find_from(&all, &chars("x"), 0), None);
    assert_eq!(find_from(&all, &chars(""), 3), Some(3));
    assert_eq!(find_from(&all, &chars("abcabcd"), 0), None);
    assert!(stands_at(&all, &chars("cab"), 2));
    assert!(!stands_at(&all, &chars("cab"), 3));
    assert!(!stands_at(&all, &chars("bc"), 5));
}

#[test]
fn decimal_digits() {
    assert_eq!(to_decimal(0), "0");
    assert_eq!(to_decimal(7), "7");
    assert_eq!(to_decimal(10), "10");
    assert_eq!(to_decimal(65535), "65535");
    assert_eq!(to_decimal(u64::MAX), "18446744073709551615");
}

#[test]
fn whitespace_is_the_unicode_property() {
    let listed = |c: char| {
        matches!(
            c,
            '\u{9}'..='\u{d}'
                | ' '
                | '\u{85}'
                | '\u{a0}'
                | '\u{1680}'
                | '\u{2000}'..='\u{200a}'
                | '\u{2028}'
                | '\u{2029}'
                | '\u{202f}'
                | '\u{205f}'
                | '\u{3000}'
        )
    };
    let mut whitespace = 0;
    for code in 0..=0x10ffffu32 {
        let Some(c) = char::from_u32(code) else {
            continue;
        };
        let mut text = String::new();
        text.push(c);
        let trimmed_away = trim(&text).is_empty();
        assert_eq!(trimmed_away, listed(c), "U+{:04X}", code);
        if trimmed_away {
            whitespace += 1;
        }
    }
    assert_eq!(whitespace, 25);
}
