use secscan::text::{
    chars_of, contains_chars, decimal_string, eq_text, is_whitespace_char, join_strings,
    split_char, split_lines, split_words, starts_with_chars, string_of, text_contains, trim_chars,
    trim_end_char_chars, trim_str,
};

fn strs(v: Vec<Vec<char>>) -> Vec<String> {
    v.into_iter().map(|l| l.into_iter().collect()).collect()
}

#[test]
fn chars_round_trip() {
    let s = "héllo 🛡️\tworld";
    let c = chars_of(s);
    assert_eq!(c, s.chars().collect::<Vec<_>>());
    assert_eq!(string_of(&c), s);
    assert_eq!(string_of(&[]), "");
}

#[test]
fn whitespace_matches_std() {
    for cp in 0u32..0x3100 {
        if let Some(c) = char::from_u32(cp) {
            assert_eq!(is_whitespace_char(c), c.is_whitespace(), "{:#x}", cp);
        }
    }
}

#[test]
fn lines_match_std() {
    for s in ["", "a", "a\n", "a\r\nb", "a\n\nb\n", "\n", "x\r", "x\r\r\n", "\r\n\r\n"] {
        let expected: Vec<String> = s.lines().map(|l| l.to_string()).collect();
        assert_eq!(strs(split_lines(&chars_of(s))), expected, "{:?}", s);
    }
}

#[test]
fn words_match_std() {
    for s in ["", "  ", "a b", " a\t\tb \u{3000}c ", "one"] {
        let expected: Vec<String> = s.split_whitespace().map(|l| l.to_string()).collect();
        assert_eq!(strs(split_words(&chars_of(s))), expected, "{:?}", s);
    }
}

#[test]
fn split_matches_std() {
    for s in ["", ",", "a,b", "a,,b,", " x , y"] {
        let expected: Vec<String> = s.split(',').map(|l| l.to_string()).collect();
        assert_eq!(strs(split_char(&chars_of(s), ',')), expected, "{:?}", s);
    }
}

#[test]
fn trims_match_std() {
    for s in ["", "  a b  ", "\u{3000}x\u{85}", "\t\n", "q"] {
        assert_eq!(trim_str(s), s.trim());
        let t: String = trim_chars(&chars_of(s)).into_iter().collect();
        assert_eq!(t, s.trim());
    }
    for s in ["91%", "5%%", "%", "x"] {
        let t: String = trim_end_char_chars(&chars_of(s), '%').into_iter().collect();
        assert_eq!(t, s.trim_end_matches('%'));
    }
}

#[test]
fn searching() {
    assert!(text_contains("listen 0.0.0.0:80", "0.0.0.0"));
    assert!(text_contains("abc", ""));
    assert!(!text_contains("ab", "abc"));
    assert!(contains_chars(&chars_of("kworker/0"), &chars_of("worker")));
    assert!(starts_with_chars(&chars_of("root 1"), &chars_of("root")));
    assert!(!starts_with_chars(&chars_of("roo"), &chars_of("root")));
    assert!(eq_text(&chars_of("no"), "no"));
    assert!(!eq_text(&chars_of("No"), "no"));
}

#[test]
fn joining_and_numbers() {
    assert_eq!(join_strings(&vec![], ", "), "");
    assert_eq!(join_strings(&vec!["a".to_string()], ", "), "a");
    assert_eq!(join_strings(&vec!["a".to_string(), "b".to_string(), "c".to_string()], ", "), "a, b, c");
    for n in [0u64, 9, 10, 99, 100, 65535, 4294967295] {
        assert_eq!(decimal_string(n), n.to_string());
    }
}
