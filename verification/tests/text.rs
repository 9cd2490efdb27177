use tag::text::{is_blank, is_whitespace, non_blank, str_eq, trim};

#[test]
fn trims_unicode_whitespace() {
    assert_eq!(trim("  a b  "), "a b");
    assert_eq!(trim("\u{3000}x\u{a0}"), "x");
    assert_eq!(trim("   "), "");
    assert_eq!(trim(""), "");
    assert_eq!(trim("abc"), "abc");
    for s in ["  a ", "\tb\n", "\u{2003}c\u{2029}", "d"] {
        assert_eq!(trim(s), s.trim());
    }
}

#[test]
fn whitespace_matches_std() {
    for c in ['\t', '\n', ' ', '\u{85}', '\u{a0}', '\u{1680}', '\u{2000}', '\u{200a}', '\u{2028}', '\u{202f}', '\u{205f}', '\u{3000}', 'a', '0', '\u{200b}', '\u{feff}'] {
        assert_eq!(is_whitespace(c), c.is_whitespace(), "{c:?}");
    }
}

#[test]
fn blank_and_non_blank() {
    assert!(is_blank(""));
    assert!(is_blank(" \t "));
    assert!(!is_blank(" x "));
    assert_eq!(non_blank(Some("  ".into())), None);
    assert_eq!(non_blank(Some(" q ".into())), Some(" q ".to_string()));
    assert_eq!(non_blank(None), None);
}

#[test]
fn str_eq_compares_characters() {
    assert!(str_eq("abc", "abc"));
    assert!(!str_eq("abc", "abd"));
    assert!(!str_eq("abc", "ab"));
    assert!(str_eq("", ""));
}
