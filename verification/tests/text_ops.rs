use screen_ocr::text::{parse_u32, split_once, trim, trim_end_char, is_white_space_char};

#[test]
fn trim_removes_unicode_whitespace_at_both_ends() {
    assert_eq!(trim("  hello world \n\t"), "hello world");
    assert_eq!(trim("\u{3000}\u{a0}text\u{2028}"), "text");
    assert_eq!(trim("   "), "");
    assert_eq!(trim(""), "");
    assert_eq!(trim("a b"), "a b");
}

#[test]
fn whitespace_class_matches_std() {
    for c in ['\t', '\n', '\u{b}', '\u{c}', '\r', ' ', '\u{85}', '\u{a0}', '\u{1680}', '\u{2000}', '\u{200a}', '\u{2028}', '\u{2029}', '\u{202f}', '\u{205f}', '\u{3000}', 'a', '\u{200b}', '\u{180e}', 'x', '\u{0}'] {
        assert_eq!(is_white_space_char(c), c.is_whitespace(), "{:?}", c);
    }
}

#[test]
fn split_once_splits_at_first_separator() {
    assert_eq!(split_once("100,200 800x600", ' '), Some(("100,200", "800x600")));
    assert_eq!(split_once("a b c", ' '), Some(("a", "b c")));
    assert_eq!(split_once("800x600x2", 'x'), Some(("800", "600x2")));
    assert_eq!(split_once("nospace", ' '), None);
    assert_eq!(split_once(" lead", ' '), Some(("", "lead")));
}

#[test]
fn trim_end_char_strips_all_trailing_copies() {
    assert_eq!(trim_end_char("http://host:4489///", '/'), "http://host:4489");
    assert_eq!(trim_end_char("http://host", '/'), "http://host");
    assert_eq!(trim_end_char("///", '/'), "");
}

#[test]
fn parse_u32_follows_std_parse() {
    for s in ["0", "7", "800", "+5", "+", "", "-1", "-0", "4294967295", "4294967296", "99999999999", "00012", " 5", "5 ", "1_000", "++5", "12a"] {
        assert_eq!(parse_u32(s), s.parse::<u32>().ok(), "{:?}", s);
    }
}

#[test]
fn trimming_twice_changes_nothing() {
    for s in ["  a b  ", "\u{2028}x\u{3000}", "", "   ", "plain"] {
        let once = trim(s);
        assert_eq!(trim(once), once);
        assert!(!once.starts_with(char::is_whitespace));
        assert!(!once.ends_with(char::is_whitespace));
    }
}
