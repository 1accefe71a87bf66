use psc::text::{char_is_space, join, strip_suffix, trim};

#[test]
fn trim_cuts_white_space_off_both_ends() {
    assert_eq!(trim("  a b \t\r\n"), "a b");
    assert_eq!(trim("a"), "a");
    assert_eq!(trim(""), "");
    assert_eq!(trim(" \n\t "), "");
    assert_eq!(trim("\u{a0}{\"k\": 1}\u{3000}"), "{\"k\": 1}");
    assert_eq!(trim(" é ü "), "é ü");
}

#[test]
fn trim_agrees_with_std() {
    for s in ["", " ", "x", " x", "x ", "\u{2028}x\u{2029}", "\u{200b}x", "\u{85}y\u{1680}", "\u{feff}z"] {
        assert_eq!(trim(s), s.trim(), "{s:?}");
    }
}

#[test]
fn char_is_space_agrees_with_std() {
    for code in 0..=0x3100u32 {
        if let Some(c) = char::from_u32(code) {
            assert_eq!(char_is_space(c), c.is_whitespace(), "U+{code:04X}");
        }
    }
    assert!(!char_is_space('\u{feff}'));
    assert!(!char_is_space('\u{10ffff}'));
}

#[test]
fn join_puts_the_separator_between_the_parts() {
    let parts = vec!["a".to_string(), "b".to_string(), "c".to_string()];
    assert_eq!(join(&parts, "|"), "a|b|c");
    assert_eq!(join(&parts, ", "), "a, b, c");
    assert_eq!(join(&parts, ""), "abc");
}

#[test]
fn join_of_one_part_or_none_has_no_separator() {
    assert_eq!(join(&vec!["only".to_string()], "|"), "only");
    assert_eq!(join(&Vec::new(), "|"), "");
    assert_eq!(join(&vec![String::new(), String::new()], "|"), "|");
}

#[test]
fn strip_suffix_cuts_only_at_the_end() {
    assert_eq!(strip_suffix("a.txt", ".txt"), "a");
    assert_eq!(strip_suffix("a.txt.zip", ".txt"), "a.txt.zip");
    assert_eq!(strip_suffix("txt", ".txt"), "txt");
    assert_eq!(strip_suffix("a", ""), "a");
    assert_eq!(strip_suffix("é.txt", ".txt"), "é");
}
