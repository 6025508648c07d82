use audio_engine::text::{is_blank, is_white_space, joined, same_text, to_decimal, trim};

#[test]
fn white_space_is_what_unicode_says() {
    for c in '\0'..=char::MAX {
        assert_eq!(is_white_space(c), c.is_whitespace(), "{:?}", c);
    }
}

#[test]
fn trim_removes_white_space_at_both_ends_only() {
    for text in [
        "", " ", "a", "  a b\t", "\u{3000}hé llo\u{a0}\n", "\n\n", "no edges", "\u{200b}x", "x\u{85}",
    ] {
        assert_eq!(trim(text), text.trim());
        assert_eq!(trim(trim(text)), trim(text));
        assert_eq!(is_blank(text), text.trim().is_empty());
    }
}

#[test]
fn numerals_are_decimal() {
    for n in [0, 7, 10, 99, 100, 1234567890, u64::MAX] {
        assert_eq!(to_decimal(n), n.to_string());
    }
    assert_ne!(to_decimal(1), to_decimal(11));
}

#[test]
fn texts_are_compared_and_joined_whole() {
    assert!(same_text("60db", "60db"));
    assert!(!same_text("60db", "60DB"));
    assert!(!same_text("60db", "60d"));
    assert_eq!(joined("ctx-", "1"), "ctx-1");
    assert_eq!(joined("", "ü"), "ü");
}
