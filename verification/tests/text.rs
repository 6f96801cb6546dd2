use flamingo_agent::text::{
    decimal_string, radix_string, same_text, trim, white_space, zero_padded_string,
};

#[test]
fn white_space_is_the_unicode_property() {
    for c in '\0'..=char::MAX {
        assert_eq!(white_space(c), c.is_whitespace(), "{c:?}");
    }
}

#[test]
fn trimming_cuts_both_ends_only() {
    for text in ["", " ", "a", " a b ", "\t\r\n x\u{3000}y \u{85}", "\u{200b}z"] {
        assert_eq!(trim(text), text.trim());
    }
}

#[test]
fn numbers_are_written_as_the_standard_library_does() {
    for n in [0, 9, 10, 99, 100, 4096, u64::MAX] {
        assert_eq!(decimal_string(n), n.to_string());
        assert_eq!(radix_string(n, 8), format!("{n:o}"));
        assert_eq!(radix_string(n, 2), format!("{n:b}"));
    }
    assert_eq!(zero_padded_string("7", 4), "0007");
    assert_eq!(zero_padded_string("12345", 4), "12345");
}

#[test]
fn texts_are_compared_character_by_character() {
    assert!(same_text("abc", "abc"));
    assert!(same_text("", ""));
    assert!(!same_text("abc", "abd"));
    assert!(!same_text("abc", "ab"));
}
