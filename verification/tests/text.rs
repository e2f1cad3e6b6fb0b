//! Character classes and small string operations, against the standard library.

use dqn::keys::lower_case;
use dqn::text::{
    characters, decimal_text, ends_with, is_alphanumeric, is_blank, is_control, is_white_space,
    position, same, starts_with, text_after_last, trim,
};

fn all_chars() -> impl Iterator<Item = char> {
    (0..=0x10ffffu32).filter_map(char::from_u32)
}

#[test]
fn white_space_is_what_the_standard_library_says() {
    for c in all_chars() {
        assert_eq!(is_white_space(c), c.is_whitespace(), "{:x}", c as u32);
    }
}

#[test]
fn control_characters_are_what_the_standard_library_says() {
    for c in all_chars() {
        assert_eq!(is_control(c), c.is_control(), "{:x}", c as u32);
    }
}

#[test]
fn ascii_letters_and_digits_are_what_the_standard_library_says() {
    for c in all_chars() {
        assert_eq!(is_alphanumeric(c), c.is_ascii_alphanumeric(), "{:x}", c as u32);
        assert_eq!(lower_case(c), c.to_ascii_lowercase(), "{:x}", c as u32);
    }
}

#[test]
fn trimming_drops_white_space_at_both_ends() {
    for s in ["", " ", "\u{3000}\t", " a b ", "a", " 周杰伦\n", "\u{a0}x\u{2029}", "x  y"] {
        assert_eq!(trim(s), s.trim());
        assert_eq!(is_blank(s), s.trim().is_empty());
        assert_eq!(trim(&trim(s)), s.trim());
    }
}

#[test]
fn numbers_are_written_in_decimal() {
    for n in [0, 1, 9, 10, 42, 99, 100, 1_000_000, u64::MAX] {
        assert_eq!(decimal_text(n), n.to_string());
    }
}

#[test]
fn strings_are_searched_by_character() {
    assert_eq!(characters("歌a"), vec!['歌', 'a']);
    assert!(same("歌", "歌") && !same("歌", "歌 "));
    assert!(starts_with("歌曲", "歌") && starts_with("a", "") && !starts_with("a", "ab"));
    assert!(ends_with("歌曲", "曲") && ends_with("a", "") && !ends_with("a", "ba"));
    assert_eq!(position("歌,曲,", ','), 1);
    assert_eq!(position("歌曲", ','), 2);
    assert_eq!(text_after_last("a.b.歌", '.'), Some("歌".to_owned()));
    assert_eq!(text_after_last("a.", '.'), Some(String::new()));
    assert_eq!(text_after_last("a", '.'), None);
}
