use protoncode::text::{
    chars_of, contains, is_whitespace, push_decimal, push_hex, replace_all, same_text, text_of,
    trim,
};

#[test]
fn white_space_is_that_of_unicode() {
    for value in 0..=0x10_ffffu32 {
        if let Some(c) = char::from_u32(value) {
            assert_eq!(is_whitespace(c), c.is_whitespace(), "{:x}", value);
        }
    }
}

#[test]
fn searching_agrees_with_the_standard_library() {
    for (text, pattern) in [
        ("", ""),
        ("abc", ""),
        ("abc", "abc"),
        ("aabaac", "aac"),
        ("abc", "abcd"),
        ("na\u{ef}ve", "\u{ef}v"),
        ("abab", "ba"),
        ("abc", "x"),
    ] {
        assert_eq!(contains(text, pattern), text.contains(pattern), "{} {}", text, pattern);
    }
}

#[test]
fn replacing_agrees_with_the_standard_library() {
    for (text, pattern, with) in [
        ("", "a", "b"),
        ("aaa", "aa", "b"),
        ("abcabc", "bc", ""),
        ("a\r\nb\r", "\r", "\n"),
        ("x", "xy", "z"),
        ("__M__ and __M__", "__M__", "__M__!"),
    ] {
        assert_eq!(replace_all(text, pattern, with), text.replace(pattern, with), "{}", text);
    }
}

#[test]
fn trimming_agrees_with_the_standard_library() {
    for text in ["", " ", "a", " a b \n", "\u{a0}\u{2003}x\t", "\u{85}y\u{3000}"] {
        assert_eq!(trim(text), text.trim(), "{:?}", text);
    }
}

#[test]
fn numbers_are_written() {
    for value in [0, 7, 10, 5000, 1_234_567_890, u64::MAX] {
        let mut out = String::from("n=");
        push_decimal(&mut out, value);
        assert_eq!(out, format!("n={value}"));
        let mut hex = String::from("h=");
        push_hex(&mut hex, value);
        assert_eq!(hex, format!("h={value:016x}"));
    }
}

#[test]
fn texts_are_taken_apart_and_compared() {
    assert_eq!(chars_of("h\u{e9}!"), vec!['h', '\u{e9}', '!']);
    assert_eq!(text_of(&vec!['a', 'b', 'c'], 1, 3), "bc");
    assert!(same_text("abc", "abc"));
    assert!(!same_text("abc", "abd"));
    assert!(!same_text("abc", "ab"));
}
