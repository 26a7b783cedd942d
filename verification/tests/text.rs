use avernus::text::{
    after_first_char, after_last_char, before_first_char, chars_of, contains, contains_char,
    first_char_of, is_white_space, joined, same_text, shorten, starts_with, starts_with_char, trim,
    trim_end_matches_char, trim_start_matches,
};

#[test]
fn white_space_is_that_of_char() {
    for code in 0..=0x10_ffffu32 {
        if let Some(c) = char::from_u32(code) {
            assert_eq!(is_white_space(c), c.is_whitespace(), "{code:x}");
        }
    }
}

#[test]
fn trimming_agrees_with_str() {
    for text in ["", " ", "a", " a ", "\u{3000}a b\t\n", "\u{200b}a", "  \u{85}"] {
        assert_eq!(trim(text), text.trim());
    }
}

#[test]
fn prefixes_come_off_as_often_as_they_stand() {
    assert_eq!(trim_start_matches("ababc", "ab"), "c");
    assert_eq!(trim_start_matches("bab", "ab"), "bab");
    assert_eq!(trim_start_matches("https://https://x", "https://"), "x");
    assert_eq!(trim_start_matches("abc", ""), "abc");
    assert_eq!(trim_end_matches_char("x///", '/'), "x");
    assert_eq!(trim_end_matches_char("///", '/'), "");
    assert!(starts_with("abc", "ab"));
    assert!(starts_with("abc", ""));
    assert!(!starts_with("a", "ab"));
    assert!(starts_with_char("#a", '#'));
    assert!(!starts_with_char("", '#'));
}

#[test]
fn searching_agrees_with_str() {
    for (text, part) in [("hello", "ll"), ("hello", ""), ("", "x"), ("aab", "ab"), ("abc", "abd")] {
        assert_eq!(contains(text, part), text.contains(part));
    }
    assert!(contains_char("a:b", ':'));
    assert!(!contains_char("ab", ':'));
    assert_eq!(after_last_char("a#b#c", '#'), "c");
    assert_eq!(after_last_char("abc", '#'), "abc");
    assert_eq!(after_last_char("abc#", '#'), "");
    assert_eq!(first_char_of("ab:c:d", ':'), 2);
    assert_eq!(first_char_of("ab", ':'), 2);
    assert_eq!(before_first_char("ab:c:d", ':'), "ab");
    assert_eq!(after_first_char("ab:c:d", ':'), "c:d");
    assert_eq!(after_first_char("ab", ':'), "");
}

#[test]
fn texts_are_compared_and_joined() {
    assert!(same_text("a", "a"));
    assert!(!same_text("a", "b"));
    assert_eq!(joined("a", "b"), "ab");
    assert_eq!(chars_of("aé🦊"), vec!['a', 'é', '🦊']);
}

#[test]
fn ids_are_shortened_to_twelve_bytes() {
    assert_eq!(shorten("!room:a.org"), Some("!room:a.org".to_string()));
    assert_eq!(shorten("!room:ab.org"), Some("!room:ab.org".to_string()));
    assert_eq!(shorten("!room:abc.org"), Some("!room:abc.or...".to_string()));
    assert_eq!(shorten("ééééééé"), Some("éééééé...".to_string()));
}

#[test]
fn an_id_is_not_cut_within_a_character() {
    assert_eq!(shorten("!ééééééé"), None);
    assert!(!"!ééééééé".is_char_boundary(12));
    assert_eq!(shorten("!ééééé"), Some("!ééééé".to_string()));
}
