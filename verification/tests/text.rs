use litehook::text::{chars_of, find, is_whitespace_char, occurs, remove_all, starts_with, string_of, trim};

#[test]
fn trim_strips_unicode_whitespace() {
    assert_eq!(trim(" \t\u{a0}5.7K \u{3000}\n"), "5.7K");
    assert_eq!(trim("   "), "");
    assert_eq!(trim(""), "");
    assert_eq!(trim("a b"), "a b");
    assert_eq!(trim("\r\n 10.0.0.1:1080\r"), "10.0.0.1:1080");
}

#[test]
fn trim_agrees_with_std_on_every_whitespace_char() {
    for code in 0u32..0x3100 {
        if let Some(c) = char::from_u32(code) {
            assert_eq!(is_whitespace_char(c), c.is_whitespace(), "U+{:04X}", code);
            let text = format!("{}x{}", c, c);
            assert_eq!(trim(&text), text.trim());
        }
    }
}

#[test]
fn remove_all_takes_every_occurrence() {
    assert_eq!(remove_all("@durov@", "@"), "durov");
    assert_eq!(remove_all("aaa", "aa"), "a");
    assert_eq!(remove_all("abc", ""), "abc");
    assert_eq!(remove_all("ab", "abc"), "ab");
    assert_eq!(remove_all("\u{1f44d}5.7K", "\u{1f44d}"), "5.7K");
    assert_eq!(remove_all("xyxyx", "xyx"), "yx");
}

#[test]
fn remove_all_agrees_with_std_replace() {
    let texts = ["", "a", "aa", "aba", "abab", "ababa", "unknown 12", "12"];
    let patterns = ["", "a", "ab", "aba", "unknown", "b"];
    for text in texts {
        for pattern in patterns {
            assert_eq!(remove_all(text, pattern), text.replace(pattern, ""));
        }
    }
}

#[test]
fn starts_with_prefix() {
    assert!(starts_with("https://t.me/s/news", "https://t.me/s/"));
    assert!(starts_with("https://t.me/s/", "https://t.me/s/"));
    assert!(!starts_with("https://t.me/news", "https://t.me/s/"));
    assert!(!starts_with("https://t.me/s", "https://t.me/s/"));
    assert!(starts_with("anything", ""));
}

#[test]
fn find_gives_the_first_index_from_a_position() {
    let text = chars_of("a-b-c");
    let dash = chars_of("-");
    assert_eq!(find(&text, &dash, 0), Some(1));
    assert_eq!(find(&text, &dash, 2), Some(3));
    assert_eq!(find(&text, &dash, 4), None);
    assert_eq!(find(&text, &chars_of("a-b-c-"), 0), None);
    assert_eq!(find(&text, &chars_of(""), 5), Some(5));
    assert_eq!(find(&text, &chars_of(""), 6), None);
    assert!(occurs(&text, &chars_of("b-c"), 2));
    assert!(!occurs(&text, &chars_of("b-c"), 3));
}

#[test]
fn chars_and_strings_round_trip() {
    let chars = chars_of("h\u{e9}llo");
    assert_eq!(chars, vec!['h', '\u{e9}', 'l', 'l', 'o']);
    assert_eq!(string_of(&chars, 1, 4), "\u{e9}ll");
    assert_eq!(string_of(&chars, 2, 2), "");
}
