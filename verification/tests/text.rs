use j2v::text::{chars_of, contains_chars, first_token_chars, string_from_chars, trim_chars, trim_str};

#[test]
fn trim_matches_std() {
    for s in ["", "  ", " a ", "\u{3000}日本語\u{3000}", "\t\nx y\r\n", "abc", "\u{a0}z\u{2028}"] {
        assert_eq!(trim_str(s), s.trim());
        assert_eq!(trim_chars(&chars_of(s)), s.trim().chars().collect::<Vec<char>>());
    }
}

#[test]
fn string_round_trip() {
    let s = "こんにちは, world";
    assert_eq!(string_from_chars(&chars_of(s)), s);
}

#[test]
fn first_token_and_contains() {
    assert_eq!(first_token_chars(&chars_of("  ab cd")), Some(vec!['a', 'b']));
    assert_eq!(first_token_chars(&chars_of(" \t ")), None);
    assert!(contains_chars(&chars_of("stereo mix (realtek)"), &chars_of("stereo mix")));
    assert!(!contains_chars(&chars_of("stereo"), &chars_of("stereo mix")));
    assert!(contains_chars(&chars_of("abc"), &chars_of("")));
}

#[test]
fn white_space_matches_std_for_every_char() {
    for u in 0u32..=0x10FFFF {
        if let Some(c) = char::from_u32(u) {
            let s = c.to_string();
            assert_eq!(trim_str(&s), s.trim(), "U+{u:04X}");
        }
    }
}
