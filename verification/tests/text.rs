use shortcut::text::{collect, decode, to_ascii_lower, trim, white_space};

#[test]
fn decode_gives_the_characters_in_order() {
    assert_eq!(decode("a{é}"), vec!['a', '{', 'é', '}']);
    assert_eq!(decode(""), Vec::<char>::new());
}

#[test]
fn collect_takes_the_range() {
    let chars = vec!['a', 'é', 'c', 'd'];
    assert_eq!(collect(&chars, 1, 3), "éc");
    assert_eq!(collect(&chars, 0, 4), "aécd");
    assert_eq!(collect(&chars, 2, 2), "");
}

#[test]
fn white_space_is_the_unicode_property() {
    for code in 0..=0x10ffffu32 {
        if let Some(c) = char::from_u32(code) {
            assert_eq!(white_space(c), c.is_whitespace(), "U+{:04X}", code);
        }
    }
}

#[test]
fn ascii_lower_maps_capital_letters_only() {
    assert_eq!(to_ascii_lower('A'), 'a');
    assert_eq!(to_ascii_lower('Z'), 'z');
    assert_eq!(to_ascii_lower('q'), 'q');
    assert_eq!(to_ascii_lower('É'), 'É');
    for code in 0..=0x10ffffu32 {
        if let Some(c) = char::from_u32(code) {
            assert_eq!(to_ascii_lower(c), c.to_ascii_lowercase(), "U+{:04X}", code);
        }
    }
}

#[test]
fn trim_removes_white_space_at_both_ends() {
    assert_eq!(trim("  firefox \t\n"), "firefox");
    assert_eq!(trim("git  log"), "git  log");
    assert_eq!(trim(" \u{a0}\u{3000}x y\u{2028}"), "x y");
    assert_eq!(trim(""), "");
    assert_eq!(trim(" \t "), "");
    assert_eq!(trim("é"), "é");
}

#[test]
fn trim_agrees_with_the_standard_library() {
    for s in ["", " ", "a", " a", "a ", " a b ", "\u{85}a\u{1680}", "\n\r\tx\u{200a}", "\u{200b}x "] {
        assert_eq!(trim(s), s.trim());
    }
}
