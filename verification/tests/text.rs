use accretion::text::{
    char_is_white_space, char_utf8_width, push_decimal, push_str, str_eq, trim,
    truncate_to_bytes, utf8_byte_len,
};

fn text(v: &[char]) -> String {
    v.iter().collect()
}

#[test]
fn decimal_numerals() {
    let mut out = Vec::new();
    push_decimal(&mut out, 0);
    push_str(&mut out, " ");
    push_decimal(&mut out, 1_234_567_890_123);
    push_str(&mut out, " ");
    push_decimal(&mut out, u64::MAX);
    assert_eq!(text(&out), format!("0 1234567890123 {}", u64::MAX));
}

#[test]
fn utf8_widths_match_std() {
    for c in ['a', '\u{7f}', '\u{80}', 'é', '\u{7ff}', '\u{800}', '€', '\u{ffff}', '\u{10000}', '🚀'] {
        assert_eq!(char_utf8_width(c), c.len_utf8());
    }
    let s: Vec<char> = "Rock🚀é".chars().collect();
    assert_eq!(utf8_byte_len(&s), "Rock🚀é".len());
}

#[test]
fn truncation_keeps_whole_characters() {
    let mut s: Vec<char> = "abcé".chars().collect();
    truncate_to_bytes(&mut s, 5);
    assert_eq!(text(&s), "abcé");
    truncate_to_bytes(&mut s, 4);
    assert_eq!(text(&s), "abc");
    truncate_to_bytes(&mut s, 0);
    assert!(s.is_empty());
}

#[test]
fn whitespace_matches_std() {
    for v in 0u32..0x3100 {
        if let Some(c) = char::from_u32(v) {
            assert_eq!(char_is_white_space(c), c.is_whitespace(), "U+{v:04X}");
        }
    }
}

#[test]
fn trim_matches_std() {
    for s in ["  a b  ", "\t\n", "", "x", " \u{2003}mid\u{205F} ", "\u{85}end"] {
        let v: Vec<char> = s.chars().collect();
        assert_eq!(text(&trim(&v)), s.trim());
    }
}

#[test]
fn string_equality() {
    assert!(str_eq("yes", "yes"));
    assert!(!str_eq("yes", "YES"));
    assert!(!str_eq("yes", "ye"));
    assert!(str_eq("", ""));
}
