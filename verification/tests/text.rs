use cbqn::text::{
    char_from_codepoint, chars_from_codepoints, is_valid_namespace_field, string_from_codepoints,
};

#[test]
fn scalar_values_are_characters() {
    assert_eq!(char_from_codepoint(0), Some('\0'));
    assert_eq!(char_from_codepoint(104), Some('h'));
    assert_eq!(char_from_codepoint(0xd7ff), Some('\u{d7ff}'));
    assert_eq!(char_from_codepoint(0xd800), None);
    assert_eq!(char_from_codepoint(0xdfff), None);
    assert_eq!(char_from_codepoint(0xe000), Some('\u{e000}'));
    assert_eq!(char_from_codepoint(0x1f4a3), Some('💣'));
    assert_eq!(char_from_codepoint(0x10ffff), Some('\u{10ffff}'));
    assert_eq!(char_from_codepoint(0x110000), None);
    assert_eq!(char_from_codepoint(u32::MAX), None);
}

#[test]
fn code_points_are_decoded_in_order() {
    assert_eq!(chars_from_codepoints(&vec![]), Vec::<char>::new());
    assert_eq!(chars_from_codepoints(&vec![104, 105]), vec!['h', 'i']);
    assert_eq!(chars_from_codepoints(&vec![0xd800, 104, 0x110000, 0x2218, 0xdfff]), vec!['h', '∘']);
    assert_eq!(chars_from_codepoints(&vec![0xd800, 0xdbff]), Vec::<char>::new());

    assert_eq!(string_from_codepoints(&vec![]), "");
    assert_eq!(string_from_codepoints(&vec![104, 105]), "hi");
    assert_eq!(string_from_codepoints(&vec![0xd800, 104, 0x110000, 0x2218, 0xdfff]), "h∘");
    assert_eq!(string_from_codepoints(&vec![0x1f4a3; 3]), "💣💣💣");
}

#[test]
fn text_survives_encoding_and_decoding() {
    for s in ["", "hello", "hello∘", "hello💣", "\u{0}\u{d7ff}\u{e000}\u{10ffff}"] {
        let codes: Vec<u32> = s.chars().map(|c| c as u32).collect();
        assert_eq!(string_from_codepoints(&codes), s);
        assert_eq!(chars_from_codepoints(&codes), s.chars().collect::<Vec<char>>());
    }
}

#[test]
fn field_names_are_lowercase_without_underscores() {
    for name in ["", "a", "b", "c", "test", "inc", "abcxyz", "ß", "δ", "ab\u{aa}"] {
        assert!(is_valid_namespace_field(name), "{:?}", name);
    }
    for name in [
        "A", "B", "Inc", "inC", "TEST", "_", "a_b", "_a", "a_", "a b", "a1", "7", "a-b", "Δ", "中",
        "a\u{0}", "a.b", "`", "{", "@", "[",
    ] {
        assert!(!is_valid_namespace_field(name), "{:?}", name);
    }
}
