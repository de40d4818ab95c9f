use world_monitor::text::{is_white_space_char, trim_text};

#[test]
fn trims_unicode_white_space_at_both_ends() {
    assert_eq!(trim_text("\u{2028}a b\u{85}"), "a b");
    assert_eq!(trim_text(" \t\r\n x \u{3000}"), "x");
    assert_eq!(trim_text("inner  space"), "inner  space");
}

#[test]
fn blank_text_trims_to_nothing() {
    assert_eq!(trim_text(""), "");
    assert_eq!(trim_text(" \u{a0}\u{2000}\u{200a}\u{205f} "), "");
}

#[test]
fn white_space_agrees_with_std() {
    for c in ['\u{0}', 'a', '\u{8}', '\u{9}', '\u{d}', '\u{e}', ' ', '\u{85}', '\u{a0}', '\u{1680}',
        '\u{180e}', '\u{2000}', '\u{200a}', '\u{200b}', '\u{2028}', '\u{2029}', '\u{202f}',
        '\u{205f}', '\u{3000}', '\u{feff}']
    {
        assert_eq!(is_white_space_char(c), c.is_whitespace(), "{:?}", c);
    }
    for v in 0u32..0x3100 {
        if let Some(c) = char::from_u32(v) {
            assert_eq!(is_white_space_char(c), c.is_whitespace());
            let s = format!("{c}x{c}");
            assert_eq!(trim_text(&s), s.trim());
        }
    }
}
