use zoneclock::text::{is_space_char, trim};

#[test]
fn trim_keeps_a_text_without_white_space() {
    assert_eq!(trim("UTC"), "UTC");
    assert_eq!(trim("America/New_York"), "America/New_York");
}

#[test]
fn trim_cuts_both_ends() {
    assert_eq!(trim("  UTC  "), "UTC");
    assert_eq!(trim("\tEurope/London\n"), "Europe/London");
    assert_eq!(trim("UTC\r\n"), "UTC");
    assert_eq!(trim(" \u{a0}\u{3000}Asia/Tokyo\u{2028}"), "Asia/Tokyo");
}

#[test]
fn trim_keeps_white_space_inside() {
    assert_eq!(trim("  a b\tc  "), "a b\tc");
}

#[test]
fn trim_of_nothing_but_white_space_is_empty() {
    assert_eq!(trim(""), "");
    assert_eq!(trim(" "), "");
    assert_eq!(trim(" \t\r\n "), "");
}

#[test]
fn trim_counts_characters_not_bytes() {
    assert_eq!(trim(" \u{1f319}\u{e9} "), "\u{1f319}\u{e9}");
    assert_eq!(trim("\u{2003}z\u{fc}rich\u{2003}"), "z\u{fc}rich");
}

#[test]
fn trim_twice_is_trim_once() {
    for text in ["", " x ", "\n\n a  b \t", "plain", " \u{85}k\u{1680} "] {
        assert_eq!(trim(trim(text)), trim(text));
    }
}

#[test]
fn trim_agrees_with_the_standard_library() {
    for text in ["", " x ", "\n\n a  b \t", "plain", " \u{85}k\u{1680} ", "\u{200b}x\u{200b}", "\u{180e}y"] {
        assert_eq!(trim(text), text.trim());
    }
}

#[test]
fn white_space_is_the_unicode_property() {
    let mut count = 0;
    for code in 0..=0x10ffffu32 {
        if let Some(c) = char::from_u32(code) {
            assert_eq!(is_space_char(c), c.is_whitespace(), "U+{:04X}", code);
            if is_space_char(c) {
                count += 1;
            }
        }
    }
    assert_eq!(count, 25);
}
