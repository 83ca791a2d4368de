use wttrbar::icons::{is_known, parse_code, resolve, resolve_text, IconStyle};

const CODES: [i32; 60] = [
    113, 116, 119, 122, 143, 176, 179, 182, 185, 200, 227, 230, 248, 260, 263, 266, 281, 284, 293,
    296, 299, 302, 305, 308, 311, 314, 317, 320, 323, 326, 329, 332, 335, 338, 350, 353, 356, 359,
    362, 365, 368, 371, 374, 377, 386, 389, 392, 395, 398, 401, 404, 407, 410, 413, 416, 419, 422,
    425, 428, 431,
];

const STYLES: [IconStyle; 3] = [IconStyle::Emoji, IconStyle::Nerd, IconStyle::NerdNight];

#[test]
fn every_known_code_has_a_glyph_in_every_style() {
    for style in STYLES {
        for code in CODES {
            let glyph = resolve(code, style);
            assert!(!glyph.is_empty(), "code {} in {:?}", code, style);
            assert_ne!(glyph, "?", "code {} in {:?}", code, style);
            assert_eq!(style.lookup(code), Some(glyph));
        }
    }
}

#[test]
fn a_code_outside_the_tables_gets_the_fallback_glyph() {
    for style in STYLES {
        for code in [0, 1, 112, 114, 432, 999, -113, i32::MAX, i32::MIN] {
            assert_eq!(resolve(code, style), "?");
            assert_eq!(style.lookup(code), None);
        }
    }
}

#[test]
fn glyphs_of_the_tables() {
    assert_eq!(resolve(113, IconStyle::Emoji), "☀️");
    assert_eq!(resolve(116, IconStyle::Emoji), "🌤️");
    assert_eq!(resolve(182, IconStyle::Emoji), "🌧️");
    assert_eq!(resolve(200, IconStyle::Emoji), "🌩️");
    assert_eq!(resolve(431, IconStyle::Emoji), "🌨️");
    assert_eq!(resolve(113, IconStyle::Nerd), "\u{f0599}");
    assert_eq!(resolve(113, IconStyle::NerdNight), "\u{f0594}");
    assert_eq!(resolve(116, IconStyle::Nerd), "\u{f0595}");
    assert_eq!(resolve(116, IconStyle::NerdNight), "\u{f0f31}");
    assert_eq!(resolve(431, IconStyle::Nerd), "\u{f0597}");
}

#[test]
fn signs_of_each_style() {
    assert_eq!(IconStyle::Emoji.high(), "⬆️");
    assert_eq!(IconStyle::Emoji.low(), "⬇️");
    assert_eq!(IconStyle::Emoji.sunrise(), "🌅");
    assert_eq!(IconStyle::Emoji.sunset(), "🌇");
    for style in [IconStyle::Nerd, IconStyle::NerdNight] {
        assert_eq!(style.high(), "\u{f0ce1}");
        assert_eq!(style.low(), "\u{f0cdb}");
        assert_eq!(style.sunrise(), "\u{f059c}");
        assert_eq!(style.sunset(), "\u{f059b}");
    }
}

#[test]
fn codes_are_read_from_text() {
    assert_eq!(parse_code("113"), Some(113));
    assert_eq!(parse_code("+113"), Some(113));
    assert_eq!(parse_code("2147483647"), Some(i32::MAX));
    assert_eq!(parse_code("2147483648"), None);
    assert_eq!(parse_code(""), None);
    assert_eq!(parse_code("sunny"), None);
    assert_eq!(parse_code("-113"), None);
}

#[test]
fn glyphs_are_resolved_from_text() {
    assert_eq!(resolve_text("113", IconStyle::Emoji), "☀️");
    assert_eq!(resolve_text("389", IconStyle::Nerd), "\u{f067e}");
    assert_eq!(resolve_text("114", IconStyle::Emoji), "?");
    assert_eq!(resolve_text("", IconStyle::Emoji), "?");
    assert_eq!(resolve_text("cloudy", IconStyle::Nerd), "?");
    assert_eq!(resolve_text("99999999999", IconStyle::Emoji), "?");
}

#[test]
fn unknown_codes_are_told_apart() {
    for code in CODES {
        assert!(is_known(&code.to_string()));
    }
    assert!(!is_known("114"));
    assert!(!is_known(""));
    assert!(!is_known("x"));
}
