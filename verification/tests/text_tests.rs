use fogpub::email::parse_port;
use fogpub::pages::normalize_email;
use fogpub::text::{contains_char, same_text, trim};

#[test]
fn trim_matches_str_trim() {
    for s in ["", "  ", " a ", "\t\nab c\r\n", "\u{3000}x\u{2003}", "\u{a0}y\u{85}", "no-space", " x y "] {
        assert_eq!(trim(s), s.trim());
    }
}

#[test]
fn contains_char_matches_str_contains() {
    assert!(contains_char("a@b", '@'));
    assert!(!contains_char("ab", '@'));
    assert!(!contains_char("", '@'));
}

#[test]
fn same_text_compares() {
    assert!(same_text("console", "console"));
    assert!(!same_text("console", "Console"));
    assert!(!same_text("con", "console"));
}

#[test]
fn lowercase_uses_unicode() {
    assert_eq!(normalize_email("ÀBC@X"), "àbc@x");
    assert_eq!(normalize_email("İ"), "i\u{307}");
}

#[test]
fn normalize_trims_then_lowercases() {
    assert_eq!(normalize_email("  Ada@Example.COM \n"), "ada@example.com");
    assert_eq!(normalize_email(""), "");
}

#[test]
fn parse_port_matches_str_parse() {
    for s in ["25", "+587", "0", "65535", "65536", "", "+", "-1", " 25", "25 ", "2a5", "00025", "999999999999"] {
        assert_eq!(parse_port(s), s.parse::<u16>().ok(), "for {:?}", s);
    }
}
