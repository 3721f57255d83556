use aquachain_gateway::text::{
    decimal_text, is_blank, is_whitespace, parse_u16, strip_end_text, trim_text,
};

#[test]
fn trimming_matches_str_trim() {
    for s in ["", "  ", " a b ", "\u{85}x\u{2028}", "\u{200b}x", "\u{feff} y", "\r\n\tz\x0b\x0c"] {
        assert_eq!(trim_text(s), s.trim(), "{:?}", s);
        assert_eq!(is_blank(s), s.trim().is_empty(), "{:?}", s);
    }
}

#[test]
fn decimal_and_port_round_trip() {
    for n in [0u64, 7, 10, 8081, 65535, u64::MAX] {
        assert_eq!(decimal_text(n), n.to_string());
    }
    for p in [0u16, 1, 80, 8081, 65535] {
        assert_eq!(parse_u16(&decimal_text(p as u64)), Some(p));
    }
    for s in ["", "+", "-0", "65536", "1 ", "+65535", "000000000000000080", "99999999999999999999"] {
        assert_eq!(parse_u16(s), s.parse::<u16>().ok(), "{:?}", s);
    }
}

#[test]
fn trailing_slashes_are_stripped() {
    assert_eq!(strip_end_text("http://h///", '/'), "http://h");
    assert_eq!(strip_end_text("///", '/'), "");
    assert_eq!(strip_end_text("a/b", '/'), "a/b");
}

#[test]
fn whitespace_set_matches_char_is_whitespace() {
    for c in (0u32..=0x10ffff).filter_map(char::from_u32) {
        assert_eq!(is_whitespace(c), c.is_whitespace(), "{:?}", c);
    }
}
