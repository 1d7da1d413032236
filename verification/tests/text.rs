use scout_schedule::text::{parse_decimal, trim, white_space};

#[test]
fn trim_removes_outer_white_space_only() {
    assert_eq!(trim("  a b \n"), "a b");
    assert_eq!(trim("\u{3000}東京 店\u{3000}"), "東京 店");
    assert_eq!(trim(""), "");
    assert_eq!(trim(" \t\r\n"), "");
    assert_eq!(trim("x"), "x");
}

#[test]
fn trim_agrees_with_the_standard_library() {
    for s in ["", " ", "a", " a", "a ", "\n\ta b\u{a0}", "\u{2003}x\u{2003}y\u{2003}", "\u{200b}z "] {
        assert_eq!(trim(s), s.trim());
    }
}

#[test]
fn white_space_agrees_with_the_standard_library_on_every_character() {
    for n in 0u32..=0x10FFFF {
        if let Some(c) = char::from_u32(n) {
            assert_eq!(white_space(c), c.is_whitespace(), "U+{:04X}", n);
        }
    }
}

#[test]
fn parse_decimal_reads_digits() {
    assert_eq!(parse_decimal("0"), Some(0));
    assert_eq!(parse_decimal("2024"), Some(2024));
    assert_eq!(parse_decimal("007"), Some(7));
    assert_eq!(parse_decimal("4294967295"), Some(u32::MAX));
}

#[test]
fn parse_decimal_refuses_what_is_no_number() {
    assert_eq!(parse_decimal(""), None);
    assert_eq!(parse_decimal("12a"), None);
    assert_eq!(parse_decimal("-1"), None);
    assert_eq!(parse_decimal(" 1"), None);
    assert_eq!(parse_decimal("１２"), None);
}

#[test]
fn parse_decimal_refuses_what_does_not_fit() {
    assert_eq!(parse_decimal("4294967296"), None);
    assert_eq!(parse_decimal("99999999999999999999999999"), None);
}
