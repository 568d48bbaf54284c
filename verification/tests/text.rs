use shuvgrok::text::{
    decimal_text, hex_text, parse_unsigned_text, same_ignoring_ascii_case, signed_decimal_text,
    split_once_text, strip_prefix_text, trim_text, whitespace,
};

#[test]
fn whitespace_is_unicode_whitespace() {
    for code in 0..=0x10FFFFu32 {
        if let Some(c) = char::from_u32(code) {
            assert_eq!(whitespace(c), c.is_whitespace(), "{code:#x}");
        }
    }
}

#[test]
fn trimming_is_that_of_std() {
    for s in ["", " ", "a", " a ", "\u{3000}é x\u{a0}\n", "\t\r\n"] {
        assert_eq!(trim_text(s), s.trim());
    }
}

#[test]
fn splitting_is_that_of_std() {
    for (s, sep) in [("a#b#c", "#"), ("abc", "#"), ("é;base64,x", ";base64,"), ("#", "#")] {
        assert_eq!(split_once_text(s, sep), s.split_once(sep));
        assert_eq!(strip_prefix_text(s, sep), s.strip_prefix(sep));
    }
    assert_eq!(strip_prefix_text("data:x", "data:"), Some("x"));
}

#[test]
fn numbers_are_written_as_by_std() {
    for n in [0, 9, 10, 53692, u64::MAX] {
        assert_eq!(decimal_text(n), n.to_string());
        assert_eq!(hex_text(n, 16), format!("{n:016x}"));
    }
    for n in [0, -1, 42, i64::MIN, i64::MAX] {
        assert_eq!(signed_decimal_text(n), n.to_string());
    }
}

#[test]
fn numbers_are_read_as_by_std() {
    for s in ["", "+", "+1", "-1", "00", "65535", "65536", "1x", " 1", "99999999999999999999"] {
        assert_eq!(
            parse_unsigned_text(s, 65535),
            s.parse::<u16>().ok().map(u64::from),
            "{s:?}"
        );
        assert_eq!(parse_unsigned_text(s, u64::MAX), s.parse::<u64>().ok(), "{s:?}");
    }
}

#[test]
fn ascii_case_is_ignored() {
    for (a, b) in [("sky", "SKY"), ("é", "É"), ("a", "ab"), ("", ""), ("[", "{")] {
        assert_eq!(same_ignoring_ascii_case(a, b), a.eq_ignore_ascii_case(b));
    }
}
