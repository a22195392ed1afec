use saad_agent::text::{
    chars_of, decimal_string, join_strings, parse_usize, push_hex_fixed, split_lines, starts_with,
    str_eq, trim_str,
};

#[test]
fn trim_removes_unicode_white_space() {
    assert_eq!(trim_str("  hello \t\n"), "hello");
    assert_eq!(trim_str("\u{3000}中文\u{a0}"), "中文");
    assert_eq!(trim_str("   "), "");
    assert_eq!(trim_str("a b"), "a b");
}

#[test]
fn parse_usize_follows_std() {
    assert_eq!(parse_usize("123"), Some(123));
    assert_eq!(parse_usize("+7"), Some(7));
    assert_eq!(parse_usize("0"), Some(0));
    assert_eq!(parse_usize(""), None);
    assert_eq!(parse_usize("+"), None);
    assert_eq!(parse_usize("-1"), None);
    assert_eq!(parse_usize(" 1"), None);
    assert_eq!(parse_usize("12a"), None);
    assert_eq!(parse_usize("99999999999999999999999"), None);
    for s in ["42", "+42", "-0", "007", "18446744073709551615", "18446744073709551616", "x"] {
        assert_eq!(parse_usize(s), s.parse::<usize>().ok(), "input {s}");
    }
}

#[test]
fn decimal_rendering() {
    assert_eq!(decimal_string(0), "0");
    assert_eq!(decimal_string(4000), "4000");
    assert_eq!(decimal_string(usize::MAX), usize::MAX.to_string());
}

#[test]
fn hex_rendering_has_eight_digits() {
    let mut s = String::new();
    push_hex_fixed(&mut s, 0xbeef, 8);
    assert_eq!(s, "0000beef");
    let mut t = String::new();
    push_hex_fixed(&mut t, u32::MAX, 8);
    assert_eq!(t, "ffffffff");
}

#[test]
fn lines_match_std_lines() {
    for s in ["", "a", "a\n", "a\r\nb", "a\n\nb\n", "\n", "x\r", "a\rb\n", "end\r\n"] {
        let mine = split_lines(s);
        let std: Vec<String> = s.lines().map(|l| l.to_string()).collect();
        assert_eq!(mine, std, "input {s:?}");
    }
}

#[test]
fn join_and_compare() {
    let parts = vec!["a".to_string(), "b".to_string(), "c".to_string()];
    assert_eq!(join_strings(&parts, ", "), "a, b, c");
    assert_eq!(join_strings(&Vec::new(), ", "), "");
    assert!(str_eq("中文", "中文"));
    assert!(!str_eq("a", "ab"));
    assert!(starts_with("/effort high", "/effort"));
    assert!(!starts_with("/eff", "/effort"));
    assert_eq!(chars_of("añ"), vec!['a', 'ñ']);
}

#[test]
fn white_space_matches_std_for_every_char() {
    for c in (0u32..=0x10FFFF).filter_map(char::from_u32) {
        assert_eq!(saad_agent::text::is_whitespace(c), c.is_whitespace(), "char {:x}", c as u32);
    }
}

#[test]
fn trim_matches_std() {
    for s in ["", " ", "\u{85}x\u{2029}", "\u{200b}x", "\t a b \r\n", "\u{feff}x"] {
        assert_eq!(trim_str(s), s.trim(), "input {s:?}");
    }
}
