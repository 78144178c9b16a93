use aa_proxy::text::{
    debug_list, decimal_text, eq_ignore_ascii_case, hex_text, join, lines, parse_number,
    replace, split, split_whitespace, starts_with, strip_prefix, to_ascii_lowercase, trim,
};

#[test]
fn text_is_trimmed_like_std() {
    for s in ["", " a ", "\t\n", "a b", "\u{2003}x\u{3000}", "\u{85}y"] {
        assert_eq!(trim(s), s.trim());
    }
}

#[test]
fn text_is_cut_like_std() {
    for s in ["", "a", "a\n", "a\nb", "a\r\nb\r\n", "\n\n", "a\rb"] {
        let expected: Vec<&str> = s.lines().collect();
        assert_eq!(lines(s), expected);
    }
    for s in ["", ",", "a,b", ",a,"] {
        let expected: Vec<&str> = s.split(',').collect();
        assert_eq!(split(s, ','), expected);
    }
    for s in ["", " a  b\tc ", "x"] {
        let expected: Vec<&str> = s.split_whitespace().collect();
        assert_eq!(split_whitespace(s), expected);
    }
}

#[test]
fn text_is_replaced_like_std() {
    for (s, a, b) in [("aaa", "aa", "b"), ("a{x}b{x}", "{x}", ""), ("é'é", "'", "''")] {
        assert_eq!(replace(s, a, b), s.replace(a, b));
    }
}

#[test]
fn numbers_are_read_and_written() {
    assert_eq!(decimal_text(0), "0");
    assert_eq!(decimal_text(u64::MAX), "18446744073709551615");
    assert_eq!(hex_text(0x2a, 4), "002a");
    assert_eq!(parse_number("36", 10, 255), Some(36));
    assert_eq!(parse_number("+36", 10, 255), Some(36));
    assert_eq!(parse_number("256", 10, 255), None);
    assert_eq!(parse_number("", 10, 255), None);
    assert_eq!(parse_number("-1", 10, 255), None);
    assert_eq!(parse_number("ff", 16, 255), Some(255));
}

#[test]
fn lists_are_shown_like_debug() {
    let list = vec!["a\"b".to_string(), "c\n".to_string()];
    assert_eq!(debug_list(&list), format!("{:?}", list));
    assert_eq!(join(&list, ", "), list.join(", "));
}

#[test]
fn text_is_compared() {
    assert_eq!(to_ascii_lowercase("AbÉ"), "abÉ");
    assert!(eq_ignore_ascii_case("FAIL", "fail"));
    assert!(starts_with("wlan0", "wl") && !starts_with("w", "wl"));
    assert_eq!(strip_prefix("SSID: x", "SSID:"), Some(" x"));
    assert_eq!(strip_prefix("x", "SSID:"), None);
}
