use malina::text::{decimal_string, format_quoted, is_blank, lines, trim};

#[test]
fn quoted_lists() {
    assert_eq!(format_quoted(&[]), "(none)");
    assert_eq!(format_quoted(&["apt"]), "`apt`");
    assert_eq!(format_quoted(&["apt", "nix"]), "`apt` or `nix`");
    assert_eq!(format_quoted(&["a", "b", "c"]), "`a`, `b` or `c`");
}

#[test]
fn lines_split_like_str_lines() {
    for text in ["", "a", "a\n", "a\nb", "a\r\nb\r\n", "\n\n", "x\ry", "a\r", "\r\n"] {
        let expected: Vec<String> = text.lines().map(|l| l.to_owned()).collect();
        assert_eq!(lines(text), expected, "lines of {:?}", text);
    }
}

#[test]
fn trimming() {
    assert_eq!(trim("  analyst \t"), "analyst");
    assert!(is_blank(" \n\t "));
    assert!(!is_blank(" a "));
}

#[test]
fn decimal_numerals() {
    assert_eq!(decimal_string(0), "0");
    assert_eq!(decimal_string(67108864), "67108864");
    assert_eq!(decimal_string(u64::MAX), u64::MAX.to_string());
}

#[test]
fn unicode_white_space_is_trimmed() {
    assert_eq!(trim("\u{3000}\u{85}x y\u{2009}\u{a0}"), "x y");
    assert!(is_blank("\u{1680}\u{202f}\t"));
    assert!(!is_blank("\u{200b}"));
}

#[test]
fn white_space_is_the_unicode_property() {
    for c in (0u32..0x11000).filter_map(char::from_u32) {
        assert_eq!(is_blank(&c.to_string()), c.is_whitespace(), "{:?}", c);
    }
}
