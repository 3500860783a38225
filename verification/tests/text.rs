use creator_studio::text::{
    chars_of, i32_to_text, is_blank, parse_u64, same_text, split_lines, trim, u64_to_text,
};

fn lines_of(s: &str) -> Vec<String> {
    split_lines(&chars_of(s)).into_iter().map(|l| l.into_iter().collect()).collect()
}

#[test]
fn trim_matches_std() {
    for s in ["", "  ", " a b ", "\t\nx\u{3000}", "\u{a0}y\u{2009}", "z"] {
        assert_eq!(trim(s), s.trim());
    }
}

#[test]
fn blank_is_empty_after_trim() {
    assert!(is_blank(" \n\t"));
    assert!(!is_blank(" x "));
}

#[test]
fn lines_match_std() {
    for s in ["", "\n", "a", "a\n", "a\r\nb", "a\n\nb\n", "a\r", "x\ny\r\n"] {
        let expected: Vec<String> = s.lines().map(|l| l.to_string()).collect();
        assert_eq!(lines_of(s), expected, "{:?}", s);
    }
}

#[test]
fn decimal_text() {
    assert_eq!(u64_to_text(0), "0");
    assert_eq!(u64_to_text(1700000000), "1700000000");
    assert_eq!(u64_to_text(u64::MAX), u64::MAX.to_string());
    assert_eq!(i32_to_text(-1), "-1");
    assert_eq!(i32_to_text(i32::MIN), i32::MIN.to_string());
    assert_eq!(i32_to_text(42), "42");
}

#[test]
fn parse_matches_std() {
    for s in ["", "+", "-", "0", "+7", "-7", "12x", "007", "18446744073709551615", "18446744073709551616", " 5"] {
        assert_eq!(parse_u64(s), s.parse::<u64>().ok(), "{:?}", s);
    }
}

#[test]
fn same_text_compares_characters() {
    assert!(same_text("abc", "abc"));
    assert!(!same_text("abc", "abd"));
    assert!(!same_text("abc", "ab"));
}
