use nightingale::text::{
    chars_of, contains, find, is_blank, parse_u32, push_decimal, split_lines, trimmed,
};

#[test]
fn trimming_and_blank_text() {
    assert_eq!(trimmed("  a b \t\n"), "a b");
    assert_eq!(trimmed("\u{3000}x\u{a0}"), "x");
    assert!(is_blank(" \t\r\n"));
    assert!(!is_blank(" x "));
}

#[test]
fn lines_like_str_lines() {
    for s in ["a\nb", "a\r\nb\n", "\n\nx", "", "one", "x\r", "a\n\r\nb"] {
        let got = split_lines(&chars_of(s));
        let want: Vec<String> = s.lines().map(|l| l.to_string()).collect();
        assert_eq!(got, want, "lines of {s:?}");
    }
}

#[test]
fn numbers_like_u32_from_str() {
    for s in ["0", "42", "+7", "007", "4294967295", "4294967296", "", "+", "-1", "1a", " 1"] {
        let v = chars_of(s);
        assert_eq!(parse_u32(&v, 0, v.len()), s.parse::<u32>().ok(), "parse {s:?}");
    }
    let mut out = String::from("n=");
    push_decimal(&mut out, 1234567890123);
    assert_eq!(out, "n=1234567890123");
}

#[test]
fn searching_text() {
    assert!(contains("hello world", "o w"));
    assert!(contains("abc", ""));
    assert!(!contains("abc", "abcd"));
    assert_eq!(find(&chars_of("abcabc"), &chars_of("ca")), Some(2));
    assert_eq!(find(&chars_of("abc"), &chars_of("x")), None);
}
