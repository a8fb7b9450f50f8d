use code_voice::text::{is_whitespace, split_str, str_eq, trim_str};

#[test]
fn whitespace_matches_std() {
    for c in ['\t', '\n', '\u{b}', '\u{c}', '\r', ' ', '\u{85}', '\u{a0}', '\u{1680}', '\u{2000}', '\u{200a}', '\u{2028}', '\u{2029}', '\u{202f}', '\u{205f}', '\u{3000}', 'a', '\u{200b}', '\u{180e}', '\u{feff}', '_'] {
        assert_eq!(is_whitespace(c), c.is_whitespace(), "{:?}", c);
    }
}

#[test]
fn trim_matches_std() {
    for s in ["", "   ", " a ", "\t a b \n", "a", "\u{3000}x\u{a0}", "é  "] {
        assert_eq!(trim_str(s), s.trim());
        assert_eq!(trim_str(trim_str(s)), trim_str(s));
    }
}

#[test]
fn split_matches_std() {
    for s in ["", "+", "a+b", "ctrl++x", "+a+", "no plus"] {
        let expected: Vec<&str> = s.split('+').collect();
        assert_eq!(split_str(s, '+'), expected);
    }
}

#[test]
fn string_equality() {
    assert!(str_eq("space", "space"));
    assert!(!str_eq("space", "spade"));
    assert!(!str_eq("a", "ab"));
    assert!(str_eq("", ""));
}
