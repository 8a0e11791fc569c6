use aclaude::text::{
    chars_of, contains_chars, decimal_chars, join_chars, signed_decimal_chars, split_chars,
    split_lines, split_words, to_lowercase, trim_chars, trim_end_newline_chars, utf8_length,
};

fn s(cs: &[char]) -> String {
    cs.iter().collect()
}

#[test]
fn trimming_matches_str_trim() {
    for t in ["  a b \n", "\u{3000}x\u{85}", "", "   ", "abc"] {
        assert_eq!(s(&trim_chars(&chars_of(t))), t.trim());
    }
    assert_eq!(s(&trim_end_newline_chars(&chars_of("x\n\n"))), "x");
}

#[test]
fn lines_and_words_match_std() {
    for t in ["a\nb", "a\r\nb\r\n", "", "\n", "x\r", "a\n\nb\n"] {
        let got: Vec<String> = split_lines(&chars_of(t)).iter().map(|l| s(l)).collect();
        let want: Vec<String> = t.lines().map(|l| l.to_string()).collect();
        assert_eq!(got, want, "lines of {t:?}");
    }
    for t in ["  a  b\tc\n", "", "one", " \u{a0}x "] {
        let got: Vec<String> = split_words(&chars_of(t)).iter().map(|l| s(l)).collect();
        let want: Vec<String> = t.split_whitespace().map(|l| l.to_string()).collect();
        assert_eq!(got, want);
    }
    let pieces: Vec<String> = split_chars(&chars_of("a/b//c"), '/').iter().map(|l| s(l)).collect();
    assert_eq!(pieces, vec!["a", "b", "", "c"]);
}

#[test]
fn numbers_and_search() {
    assert_eq!(s(&decimal_chars(0)), "0");
    assert_eq!(s(&decimal_chars(1234567890)), "1234567890");
    assert_eq!(s(&signed_decimal_chars(-42)), "-42");
    assert_eq!(s(&signed_decimal_chars(i64::MIN)), i64::MIN.to_string());
    assert!(contains_chars(&chars_of("xterm-kitty"), &chars_of("kitty")));
    assert!(!contains_chars(&chars_of("kitt"), &chars_of("kitty")));
    let parts = vec![chars_of("a"), chars_of("b")];
    assert_eq!(s(&join_chars(&parts, &chars_of("\n"))), "a\nb");
    assert_eq!(utf8_length(&chars_of("aé🔍")), "aé🔍".len() as u128);
    assert_eq!(to_lowercase("WezTerm"), "wezterm");
}
