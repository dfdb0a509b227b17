use spotiline::text::{chars_of, has_prefix, has_substring, split_chars, split_whitespace, same_text, trim_chars};

fn s(v: &[char]) -> String {
    v.iter().collect()
}

#[test]
fn trimming_uses_unicode_whitespace() {
    assert_eq!(s(&trim_chars(&chars_of(" \t\u{3000}x y\u{a0}\n"))), "x y");
    assert_eq!(s(&trim_chars(&chars_of("   "))), "");
    assert_eq!(s(&trim_chars(&chars_of("\u{200b}z"))), "\u{200b}z");
}

#[test]
fn words_and_pieces() {
    let w: Vec<String> = split_whitespace(&chars_of("  a  bc\td ")).iter().map(|x| s(x)).collect();
    assert_eq!(w, vec!["a", "bc", "d"]);
    assert!(split_whitespace(&chars_of(" \n ")).is_empty());
    let p: Vec<String> = split_chars(&chars_of("a&&b&"), '&').iter().map(|x| s(x)).collect();
    assert_eq!(p, vec!["a", "", "b", ""]);
    let p: Vec<String> = split_chars(&chars_of(""), '&').iter().map(|x| s(x)).collect();
    assert_eq!(p, vec![""]);
}

#[test]
fn prefixes_substrings_equality() {
    assert!(has_prefix(&chars_of("/callback?x"), &chars_of("/callback?")));
    assert!(!has_prefix(&chars_of("/call"), &chars_of("/callback?")));
    assert!(has_substring(&chars_of("error 10061 here"), &chars_of("10061")));
    assert!(!has_substring(&chars_of("1006"), &chars_of("10061")));
    assert!(has_substring(&chars_of("x"), &chars_of("")));
    assert!(same_text("abc", "abc"));
    assert!(!same_text("abc", "abd"));
}
