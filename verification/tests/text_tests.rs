use venkyai::text::{chars_of, contains, is_blank, join, matches_at, same_text, trim, trim_bounds};

#[test]
fn trim_bounds_agree_with_str_trim() {
    for s in ["", " ", "a", "  a b  ", "\t\r\nx\u{a0}", "\u{3000}wide\u{2003}", "no-space", " \u{85} "] {
        let chars: Vec<char> = s.chars().collect();
        let (i, j) = trim_bounds(&chars);
        let cut: String = chars[i..j].iter().collect();
        assert_eq!(cut, s.trim(), "input {:?}", s);
        assert_eq!(trim(s), s.trim(), "input {:?}", s);
        assert_eq!(is_blank(s), s.trim().is_empty());
    }
}

#[test]
fn chars_of_gives_the_characters_in_order() {
    assert_eq!(chars_of("h\u{e9}!"), vec!['h', '\u{e9}', '!']);
    assert_eq!(chars_of(""), Vec::<char>::new());
}

#[test]
fn contains_finds_a_needle_anywhere() {
    assert!(contains("abc", ""));
    assert!(contains("", ""));
    assert!(contains("abc", "abc"));
    assert!(contains("xxabc", "abc"));
    assert!(contains("abcxx", "abc"));
    assert!(!contains("ab", "abc"));
    assert!(!contains("abd abx", "abc"));
    assert!(contains("aab", "ab"));
}

#[test]
fn matches_at_checks_one_position() {
    let hay = chars_of("data: x");
    let tag = chars_of("data: ");
    assert!(matches_at(&hay, 0, &tag));
    assert!(!matches_at(&hay, 1, &tag));
    assert!(!matches_at(&hay, 7, &tag));
    assert!(!matches_at(&hay, 100, &tag));
    assert!(matches_at(&hay, 7, &chars_of("")));
}

#[test]
fn join_puts_the_separator_between_neighbours() {
    assert_eq!(join(&vec![], ", "), "");
    assert_eq!(join(&vec!["a".to_string()], ", "), "a");
    assert_eq!(join(&vec!["a".to_string(), "".to_string(), "c".to_string()], ", "), "a, , c");
}

#[test]
fn same_text_compares_characters() {
    assert!(same_text("abc", "abc"));
    assert!(!same_text("abc", "abd"));
    assert!(!same_text("abc", "ab"));
}
