use terminal_bridge::text::{
    chained, contains_char, contains_text, decimal, ends_with, from_chars, is_whitespace, join_from, leading_words, lines,
    matches_at, push_all, replace_all, replace_chars, same_chars, same_text, slice_chars, split,
    starts_with, to_chars, trim, trim_chars, trim_start_matches,
};

fn chars(text: &str) -> Vec<char> {
    text.chars().collect()
}

fn texts(parts: Vec<Vec<char>>) -> Vec<String> {
    parts.into_iter().map(|part| part.into_iter().collect()).collect()
}

#[test]
fn trim_matches_std() {
    for text in ["  a b  ", "", "   ", "x", "\t\n x \r\n", "\u{a0}a\u{3000}", " a", "a "] {
        assert_eq!(trim(text), text.trim(), "{:?}", text);
        assert_eq!(trim_chars(&chars(text)), chars(text.trim()), "{:?}", text);
    }
    assert_eq!(trim("  a b  "), "a b");
}

#[test]
fn lines_match_std() {
    for text in ["a\nb", "a\nb\n", "", "\n", "\n\n", "a\r\nb\r\n", "a\rb", "a\r", "\r\n", "x\r\r\ny"] {
        let expected: Vec<String> = text.lines().map(|line| line.to_string()).collect();
        assert_eq!(texts(lines(&chars(text))), expected, "{:?}", text);
    }
    assert_eq!(texts(lines(&chars("a\r\nb\n"))), vec!["a", "b"]);
}

#[test]
fn split_matches_std() {
    for text in ["a/b/c", "", "/", "//", "a/", "/a", "abc"] {
        let expected: Vec<String> = text.split('/').map(|part| part.to_string()).collect();
        assert_eq!(texts(split(&chars(text), '/')), expected, "{:?}", text);
    }
    assert_eq!(texts(split(&chars("a//b"), '/')), vec!["a", "", "b"]);
}

#[test]
fn join_matches_std() {
    let parts = vec![chars("a"), chars(""), chars("bc"), chars("d")];
    let sep = chars(", ");
    assert_eq!(join_from(&parts, 0, &sep), chars("a, , bc, d"));
    assert_eq!(join_from(&parts, 2, &sep), chars("bc, d"));
    assert_eq!(join_from(&parts, 3, &sep), chars("d"));
    assert_eq!(join_from(&parts, 4, &sep), chars(""));
    assert_eq!(join_from(&Vec::new(), 0, &sep), chars(""));
}

#[test]
fn substring_search_matches_std() {
    let cases = [
        ("hello", "ll"),
        ("hello", "lo"),
        ("hello", "he"),
        ("hello", "hello"),
        ("hello", "hellos"),
        ("hello", ""),
        ("", ""),
        ("", "a"),
        ("aab", "ab"),
        ("abab", "bb"),
    ];
    for (text, pat) in cases {
        assert_eq!(contains_text(text, pat), text.contains(pat), "{:?}", (text, pat));
        assert_eq!(ends_with(text, pat), text.ends_with(pat), "{:?}", (text, pat));
    }
    assert!(contains_text("an import line", "import"));
    assert!(ends_with("file.tsx", ".tsx"));
    assert!(!ends_with("file.tsx", ".ts"));
}

#[test]
fn character_search_and_append() {
    assert!(contains_char("a:b", ':'));
    assert!(!contains_char("ab", ':'));
    assert!(!contains_char("", ':'));
    assert!(same_chars(&chars("ab"), &chars("ab")));
    assert!(!same_chars(&chars("ab"), &chars("abc")));
    let mut out = chars("ab");
    push_all(&mut out, &chars("cd"));
    assert_eq!(out, chars("abcd"));
}

#[test]
fn chars_round_trip() {
    let text = "naïve — Привет 🙂";
    assert_eq!(to_chars(text), text.chars().collect::<Vec<char>>());
    assert_eq!(from_chars(&to_chars(text)), text);
    assert_eq!(from_chars(&Vec::new()), "");
    assert_eq!(to_chars(""), Vec::<char>::new());
}

#[test]
fn whitespace_agrees_with_unicode_property() {
    let mut code: u32 = 0;
    while code <= 0x10FFFF {
        if let Some(c) = char::from_u32(code) {
            assert_eq!(is_whitespace(c), c.is_whitespace(), "U+{:04X}", code);
        }
        code += 1;
    }
}

#[test]
fn replace_all_matches_std_replace() {
    let cases = [
        ("a/b/c", "/", "\\"),
        ("\\\\?\\C:\\dir", "\\\\?\\", ""),
        ("line1\nline2\n", "\n", "\r\n"),
        ("aaaa", "aa", "b"),
        ("aaa", "aa", "b"),
        ("abc", "", "-"),
        ("", "", "-"),
        ("", "x", "y"),
        ("abc", "abcd", "z"),
        ("abcabc", "abc", ""),
        ("xxabxx", "ab", "ab"),
        ("\\\\\\\\?\\?\\", "\\\\?\\", ""),
        ("héllo wörld", "ö", "oe"),
    ];
    for (text, pat, with) in cases {
        assert_eq!(replace_all(text, pat, with), text.replace(pat, with), "{:?}", (text, pat, with));
    }
}

#[test]
fn replace_all_exact_values() {
    assert_eq!(replace_all("a/b/c", "/", "\\"), "a\\b\\c");
    assert_eq!(replace_all("aaa", "aa", "b"), "ba");
    assert_eq!(replace_all("ab", "", "X"), "XaXbX");
    assert_eq!(replace_all("one\ntwo", "\n", "\r\n"), "one\r\ntwo");
}

#[test]
fn replace_chars_on_vectors() {
    let text: Vec<char> = "a.b.c".chars().collect();
    let pat = vec!['.'];
    let with = vec![':', ':'];
    assert_eq!(replace_chars(&text, &pat, &with), "a::b::c".chars().collect::<Vec<char>>());
}

#[test]
fn trim_start_matches_std() {
    let cases = [
        ("\\\\server\\share", "\\\\"),
        ("\\\\\\\\x", "\\\\"),
        ("\\x", "\\\\"),
        ("\\\\\\x", "\\\\"),
        ("abab", "ab"),
        ("abc", ""),
        ("", "ab"),
        ("", ""),
        ("aaa", "a"),
    ];
    for (text, pat) in cases {
        assert_eq!(trim_start_matches(text, pat), text.trim_start_matches(pat), "{:?}", (text, pat));
    }
}

#[test]
fn trim_start_exact_values() {
    assert_eq!(trim_start_matches("\\\\server\\share", "\\\\"), "server\\share");
    assert_eq!(trim_start_matches("\\\\\\x", "\\\\"), "\\x");
    assert_eq!(trim_start_matches("aaa", "a"), "");
}

#[test]
fn leading_words_match_split_whitespace() {
    let cases = [
        "cd /tmp",
        "  cd   /tmp  extra",
        "cd",
        "",
        "   ",
        "\tcd\n..",
        "cd\u{a0}dir",
        "echo hello world",
        "one",
        " one ",
        "cd\u{3000}目录",
    ];
    for text in cases {
        let mut parts = text.split_whitespace();
        let first = parts.next().unwrap_or("").to_string();
        let second = parts.next().unwrap_or("").to_string();
        assert_eq!(leading_words(text), (first, second), "{:?}", text);
    }
}

#[test]
fn leading_words_exact_values() {
    assert_eq!(leading_words("  cd   /tmp  extra"), ("cd".to_string(), "/tmp".to_string()));
    assert_eq!(leading_words("cd"), ("cd".to_string(), String::new()));
    assert_eq!(leading_words(""), (String::new(), String::new()));
}

#[test]
fn matching_and_equality() {
    let text: Vec<char> = "hello".chars().collect();
    let pat: Vec<char> = "ll".chars().collect();
    assert!(matches_at(&text, 2, &pat));
    assert!(!matches_at(&text, 1, &pat));
    assert!(!matches_at(&text, 4, &pat));
    assert!(!matches_at(&text, 5, &pat));
    assert!(matches_at(&text, 5, &Vec::new()));
    assert!(same_text("cd", "cd"));
    assert!(!same_text("cd", "cd "));
    assert!(!same_text("cd", "ce"));
    assert!(same_text("", ""));
    assert!(starts_with("remotes/origin", "remotes/"));
    assert!(!starts_with("remote", "remotes/"));
    assert!(starts_with("x", ""));
}

#[test]
fn slices_and_concat() {
    let text: Vec<char> = "hello".chars().collect();
    assert_eq!(slice_chars(&text, 1, 3), vec!['e', 'l']);
    assert_eq!(slice_chars(&text, 2, 2), Vec::<char>::new());
    assert_eq!(slice_chars(&text, 0, 5), text);
    assert_eq!(chained("ab", "cd"), "abcd");
    assert_eq!(chained("", ""), "");
}

#[test]
fn decimal_matches_formatting() {
    for n in [0, 1, 9, 10, 11, 99, 100, 259, 65001, -1, -10, -259, i32::MAX, i32::MIN] {
        assert_eq!(decimal(n), format!("{}", n));
    }
}
