use lintscout::text::{split_lines, split_tokens, str_eq, str_lt, trim_str, usize_to_string};

#[test]
fn lines_split_at_newlines() {
    assert_eq!(split_lines("a\nb"), vec!["a", "b"]);
    assert_eq!(split_lines("a\r\nb\n"), vec!["a", "b"]);
}

#[test]
fn lines_no_trailing_empty_line() {
    assert_eq!(split_lines("one\n"), vec!["one"]);
    assert_eq!(split_lines(""), Vec::<String>::new());
    assert_eq!(split_lines("\n"), vec![""]);
}

#[test]
fn lines_keep_lone_carriage_return() {
    assert_eq!(split_lines("a\rb"), vec!["a\rb"]);
    assert_eq!(split_lines("a\r"), vec!["a\r"]);
}

#[test]
fn tokens_split_on_commas_and_spaces() {
    assert_eq!(split_tokens("no-alert, no-console"), vec!["no-alert", "no-console"]);
    assert_eq!(split_tokens("a b,c"), vec!["a", "b", "c"]);
}

#[test]
fn tokens_drop_empties_and_trim() {
    assert_eq!(split_tokens("  a  ,, b\t "), vec!["a", "b"]);
    assert_eq!(split_tokens("  , ,  "), Vec::<String>::new());
    assert_eq!(split_tokens(""), Vec::<String>::new());
}

#[test]
fn tokens_keep_order_and_duplicates() {
    assert_eq!(split_tokens("b a b"), vec!["b", "a", "b"]);
}

#[test]
fn trim_removes_surrounding_whitespace() {
    assert_eq!(trim_str("  x\t"), "x");
    assert_eq!(trim_str("\t \r\n"), "");
    assert_eq!(trim_str("a b"), "a b");
}

#[test]
fn decimal_rendering_exact() {
    assert_eq!(usize_to_string(0), "0");
    assert_eq!(usize_to_string(10), "10");
    assert_eq!(usize_to_string(907), "907");
    assert_eq!(usize_to_string(100000), "100000");
}

#[test]
fn lexicographic_order_on_strings() {
    assert!(str_lt("a", "b"));
    assert!(str_lt("a", "ab"));
    assert!(str_lt("", "a"));
    assert!(!str_lt("b", "a"));
    assert!(!str_lt("a", "a"));
    assert!(str_eq("abc", "abc"));
    assert!(!str_eq("abc", "abd"));
}
