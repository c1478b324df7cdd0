use paper_age::text::split_lines;

#[test]
fn lines_split_at_newlines() {
    assert_eq!(split_lines("a\nbc\n\nd"), vec!["a", "bc", "", "d"]);
}

#[test]
fn lines_drop_carriage_return_before_newline() {
    assert_eq!(split_lines("a\r\nb\r\n"), vec!["a", "b"]);
    assert_eq!(split_lines("a\rb\r"), vec!["a\rb\r"]);
}

#[test]
fn lines_of_empty_text() {
    assert!(split_lines("").is_empty());
    assert_eq!(split_lines("\n"), vec![""]);
}

#[test]
fn lines_match_std() {
    let text = "-----BEGIN-----\r\nYWJj\nZGVm\n\nü\n-----END-----\n";
    let expected: Vec<&str> = text.lines().collect();
    assert_eq!(split_lines(text), expected);
}
