use xtask_core::text::{contains_substring, join_with_spaces, split_lines};

fn s(x: &str) -> String {
    x.to_string()
}

#[test]
fn joining_nothing_gives_an_empty_string() {
    assert_eq!(join_with_spaces(&vec![]), s(""));
}

#[test]
fn joining_one_part_adds_no_space() {
    assert_eq!(join_with_spaces(&vec![s("doc")]), s("doc"));
}

#[test]
fn joining_many_parts_uses_single_spaces() {
    let parts = vec![s("doc"), s("--workspace"), s("--color=always")];
    assert_eq!(join_with_spaces(&parts), s("doc --workspace --color=always"));
}

#[test]
fn empty_parts_keep_their_separators() {
    assert_eq!(join_with_spaces(&vec![s(""), s("x"), s("")]), s(" x "));
}

#[test]
fn substring_search_finds_inner_runs() {
    assert!(contains_substring("error: no tests to run", "no tests"));
    assert!(contains_substring("abc", "abc"));
    assert!(contains_substring("abc", "c"));
}

#[test]
fn substring_search_rejects_absent_needles() {
    assert!(!contains_substring("error: assertion failed", "no tests"));
    assert!(!contains_substring("ab", "abc"));
    assert!(!contains_substring("", "x"));
}

#[test]
fn the_empty_needle_is_always_found() {
    assert!(contains_substring("", ""));
    assert!(contains_substring("anything", ""));
}

#[test]
fn substring_search_handles_wide_characters() {
    assert!(contains_substring("naïve café", "café"));
    assert!(!contains_substring("naïve", "cafe"));
}

#[test]
fn lines_are_split_at_newlines() {
    assert_eq!(split_lines("foo v1.0\nbar v2.0"), vec![s("foo v1.0"), s("bar v2.0")]);
}

#[test]
fn a_trailing_newline_adds_no_line() {
    assert_eq!(split_lines("a\nb\n"), vec![s("a"), s("b")]);
}

#[test]
fn carriage_returns_before_newlines_are_stripped() {
    assert_eq!(split_lines("a\r\nb\r\n"), vec![s("a"), s("b")]);
}

#[test]
fn a_lone_carriage_return_stays() {
    assert_eq!(split_lines("a\rb"), vec![s("a\rb")]);
    assert_eq!(split_lines("a\r"), vec![s("a\r")]);
}

#[test]
fn empty_text_has_no_lines() {
    assert_eq!(split_lines(""), Vec::<String>::new());
    assert_eq!(split_lines("\n"), vec![s("")]);
}
