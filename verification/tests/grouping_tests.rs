use xtask_core::events::LogEvent;
use xtask_core::grouping::LineGrouper;
use xtask_core::pattern::GroupPattern;

fn s(x: &str) -> String {
    x.to_string()
}

fn run_lines(pattern: Option<&str>, lines: &[&str]) -> Vec<LogEvent> {
    let compiled = pattern.map(|p| GroupPattern::new(p).expect("pattern should be valid"));
    let mut grouper = LineGrouper::new(compiled);
    let owned: Vec<String> = lines.iter().map(|l| l.to_string()).collect();
    grouper.process_stream(&owned)
}

#[test]
fn two_groups_are_bracketed_in_order() {
    // Lines 1 and 2 belong to group A, lines 3 and 4 to group B: A must be
    // opened before line 1 and closed before B opens, and B closed at the end.
    let events = run_lines(
        Some(r"^Running unittests .* \((\w+)\)$"),
        &[
            "Running unittests src/lib.rs (A)",
            "test a_one ... ok",
            "Running unittests src/lib.rs (B)",
            "test b_one ... ok",
        ],
    );
    assert_eq!(
        events,
        vec![
            LogEvent::OpenGroup(s("Unit Tests: A")),
            LogEvent::Echo(s("Running unittests src/lib.rs (A)")),
            LogEvent::Echo(s("test a_one ... ok")),
            LogEvent::CloseGroup,
            LogEvent::OpenGroup(s("Unit Tests: B")),
            LogEvent::Echo(s("Running unittests src/lib.rs (B)")),
            LogEvent::Echo(s("test b_one ... ok")),
            LogEvent::CloseGroup,
        ]
    );
}

#[test]
fn every_matching_line_switches_the_group() {
    let events = run_lines(Some(r"^begin (\w+)$"), &["begin a", "begin b"]);
    assert_eq!(
        events,
        vec![
            LogEvent::OpenGroup(s("Unit Tests: a")),
            LogEvent::Echo(s("begin a")),
            LogEvent::CloseGroup,
            LogEvent::OpenGroup(s("Unit Tests: b")),
            LogEvent::Echo(s("begin b")),
            LogEvent::CloseGroup,
        ]
    );
}

#[test]
fn without_a_pattern_lines_are_echoed_untouched() {
    let events = run_lines(None, &["one", "two"]);
    assert_eq!(events, vec![LogEvent::Echo(s("one")), LogEvent::Echo(s("two"))]);
}

#[test]
fn non_matching_lines_open_no_group() {
    let events = run_lines(Some(r"^begin (\w+)$"), &["nothing to see", "move along"]);
    assert_eq!(
        events,
        vec![LogEvent::Echo(s("nothing to see")), LogEvent::Echo(s("move along"))]
    );
}

#[test]
fn the_captured_name_labels_the_group() {
    // The group label is built from the capture, not from the whole line.
    let events = run_lines(Some(r"Compiling (\w+)"), &["Compiling serde v1.0.0"]);
    assert_eq!(
        events,
        vec![
            LogEvent::OpenGroup(s("Unit Tests: serde")),
            LogEvent::Echo(s("Compiling serde v1.0.0")),
            LogEvent::CloseGroup,
        ]
    );
}

#[test]
fn an_unfinished_group_is_closed_at_the_end() {
    let events = run_lines(Some(r"^begin (\w+)$"), &["begin a", "tail line"]);
    assert_eq!(
        events,
        vec![
            LogEvent::OpenGroup(s("Unit Tests: a")),
            LogEvent::Echo(s("begin a")),
            LogEvent::Echo(s("tail line")),
            LogEvent::CloseGroup,
        ]
    );
}

#[test]
fn empty_stream_emits_nothing() {
    let events = run_lines(Some(r"^begin (\w+)$"), &[]);
    assert!(events.is_empty());
}

#[test]
fn broken_patterns_are_refused() {
    assert!(GroupPattern::new("(").is_none());
    assert!(GroupPattern::new("no group").is_none());
    assert!(GroupPattern::new("(a)(b)").is_none());
    assert!(GroupPattern::new("(a)").is_some());
}

#[test]
fn feeding_lines_one_by_one_matches_the_stream() {
    let compiled = GroupPattern::new(r"^begin (\w+)$").unwrap();
    let mut grouper = LineGrouper::new(Some(compiled));
    let first = grouper.feed_line("begin a");
    assert_eq!(
        first,
        vec![LogEvent::OpenGroup(s("Unit Tests: a")), LogEvent::Echo(s("begin a"))]
    );
    let second = grouper.feed_line("begin b");
    assert_eq!(
        second,
        vec![
            LogEvent::CloseGroup,
            LogEvent::OpenGroup(s("Unit Tests: b")),
            LogEvent::Echo(s("begin b")),
        ]
    );
    let tail = grouper.finish();
    assert_eq!(tail, vec![LogEvent::CloseGroup]);
}
