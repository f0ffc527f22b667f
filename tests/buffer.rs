use build_runner::buffer::{Emission, OutputLine, TruncatingBuffer};

fn out(s: &str) -> OutputLine {
    OutputLine { content: s.to_string(), is_stderr: false }
}

fn lines(n: usize) -> Vec<OutputLine> {
    (0..n).map(|i| out(&format!("l{}", i))).collect()
}

/// Pushes every line, then finishes; returns what was printed, in order.
fn render(capacity: usize, input: Vec<OutputLine>) -> Vec<Emission> {
    let mut buffer = TruncatingBuffer::new(capacity);
    let mut printed = Vec::new();
    for line in input {
        if let Some(shown) = buffer.push(line) {
            printed.push(Emission::Line(shown));
        }
    }
    printed.extend(buffer.finish());
    printed
}

fn as_lines(names: &[&str]) -> Vec<Emission> {
    names.iter().map(|s| Emission::Line(out(s))).collect()
}

#[test]
fn build_within_capacity_is_printed_whole() {
    assert_eq!(render(4, lines(4)), as_lines(&["l0", "l1", "l2", "l3"]));
    assert_eq!(render(4, lines(3)), as_lines(&["l0", "l1", "l2"]));
}

#[test]
fn long_build_keeps_head_marker_and_tail() {
    let mut expected = as_lines(&["l0", "l1"]);
    expected.push(Emission::Truncated(6));
    expected.extend(as_lines(&["l8", "l9"]));
    assert_eq!(render(4, lines(10)), expected);
}

#[test]
fn odd_capacity_withholds_the_larger_half() {
    let mut expected = as_lines(&["l0"]);
    expected.push(Emission::Truncated(2));
    expected.extend(as_lines(&["l3", "l4"]));
    assert_eq!(render(3, lines(5)), expected);
}

#[test]
fn capacity_one_shows_only_the_last_line() {
    let mut expected = vec![Emission::Truncated(2)];
    expected.extend(as_lines(&["l2"]));
    assert_eq!(render(1, lines(3)), expected);
}

#[test]
fn zero_capacity_prints_every_line_at_once() {
    let mut buffer = TruncatingBuffer::new(0);
    for (i, line) in lines(1000).into_iter().enumerate() {
        let shown = buffer.push(line);
        assert_eq!(shown, Some(out(&format!("l{}", i))));
    }
    assert_eq!(buffer.total_count(), 1000);
    assert_eq!(buffer.finish(), vec![]);
}

#[test]
fn head_lines_are_shown_live_and_the_rest_withheld() {
    let mut buffer = TruncatingBuffer::new(6);
    let mut shown = Vec::new();
    for line in lines(5) {
        shown.push(buffer.push(line).is_some());
    }
    assert_eq!(shown, vec![true, true, true, false, false]);
    assert_eq!(buffer.finish(), as_lines(&["l3", "l4"]));
}

#[test]
fn empty_build_prints_nothing() {
    assert_eq!(render(500, vec![]), vec![]);
    assert_eq!(render(0, vec![]), vec![]);
}

#[test]
fn lines_keep_their_stream_tag() {
    let input = vec![
        OutputLine { content: "a".to_string(), is_stderr: true },
        out("b"),
        OutputLine { content: "c".to_string(), is_stderr: true },
    ];
    let expected = vec![
        Emission::Line(OutputLine { content: "a".to_string(), is_stderr: true }),
        Emission::Truncated(1),
        Emission::Line(OutputLine { content: "c".to_string(), is_stderr: true }),
    ];
    assert_eq!(render(2, input), expected);
}

#[test]
fn default_capacity_truncates_at_five_hundred() {
    let printed = render(500, lines(1200));
    assert_eq!(printed.len(), 501);
    assert_eq!(printed[249], Emission::Line(out("l249")));
    assert_eq!(printed[250], Emission::Truncated(700));
    assert_eq!(printed[251], Emission::Line(out("l950")));
    assert_eq!(printed[500], Emission::Line(out("l1199")));
}
