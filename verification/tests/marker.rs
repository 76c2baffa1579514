use noirlings::exercise::{Exercise, Mode};
use noirlings::marker::{
    detect, find_marker, line_is_marker, pending_context, state_of_lines, ContextLine, State,
    CONTEXT, I_AM_DONE_REGEX,
};
use noirlings::text::split_lines;

fn exercise(name: &str, path: &str, mode: Mode) -> Exercise {
    Exercise { name: name.to_string(), path: path.to_string(), mode, hint: String::new() }
}

fn line(text: &str, number: usize, important: bool) -> ContextLine {
    ContextLine { line: text.to_string(), number, important }
}

fn owned(lines: &[&str]) -> Vec<String> {
    lines.iter().map(|l| l.to_string()).collect()
}

#[test]
fn test_noir_test_passes() {
    let exercise = exercise("testPass", "tests/fixture/noir/testPass.nr", Mode::Test);
    let source = "fn add(x: u64, y: u64) -> u64 {\n    x + y\n}\n\n#[test]\nfn test_add() {\n    assert(add(2, 2) == 4);\n}\n";

    assert_eq!(exercise.state(source), State::Done);
}

#[test]
fn source_without_marker_is_done() {
    assert_eq!(detect(""), State::Done);
    assert_eq!(detect("fn main() {}\n"), State::Done);
    assert_eq!(detect("// I AM DONE\nfn main() {}\n"), State::Done);
    assert_eq!(detect("I AM NOT DONE\n"), State::Done);
    assert_eq!(detect("let s = \"// I AM NOT DONE\";\n"), State::Done);
}

#[test]
fn marker_on_first_line_of_seven_shows_three_lines() {
    let source = "// I AM NOT DONE\nl2\nl3\nl4\nl5\nl6\nl7\n";
    assert_eq!(
        detect(source),
        State::Pending(vec![
            line("// I AM NOT DONE", 1, true),
            line("l2", 2, false),
            line("l3", 3, false),
        ])
    );
}

#[test]
fn marker_in_the_middle_shows_five_lines() {
    let source = "l1\nl2\nl3\n    // I AM NOT DONE\nl5\nl6\nl7";
    assert_eq!(
        detect(source),
        State::Pending(vec![
            line("l2", 2, false),
            line("l3", 3, false),
            line("    // I AM NOT DONE", 4, true),
            line("l5", 5, false),
            line("l6", 6, false),
        ])
    );
}

#[test]
fn marker_on_second_line_is_clipped_at_the_start() {
    let source = "l1\n// I AM NOT DONE\nl3\nl4\nl5\n";
    assert_eq!(
        detect(source),
        State::Pending(vec![
            line("l1", 1, false),
            line("// I AM NOT DONE", 2, true),
            line("l3", 3, false),
            line("l4", 4, false),
        ])
    );
}

#[test]
fn marker_on_last_line_is_clipped_at_the_end() {
    let source = "l1\nl2\nl3\nl4\n/// I AM NOT DONE";
    assert_eq!(
        detect(source),
        State::Pending(vec![
            line("l3", 3, false),
            line("l4", 4, false),
            line("/// I AM NOT DONE", 5, true),
        ])
    );
}

#[test]
fn marker_alone_is_its_own_context() {
    assert_eq!(
        detect("// I AM NOT DONE"),
        State::Pending(vec![line("// I AM NOT DONE", 1, true)])
    );
}

#[test]
fn only_the_first_marker_counts() {
    let source = "a\n// I AM NOT DONE\nb\n// I AM NOT DONE\nc\nd\n";
    assert_eq!(
        detect(source),
        State::Pending(vec![
            line("a", 1, false),
            line("// I AM NOT DONE", 2, true),
            line("b", 3, false),
            line("// I AM NOT DONE", 4, false),
        ])
    );
}

#[test]
fn exactly_one_line_is_flagged_and_numbers_follow_the_index() {
    let lines: Vec<String> = (0..20).map(|i| format!("line {}", i)).collect();
    for m in 0..20usize {
        let mut with_marker = lines.clone();
        with_marker[m] = "// I AM NOT DONE".to_string();
        let source = with_marker.join("\n");
        let low = m.saturating_sub(2);
        let high = (m + 2).min(19);
        match detect(&source) {
            State::Done => panic!("marker at {} was not found", m),
            State::Pending(context) => {
                assert_eq!(context.len(), high - low + 1);
                assert_eq!(context.iter().filter(|c| c.important).count(), 1);
                for (k, c) in context.iter().enumerate() {
                    assert_eq!(c.number, low + k + 1);
                    assert_eq!(c.line, with_marker[low + k]);
                    assert_eq!(c.important, low + k == m);
                }
            }
        }
    }
}

#[test]
fn marker_line_forms() {
    assert!(line_is_marker("// I AM NOT DONE"));
    assert!(line_is_marker("/// I AM NOT DONE"));
    assert!(line_is_marker("//I AM NOT DONE"));
    assert!(line_is_marker("  \t// I   AM\tNOT  DONE  "));
    assert!(line_is_marker("// i am not done"));
    assert!(line_is_marker("// I Am Not Done"));
    assert!(!line_is_marker(""));
    assert!(!line_is_marker("// "));
    assert!(!line_is_marker("/ I AM NOT DONE"));
    assert!(!line_is_marker("//// I AM NOT DONE"));
    assert!(!line_is_marker("# I AM NOT DONE"));
    assert!(!line_is_marker("// IAM NOT DONE"));
    assert!(!line_is_marker("// I AM DONE"));
    assert!(!line_is_marker("fn main() {} // I AM NOT DONE"));
    assert!(!line_is_marker("// I AM NOT DONE yet"));
}

#[test]
fn marker_pattern_is_a_regular_expression() {
    assert!(regex::Regex::new(I_AM_DONE_REGEX).is_ok());
    assert_eq!(CONTEXT, 2);
}

#[test]
fn find_marker_gives_the_first_index() {
    assert_eq!(find_marker(&owned(&[])), None);
    assert_eq!(find_marker(&owned(&["a", "b"])), None);
    assert_eq!(find_marker(&owned(&["a", "// I AM NOT DONE", "// I AM NOT DONE"])), Some(1));
}

#[test]
fn pending_context_takes_any_line_as_the_marker() {
    let lines = owned(&["a", "b", "c", "d", "e", "f", "g"]);
    assert_eq!(
        pending_context(&lines, 0),
        vec![line("a", 1, true), line("b", 2, false), line("c", 3, false)]
    );
    assert_eq!(
        pending_context(&lines, 3),
        vec![
            line("b", 2, false),
            line("c", 3, false),
            line("d", 4, true),
            line("e", 5, false),
            line("f", 6, false),
        ]
    );
    assert_eq!(
        pending_context(&lines, 6),
        vec![line("e", 5, false), line("f", 6, false), line("g", 7, true)]
    );
    assert_eq!(pending_context(&lines, 5).len(), 4);
}

#[test]
fn state_of_lines_agrees_with_detect() {
    let source = "a\nb\n// I AM NOT DONE\nc\n";
    assert_eq!(state_of_lines(&split_lines(source)), detect(source));
    assert_eq!(state_of_lines(&owned(&["a", "b"])), State::Done);
}

#[test]
fn marker_line_with_carriage_return_line_endings() {
    let source = "a\r\n// I AM NOT DONE\r\nb\r\n";
    assert_eq!(
        detect(source),
        State::Pending(vec![
            line("a", 1, false),
            line("// I AM NOT DONE", 2, true),
            line("b", 3, false),
        ])
    );
}

#[test]
fn looks_done_follows_the_state() {
    let exercise = exercise("intro1", "exercises/intro/intro1.nr", Mode::Build);
    assert!(exercise.looks_done("fn main() {}\n"));
    assert!(!exercise.looks_done("// I AM NOT DONE\nfn main() {}\n"));
    assert_eq!(exercise.to_string(), "exercises/intro/intro1.nr");
}

#[test]
fn split_lines_splits_as_std_does() {
    let samples = [
        "",
        "\n",
        "a",
        "a\n",
        "a\nb",
        "a\n\nb\n",
        "a\r\nb\r\n",
        "a\rb\n",
        "a\r",
        "a\r\r\n",
        "\r\n",
        "\r",
        "\n\n",
        "caf\u{e9}\n\u{4e2d}\u{6587}\r\nend",
    ];
    for sample in samples {
        let expected: Vec<String> = sample.lines().map(|l| l.to_string()).collect();
        assert_eq!(split_lines(sample), expected, "splitting {:?}", sample);
    }
    assert_eq!(split_lines("a\r\nb\n"), vec!["a".to_string(), "b".to_string()]);
    assert_eq!(split_lines("a\r"), vec!["a\r".to_string()]);
    assert_eq!(split_lines("\n"), vec![String::new()]);
}
