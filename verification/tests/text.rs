use kindle_exporter::browser::Error;
use kindle_exporter::record::{unreadable_line, Session, Step};
use kindle_exporter::action::Action;
use kindle_exporter::observation::Observation;
use kindle_exporter::text::{log_lines, LogLine};

fn line(number: usize, text: &str) -> LogLine {
    LogLine { number, text: text.to_string() }
}

#[test]
fn splits_a_log_into_numbered_lines() {
    assert_eq!(log_lines("a\nb\n"), vec![line(1, "a"), line(2, "b")]);
    assert_eq!(log_lines("a\r\nb"), vec![line(1, "a"), line(2, "b")]);
}

#[test]
fn blank_lines_are_skipped_but_counted() {
    assert_eq!(log_lines("\n\n"), vec![]);
    assert_eq!(log_lines(""), vec![]);
    assert_eq!(log_lines("a\n \t\n\u{3000}\nb\n"), vec![line(1, "a"), line(4, "b")]);
}

#[test]
fn an_unreadable_recording_line_names_its_number() {
    assert_eq!(
        unreadable_line(4, "expected value"),
        Error::Unexpected("記録の 4 行目を読めません: expected value".into())
    );
}

#[test]
fn a_recording_can_be_rebuilt_from_its_moves() {
    let steps = vec![Step { observation: Observation::default(), action: Action::PressNext }];
    let s = Session::from_steps(steps.clone());
    assert_eq!(s.steps(), steps.as_slice());
}
