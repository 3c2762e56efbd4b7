use kindle_exporter::action::{Action, Failure, Summary, WaitReason};
use kindle_exporter::book::{Asin, BookSpec};
use kindle_exporter::browser::Error as BrowserError;
use kindle_exporter::fake::FakeBrowser;
use kindle_exporter::browser::Browser;
use kindle_exporter::navigator::{Limits, Navigator};
use kindle_exporter::page::PageLabel;
use kindle_exporter::phase::Phase;
use kindle_exporter::record::{ReplayBrowser, Session};
use kindle_exporter::store::{Error as StoreError, Event, LeaseInfo, Progress, Record};
use kindle_exporter::workflow::{
    already_done, finish, record_file_name, CaptureOptions, Error, Measurer, Next, Outcome, Run,
    StubMeasurer,
};

#[test]
fn the_stub_returns_what_it_was_told_to() {
    let mut m = StubMeasurer::returning(45);
    assert_eq!(m.measure(b"x").unwrap().px_per_char, 45);
    assert_eq!(m.calls(), 1);
}

#[test]
fn the_stub_can_be_made_to_fail() {
    let mut m = StubMeasurer::returning(45).failing_after(1);
    assert!(m.measure(b"x").is_ok());
    assert!(m.measure(b"x").is_err());
}

#[test]
fn the_stub_says_why_it_stopped() {
    let mut m = StubMeasurer::returning(45).failing_after(0);
    assert_eq!(m.measure(b"x"), Err(Error::Measure("仮の実測を打ち切りました".into())));
    assert_eq!(m.calls(), 1);
}

fn spec() -> BookSpec {
    BookSpec::new(Asin::new("B0TESTBOOK").unwrap(), "テスト本")
}

fn quick_limits() -> Limits {
    Limits { book_load_timeout_ms: 5_000, page_turn_timeout_ms: 2_000, ..Limits::default() }
}

/// Runs a whole capture the way the caller does, keeping the saved pages in memory.
fn drive(
    browser: &mut FakeBrowser,
    measurer: &mut StubMeasurer,
    max_steps: usize,
) -> (Result<Action, Error>, Vec<(u32, PageLabel)>, Run) {
    let mut run = Run::new(spec(), quick_limits());
    let mut saved = Vec::new();
    loop {
        let action = match run.next_move(browser, max_steps) {
            Ok(a) => a,
            Err(e) => return (Err(e), saved, run),
        };
        match run.perform(browser, measurer, &action) {
            Ok(Next::Continue) => {}
            Ok(Next::SavePage { index, label, .. }) => saved.push((index, label)),
            Ok(Next::Stop(last)) => return (Ok(last), saved, run),
            Err(e) => return (Err(e), saved, run),
        }
    }
}

#[test]
fn a_run_numbers_the_saved_pages_from_one() {
    let mut browser = FakeBrowser::with_pages(6).starting_at(3);
    let mut measurer = StubMeasurer::returning(45);
    let (last, saved, run) = drive(&mut browser, &mut measurer, 4_000);

    let last = last.unwrap();
    assert!(matches!(last, Action::Done(Summary { captured_pages: 6, .. })), "{last:?}");
    let indexes: Vec<u32> = saved.iter().map(|(i, _)| *i).collect();
    assert_eq!(indexes, vec![1, 2, 3, 4, 5, 6]);
    assert_eq!(saved[0].1, PageLabel::new(1, Some(6)));
    assert_eq!(run.saved_pages(), 6);
    assert!(measurer.calls() >= 1, "the page was measured");
    assert_eq!(run.record().len(), run.record().actions().len());
    assert_eq!(run.record().actions().last().copied(), Some(&last));
}

#[test]
fn measurements_reach_the_state_machine_through_the_recording() {
    let mut browser = FakeBrowser::with_pages(2);
    let mut measurer = StubMeasurer::returning(45);
    let (_, _, run) = drive(&mut browser, &mut measurer, 4_000);
    let steps = run.record().steps();
    let measured_at = steps.iter().position(|s| s.action == Action::MeasurePage).unwrap();
    assert_eq!(steps[measured_at + 1].observation.metrics.map(|m| m.px_per_char), Some(45));
}

#[test]
fn a_runaway_run_is_stopped() {
    let mut browser = FakeBrowser::with_pages(50);
    let mut measurer = StubMeasurer::returning(45);
    let (last, _, run) = drive(&mut browser, &mut measurer, 10);
    assert_eq!(last, Err(Error::TooManySteps { limit: 10 }));
    assert_eq!(run.record().len(), 10);
}

#[test]
fn a_failing_measurer_stops_the_run() {
    let mut browser = FakeBrowser::with_pages(5);
    let mut measurer = StubMeasurer::returning(27).failing_after(0);
    let (last, saved, _) = drive(&mut browser, &mut measurer, 4_000);
    assert!(matches!(last, Err(Error::Measure(_))), "{last:?}");
    assert!(saved.is_empty());
}

#[test]
fn a_reader_whose_menu_never_opens_ends_in_a_failure() {
    let mut browser = FakeBrowser::with_pages(5).with_broken_menu();
    let mut measurer = StubMeasurer::returning(45);
    let (last, _, _) = drive(&mut browser, &mut measurer, 4_000);
    assert_eq!(last, Ok(Action::Fail(Failure::SettingsMenuUnavailable)));
}

#[test]
fn a_browser_failure_stops_the_run() {
    let empty = Session::new();
    let mut browser = ReplayBrowser::new(&empty);
    let mut run = Run::new(spec(), quick_limits());
    match run.next_move(&mut browser, 10) {
        Err(Error::Browser(BrowserError::Unexpected(m))) => assert_eq!(m, "記録は 0 手で尽きています"),
        other => panic!("{other:?}"),
    }
    assert_eq!(run.record().len(), 0, "nothing is recorded when nothing was seen");
}

#[test]
fn a_finished_run_is_logged_with_its_summary() {
    let summary = Summary { captured_pages: 12, px_per_char: Some(45), end_confirmed: true };
    assert_eq!(
        finish(Action::Done(summary), 12),
        Ok((
            Event::PhaseFinished { phase: Phase::Capture, summary: Some(summary) },
            Outcome::Finished(summary)
        ))
    );
}

#[test]
fn a_reader_failure_is_a_result_not_an_error() {
    let failure = Failure::PageDidNotAdvance { at: PageLabel::new(40, Some(100)) };
    let (event, outcome) = finish(Action::Fail(failure), 39).unwrap();
    assert_eq!(
        event,
        Event::PhaseFailed { phase: Phase::Capture, reason: format!("{failure:?}") }
    );
    assert_eq!(outcome, Outcome::Failed { failure, captured_pages: 39 });
    assert_eq!(outcome.captured_pages(), 39);
}

#[test]
fn a_run_cannot_end_on_an_ordinary_move() {
    let e = finish(Action::PressNext, 0).unwrap_err();
    assert_eq!(e, Error::Measure("終端でない行動で終わりました: PressNext".into()));
    let w = finish(Action::Wait { ms: 5, reason: WaitReason::PageTurn }, 0).unwrap_err();
    assert_eq!(
        w,
        Error::Measure(format!(
            "終端でない行動で終わりました: {:?}",
            Action::Wait { ms: 5, reason: WaitReason::PageTurn }
        ))
    );
}

#[test]
fn a_finished_book_is_left_alone() {
    let summary = Summary { captured_pages: 3, px_per_char: None, end_confirmed: false };
    let records = vec![Record::new(
        0,
        "h".into(),
        Event::PhaseFinished { phase: Phase::Capture, summary: Some(summary) },
    )];
    let p = Progress::from_records(&records);
    assert_eq!(already_done(&p, false), Some(summary));
    assert_eq!(already_done(&p, true), None, "forced runs capture again");
    assert_eq!(already_done(&Progress::default(), false), None);
    assert_eq!(Outcome::AlreadyDone(summary).captured_pages(), 3);
}

#[test]
fn capture_options_default_to_recording_without_forcing() {
    let o = CaptureOptions::default();
    assert!(o.record);
    assert!(!o.force);
    assert_eq!(o.max_steps, 200_000);
    assert_eq!(o.limits, Limits::default());
}

#[test]
fn recordings_are_named_by_their_length() {
    assert_eq!(record_file_name(0), "capture-0.jsonl");
    assert_eq!(record_file_name(1234), "capture-1234.jsonl");
}

#[test]
fn workflow_errors_explain_themselves() {
    assert_eq!(
        Error::TooManySteps { limit: 200_000 }.message(),
        "200000 手を超えても終わりませんでした"
    );
    assert_eq!(Error::Measure("x".into()).message(), "実測: x");
    assert_eq!(
        Error::from(BrowserError::Script("boom".into())).message(),
        format!("ブラウザ操作: {}", BrowserError::Script("boom".into()).message())
    );
    let holder = LeaseInfo { host: "h".into(), pid: 1, at_unix_ms: 0 };
    let busy = StoreError::Busy { phase: Phase::Capture, holder: Box::new(holder) };
    assert_eq!(Error::from(busy).message(), "保管庫: capture は h（pid 1） が処理中です");
}

#[test]
fn a_run_replays_its_recording() {
    let mut browser = FakeBrowser::with_pages(4).starting_at(2);
    let mut measurer = StubMeasurer::returning(45);
    let (last, _, run) = drive(&mut browser, &mut measurer, 4_000);
    assert!(matches!(last, Ok(Action::Done(_))), "{last:?}");

    let mut nav = Navigator::with_limits(spec(), quick_limits());
    let mut replay = ReplayBrowser::new(run.record());
    let mut produced = Vec::new();
    while !replay.is_exhausted() {
        let obs = replay.observe().unwrap();
        produced.push(nav.step(&obs));
    }
    assert_eq!(run.record().diverged_from(&produced), None);
    assert_eq!(produced.len(), run.record().len());
}

#[test]
fn the_stub_counts_every_call_and_hands_out_only_what_it_was_told() {
    let mut m = StubMeasurer::returning(45).failing_after(1);
    let answers: Vec<_> = (0..3).map(|_| m.measure(b"page")).collect();
    assert_eq!(m.calls(), 3);
    assert_eq!(answers[0].as_ref().unwrap().px_per_char, 45);
    assert!(answers[1..].iter().all(|a| a.is_err()));
}

#[test]
fn a_captured_page_is_saved_as_the_browser_gave_it() {
    let mut browser = FakeBrowser::with_pages(10).starting_at(5);
    browser.observe().unwrap();
    let mut measurer = StubMeasurer::returning(45);
    let mut run = Run::new(spec(), quick_limits());
    let label = PageLabel::new(5, Some(10));
    let mut expected = vec![0x89, b'P', b'N', b'G', 0x0d, 0x0a, 0x1a, 0x0a];
    expected.extend_from_slice(&5u32.to_be_bytes());
    match run.perform(&mut browser, &mut measurer, &Action::CapturePage { label }) {
        Ok(Next::SavePage { index, png, label: l }) => {
            assert_eq!(index, 1);
            assert_eq!(png, expected);
            assert_eq!(l, label);
        }
        other => panic!("{other:?}"),
    }
    assert_eq!(measurer.calls(), 0, "capturing measures nothing");
    assert_eq!(run.perform(&mut browser, &mut measurer, &Action::MeasurePage), Ok(Next::Continue));
    assert_eq!(measurer.calls(), 1);
}
