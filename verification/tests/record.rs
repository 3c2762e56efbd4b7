use kindle_exporter::action::{Action, WaitReason};
use kindle_exporter::browser::Browser;
use kindle_exporter::observation::Observation;
use kindle_exporter::page::{PageImageInfo, PageLabel};
use kindle_exporter::record::{ReplayBrowser, Session};

fn sample() -> Session {
    let mut s = Session::new();
    s.push(
        Observation::default(),
        Action::OpenBook { url: "https://read.amazon.co.jp/?asin=B0REALBOOK".into() },
    );
    s.push(
        Observation { elapsed_ms: 1_000, ..Observation::default() },
        Action::Wait { ms: 1_000, reason: WaitReason::BookLoading },
    );
    s.push(
        Observation {
            image: Some(PageImageInfo::ready(2199, 1692).with_source("blob:a")),
            page: Some(PageLabel::at_location(1, Some(10_167))),
            ..Observation::default()
        },
        Action::CapturePage { label: PageLabel::at_location(1, Some(10_167)) },
    );
    s
}

#[test]
fn hides_the_book_it_was_recorded_from() {
    let redacted = sample().redacted();
    let text = format!("{:?}", redacted.steps());
    assert!(!text.contains("B0REALBOOK"), "the real ASIN is still there");
    assert!(text.contains("B0TESTBOOK"));
    assert_eq!(redacted.len(), sample().len());
    assert!(text.contains("10167"), "observations must not be dropped");
}

#[test]
fn the_redacted_copy_points_to_a_stand_in_book() {
    let original = sample();
    let redacted = original.redacted();
    assert_eq!(redacted.len(), original.len());
    assert_eq!(
        redacted.steps()[0].action,
        Action::OpenBook { url: "https://read.amazon.co.jp/?asin=B0TESTBOOK".into() }
    );
    for (a, b) in redacted.steps().iter().zip(original.steps()) {
        assert_eq!(a.observation, b.observation, "observations must stay");
    }
    assert_eq!(redacted.steps()[2].action, original.steps()[2].action);
}

#[test]
fn reports_where_the_decisions_started_to_differ() {
    let session = sample();
    let same: Vec<Action> = session.actions().into_iter().cloned().collect();
    assert_eq!(session.diverged_from(&same), None);

    let mut changed = same.clone();
    changed[1] = Action::PressNext;
    let d = session.diverged_from(&changed).expect("the divergence is found");
    assert_eq!(d.at, 1);
    assert_eq!(d.produced, Action::PressNext);
    assert!(d.message().contains("2 手目"), "{}", d.message());
}

#[test]
fn a_divergence_message_shows_both_actions() {
    let session = sample();
    let mut changed: Vec<Action> = session.actions().into_iter().cloned().collect();
    changed[2] = Action::PressNext;
    let d = session.diverged_from(&changed).unwrap();
    assert_eq!(
        d.message(),
        format!("3 手目で判断が変わりました: 記録は {:?} / いまは {:?}", d.recorded, d.produced)
    );
}

#[test]
fn a_shorter_run_counts_as_a_divergence() {
    let session = sample();
    let cut: Vec<Action> = session.actions().into_iter().take(1).cloned().collect();
    assert_eq!(session.diverged_from(&cut).map(|d| d.at), Some(1));
}

#[test]
fn moves_past_the_end_of_the_recording_are_not_compared() {
    let session = sample();
    let mut longer: Vec<Action> = session.actions().into_iter().cloned().collect();
    longer.push(Action::PressNext);
    assert_eq!(session.diverged_from(&longer), None);
}

#[test]
fn replays_the_recorded_observations_in_order() {
    let session = sample();
    let mut browser = ReplayBrowser::new(&session);

    for expected in session.observations() {
        assert_eq!(&browser.observe().unwrap(), expected);
    }
    assert!(browser.is_exhausted());
    assert!(browser.observe().is_err(), "an exhausted replay does not repeat itself");
}

#[test]
fn replay_returns_page_dimensions_but_no_content() {
    let session = sample();
    let mut browser = ReplayBrowser::new(&session);
    for _ in 0..3 {
        browser.observe().unwrap();
    }
    let image = browser.capture_page().unwrap();
    assert_eq!((image.width, image.height), (2199, 1692));
    assert!(image.png.is_empty(), "the book's content is neither recorded nor replayed");
    assert_eq!(image.source.as_deref(), Some("blob:a"));
}

#[test]
fn an_empty_recording_is_empty() {
    let s = Session::new();
    assert!(s.is_empty());
    assert_eq!(s.len(), 0);
    assert!(ReplayBrowser::new(&s).is_exhausted());
}
