use kindle_exporter::action::{Action, Failure, Summary, WaitReason};
use kindle_exporter::book::{Asin, AsinError, BookSpec};
use kindle_exporter::display::{DisplayTarget, FontControl, Theme};
use kindle_exporter::observation::{Observation, TurnControls};
use kindle_exporter::page::{LabelKind, PageImageInfo, PageLabel, PageMetrics};
use kindle_exporter::phase::{Capability, Phase, ALL_PHASES};

#[test]
fn only_done_and_fail_are_terminal() {
    let done = Summary { captured_pages: 1, px_per_char: Some(45), end_confirmed: true };
    assert!(Action::Done(done).is_terminal());
    assert!(Action::Fail(Failure::SettingsMenuUnavailable).is_terminal());
    assert!(!Action::PressNext.is_terminal());
    assert!(!Action::Wait { ms: 100, reason: WaitReason::PageTurn }.is_terminal());
}

#[test]
fn accepts_a_well_formed_asin_and_uppercases_it() {
    let a = Asin::new("b0bqqsqt86").unwrap();
    assert_eq!(a.as_str(), "B0BQQSQT86");
    assert_eq!(a.reader_url(), "https://read.amazon.co.jp/?asin=B0BQQSQT86");
}

#[test]
fn rejects_malformed_asins() {
    assert_eq!(Asin::new(""), Err(AsinError::Empty));
    assert_eq!(Asin::new("B0BQ/SQT86"), Err(AsinError::NotAlphanumeric));
    assert_eq!(Asin::new("B0BQ"), Err(AsinError::BadLength(4)));
}

#[test]
fn rejects_url_injection_attempts() {
    for bad in ["B0BQ&x=1AB", "B0BQ?x=1AB", "B0BQ#fragAB", "B0BQ AB1234"] {
        assert!(Asin::new(bad).is_err(), "{bad} must be refused");
    }
}

#[test]
fn asin_errors_explain_themselves() {
    assert_eq!(AsinError::Empty.message(), "ASIN が空です");
    assert_eq!(AsinError::NotAlphanumeric.message(), "ASIN に英数字以外が含まれています");
    assert_eq!(AsinError::BadLength(4).message(), "ASIN は 10 文字である必要があります（4 文字）");
}

#[test]
fn a_book_spec_keeps_its_asin_and_title() {
    let spec = BookSpec::new(Asin::new("B0BQQSQT86").unwrap(), "テスト本");
    assert_eq!(spec.asin.as_str(), "B0BQQSQT86");
    assert_eq!(spec.title, "テスト本");
    assert_eq!(spec.clone(), spec);
}

#[test]
fn the_default_target_is_the_balanced_preset() {
    assert_eq!(DisplayTarget::default(), DisplayTarget::balanced());
    assert_eq!(DisplayTarget::default().theme, Theme::White);
}

#[test]
fn classifies_measurements_against_the_target() {
    let t = DisplayTarget::balanced();
    assert!(t.needs_larger(27));
    assert!(t.is_satisfied_by(45));
    assert!(!t.is_satisfied_by(51));
    assert!(!t.needs_larger(51));
}

#[test]
fn the_ruby_preset_accepts_the_largest_measured_setting() {
    assert!(DisplayTarget::ruby_first().is_satisfied_by(51));
}

#[test]
fn the_fast_preset_accepts_the_smallest_measured_setting() {
    assert!(DisplayTarget::fast().is_satisfied_by(27));
}

#[test]
fn clamps_font_steps_to_what_the_reader_offers() {
    let f = FontControl::new(5, 13);
    assert_eq!(f.clamp(8), 8);
    assert_eq!(f.clamp(13), 13);
    assert_eq!(f.clamp(99), 13, "a step the reader lacks becomes the largest one");
}

#[test]
fn the_default_theme_is_white() {
    assert_eq!(Theme::default(), Theme::White);
}

#[test]
fn a_book_is_ready_once_its_page_image_is_usable() {
    let mut o = Observation::default();
    assert!(!o.is_book_ready());

    o.image = Some(PageImageInfo { complete: false, ..PageImageInfo::ready(1501, 1692) });
    assert!(!o.is_book_ready(), "an image still loading is not ready");

    o.image = Some(PageImageInfo::ready(1501, 1692));
    assert!(o.is_book_ready());
}

#[test]
fn readiness_does_not_require_a_page_label() {
    let o = Observation {
        page: None,
        image: Some(PageImageInfo::ready(1501, 1692)),
        ..Observation::default()
    };
    assert!(o.is_book_ready());
}

#[test]
fn settings_need_both_an_open_menu_and_a_visible_control() {
    let mut o = Observation::default();
    assert!(!o.can_change_settings());
    o.settings_menu_open = true;
    assert!(!o.can_change_settings());
    o.font = Some(FontControl::new(5, 13));
    assert!(o.can_change_settings());
}

fn at(page: Option<PageLabel>, blob: &str) -> Observation {
    Observation {
        page,
        image: Some(PageImageInfo::ready(1501, 1692).with_source(blob)),
        ..Observation::default()
    }
}

#[test]
fn uses_the_page_label_to_detect_advancement() {
    let a = at(Some(PageLabel::new(33, Some(431))), "blob:same");
    let b = at(Some(PageLabel::new(34, Some(431))), "blob:same");
    assert!(b.advanced_from(&a));
    assert!(!a.advanced_from(&a.clone()));
}

#[test]
fn falls_back_to_the_image_source_without_a_page_label() {
    let a = at(None, "blob:aaa");
    let b = at(None, "blob:bbb");
    assert!(b.advanced_from(&a));
    assert!(!a.advanced_from(&at(None, "blob:aaa")));
}

#[test]
fn reports_no_advancement_when_nothing_is_observable() {
    let empty = Observation::default();
    assert!(!empty.advanced_from(&Observation::default()));
}

#[test]
fn the_ends_of_a_book_are_only_claimed_when_actually_observed() {
    let unknown = Observation::default();
    assert!(!unknown.at_end_of_book(), "what was not observed is not the end");
    assert!(!unknown.at_start_of_book());

    let middle = Observation { turn_controls: Some(TurnControls::both()), ..unknown.clone() };
    assert!(!middle.at_end_of_book());
    assert!(!middle.at_start_of_book());

    let end = Observation { turn_controls: Some(TurnControls::at_end()), ..unknown.clone() };
    assert!(end.at_end_of_book());
    assert!(!end.at_start_of_book());

    let start = Observation { turn_controls: Some(TurnControls::at_start()), ..unknown };
    assert!(start.at_start_of_book());
    assert!(!start.at_end_of_book());
}

#[test]
fn an_observation_clones_to_an_equal_one() {
    let o = Observation {
        elapsed_ms: 250,
        page: Some(PageLabel::at_location(9783, Some(10167))),
        image: Some(PageImageInfo::ready(2199, 1692).with_source("blob:x")),
        settings_menu_open: true,
        font: Some(FontControl::new(5, 13)),
        theme: Some(Theme::White),
        turn_controls: Some(TurnControls::both()),
        metrics: Some(PageMetrics { px_per_char: 45, chars: 536 }),
    };
    assert_eq!(o.clone(), o);
}

#[test]
fn parses_the_reader_footer() {
    let l = PageLabel::parse("33/431ページ ● 6%").unwrap();
    assert_eq!(l, PageLabel::new(33, Some(431)));
    assert_eq!(l.text(), "33/431ページ");
}

#[test]
fn parses_the_location_style_footer() {
    let l = PageLabel::parse("位置9783/10167\u{2002}●\u{2002}96%").unwrap();
    assert_eq!(l, PageLabel::at_location(9783, Some(10167)));
    assert_eq!(l.text(), "位置9783/10167");
}

#[test]
fn only_page_numbers_can_confirm_the_end_of_a_book() {
    assert!(PageLabel::new(33, Some(431)).can_confirm_end());
    assert!(!PageLabel::at_location(9783, Some(10167)).can_confirm_end());
    assert!(!PageLabel::new(33, None).can_confirm_end());
}

#[test]
fn parses_labels_with_thousands_separators() {
    let l = PageLabel::parse("1,234/5,678ページ").unwrap();
    assert_eq!(l, PageLabel::new(1234, Some(5678)));
}

#[test]
fn returns_none_for_text_without_a_position() {
    assert!(PageLabel::parse("読書速度を学習中...").is_none());
    assert!(PageLabel::parse("").is_none());
}

#[test]
fn parses_a_label_without_a_total() {
    assert_eq!(PageLabel::parse("ページ 12"), None);
    let l = PageLabel::parse("12/ ページ").unwrap();
    assert_eq!(l, PageLabel { current: 12, total: None, kind: LabelKind::Page });
}

#[test]
fn prints_a_label_without_a_total() {
    assert_eq!(PageLabel::new(7, None).text(), "7ページ");
    assert_eq!(PageLabel::at_location(7, None).text(), "位置7");
}

#[test]
fn detects_first_and_last_pages() {
    assert!(PageLabel::new(1, Some(431)).is_first());
    assert!(!PageLabel::new(2, Some(431)).is_first());
    assert!(PageLabel::new(431, Some(431)).is_last());
    assert!(!PageLabel::new(430, Some(431)).is_last());
    assert!(!PageLabel::new(430, None).is_last());
}

#[test]
fn an_incomplete_image_is_not_usable() {
    assert!(PageImageInfo::ready(1501, 1692).is_usable());
    assert!(!PageImageInfo { complete: false, ..PageImageInfo::ready(1501, 1692) }.is_usable());
    assert!(!PageImageInfo::ready(0, 1692).is_usable());
}

#[test]
fn detects_a_different_page_by_its_blob_url() {
    let a = PageImageInfo::ready(1501, 1692).with_source("blob:https://read.amazon.co.jp/aaa");
    let b = PageImageInfo::ready(1501, 1692).with_source("blob:https://read.amazon.co.jp/bbb");
    assert!(a.differs_from(&b));
    assert!(!a.differs_from(&a.clone()));
}

#[test]
fn cannot_tell_pages_apart_without_a_source() {
    let known = PageImageInfo::ready(1501, 1692).with_source("blob:x");
    let unknown = PageImageInfo::ready(1501, 1692);
    assert!(!known.differs_from(&unknown));
    assert!(!unknown.differs_from(&known));
}

#[test]
fn phases_are_ordered_as_the_workflow_runs() {
    let mut sorted = ALL_PHASES;
    sorted.sort_unstable();
    assert_eq!(sorted, ALL_PHASES);
}

#[test]
fn every_phase_has_a_unique_slug() {
    let mut slugs: Vec<_> = ALL_PHASES.iter().map(|p| p.slug()).collect();
    slugs.sort_unstable();
    let before = slugs.len();
    slugs.dedup();
    assert_eq!(slugs.len(), before);
}

#[test]
fn browser_phases_are_capture_side_and_gpu_phases_are_ocr_side() {
    assert_eq!(Phase::Open.capability(), Capability::Browser);
    assert_eq!(Phase::Capture.capability(), Capability::Browser);
    assert_eq!(Phase::Ocr.capability(), Capability::Gpu);
    assert_eq!(Phase::Proofread.capability(), Capability::Gpu);
}

#[test]
fn predecessors_form_a_single_chain() {
    assert_eq!(Phase::Plan.predecessor(), None);
    assert_eq!(Phase::Capture.predecessor(), Some(Phase::Open));
    assert_eq!(Phase::Assemble.predecessor(), Some(Phase::Proofread));
}

#[test]
fn there_is_no_trim_phase() {
    assert!(!ALL_PHASES.iter().any(|p| p.slug() == "trim"));
    assert_eq!(Phase::Ocr.predecessor(), Some(Phase::Validate));
}

#[test]
fn each_phase_knows_its_place_and_slug() {
    for (i, p) in ALL_PHASES.iter().enumerate() {
        assert_eq!(p.index(), i);
    }
    assert_eq!(Phase::Capture.slug(), "capture");
    for w in ALL_PHASES.windows(2) {
        assert_eq!(w[1].predecessor(), Some(w[0]));
    }
}

#[test]
fn a_label_with_a_total_reads_back_from_its_text() {
    for l in [
        PageLabel::new(1, Some(1)),
        PageLabel::new(33, Some(431)),
        PageLabel::at_location(9783, Some(10167)),
        PageLabel::new(0, Some(u32::MAX)),
    ] {
        assert_eq!(PageLabel::parse(&l.text()), Some(l));
    }
}

#[test]
fn an_asin_reads_back_from_its_text() {
    let a = Asin::new("b0bqqsqt86").unwrap();
    assert_eq!(Asin::new(a.as_str()), Ok(a.clone()));
}
