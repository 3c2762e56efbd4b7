use kindle_exporter::browser::Error;
use kindle_exporter::cdp::{
    classify_reply, close_falls_back, font_move, menu_move, observation_from_raw, page_image_from_capture,
    pick_labelled, retries_in_new_world, CapturePayload, Endpoint, FontMove, FontSetting,
    FontStep, MenuMove, RawImage, RawObservation, Reply, TargetInfo, FONT_PRESS_LIMIT,
    base64_failure_text, Base64Failure,
};
use kindle_exporter::display::{FontControl, Theme};
use kindle_exporter::js::{
    center_of, font_only, observe, parse_theme, theme_selector, FONT, FONT_BIGGER, FONT_SMALLER,
};
use kindle_exporter::observation::TurnControls;
use kindle_exporter::page::{PageImageInfo, PageLabel};

#[test]
fn a_missing_control_reports_what_was_actually_there() {
    let e = Error::not_found(
        "ページ送りボタン",
        vec!["Next Page".to_string(), "Previous Page".to_string()],
    );
    let s = e.message();
    assert!(s.contains("ページ送りボタン"), "{s}");
    assert!(s.contains("Next Page"), "{s}");
}

#[test]
fn quotes_selectors_so_they_cannot_break_the_expression() {
    let js = center_of("#theme-White");
    assert!(js.contains(r##"querySelector("#theme-White")"##), "{js}");
    let tricky = center_of(r#"[aria-label="次のページ"]"#);
    assert!(tricky.contains(r#"\"次のページ\""#), "{tricky}");
}

#[test]
fn control_characters_in_a_selector_are_escaped() {
    let js = center_of("a\\b\n\u{1}");
    assert!(js.contains(r#"querySelector("a\\b\n\u0001")"#), "{js}");
}

#[test]
fn theme_selectors_use_language_independent_ids() {
    assert_eq!(theme_selector(Theme::White), "#theme-White");
    assert_eq!(theme_selector(Theme::Dark), "#theme-Dark");
    assert_eq!(theme_selector(Theme::Sepia), "#theme-Sepia");
    assert_eq!(theme_selector(Theme::Green), "#theme-Green");
}

#[test]
fn the_observe_expression_embeds_the_font_probe() {
    let js = observe();
    assert!(!js.contains("font: FONT"), "FONT was not replaced");
    assert!(js.contains("kr-scrubber-bar"), "the position bar is no longer left out");
}

#[test]
fn the_font_expression_wraps_the_probe() {
    assert_eq!(font_only(), format!("(() => JSON.stringify({FONT}))()"));
}

#[test]
fn reads_the_light_theme_under_both_of_its_names() {
    assert_eq!(parse_theme("White"), Some(Theme::White));
    assert_eq!(parse_theme("default"), Some(Theme::White));
    assert_eq!(parse_theme("dark"), Some(Theme::Dark));
    assert_eq!(parse_theme("Sepia"), Some(Theme::Sepia));
    assert_eq!(parse_theme("GREEN"), Some(Theme::Green));
    assert_eq!(parse_theme("なにか未知のもの"), None);
}

fn target(kind: &str, url: &str, id: &str) -> TargetInfo {
    TargetInfo { id: id.to_string(), kind: kind.to_string(), url: url.to_string() }
}

#[test]
fn attaches_to_the_first_matching_tab() {
    let targets = vec![
        target("service_worker", "https://read.amazon.co.jp/sw.js", "sw"),
        target("page", "https://example.com/", "other"),
        target("page", "https://read.amazon.co.jp/?asin=B0TESTBOOK", "reader"),
        target("page", "https://read.amazon.co.jp/library", "second"),
    ];
    let e = Endpoint::select("ws://x".to_string(), &targets, "read.amazon").unwrap();
    assert_eq!(
        e,
        Endpoint {
            browser_ws: "ws://x".to_string(),
            target_id: "reader".to_string(),
            page_url: "https://read.amazon.co.jp/?asin=B0TESTBOOK".to_string(),
        }
    );
}

#[test]
fn lists_every_target_when_no_tab_matches() {
    let targets = vec![target("page", "https://example.com/", "a"), target("iframe", "about:blank", "b")];
    let e = Endpoint::select("ws://x".to_string(), &targets, "read.amazon").unwrap_err();
    assert_eq!(
        e,
        Error::ElementNotFound {
            what: "対象のタブ",
            seen: vec!["page: https://example.com/".to_string(), "iframe: about:blank".to_string()],
        }
    );
}

fn payload(data_url: Option<&str>) -> CapturePayload {
    CapturePayload {
        error: None,
        data_url: data_url.map(|s| s.to_string()),
        width: Some(2199),
        height: Some(1692),
        source: Some("blob:a".to_string()),
    }
}

#[test]
fn decodes_the_captured_page_image() {
    let img = page_image_from_capture(payload(Some("data:image/png;base64,aGVsbG8="))).unwrap();
    assert_eq!(img.png, b"hello".to_vec());
    assert_eq!((img.width, img.height), (2199, 1692));
    assert_eq!(img.source.as_deref(), Some("blob:a"));
}

#[test]
fn a_capture_without_an_image_is_an_error() {
    assert_eq!(
        page_image_from_capture(payload(None)),
        Err(Error::NoPageImage("応答に画像が入っていません".to_string()))
    );
    assert_eq!(
        page_image_from_capture(payload(Some("no comma here"))),
        Err(Error::NoPageImage("data URL の形が想定外です".to_string()))
    );
    let failed = CapturePayload { error: Some("tainted".to_string()), ..payload(None) };
    assert_eq!(page_image_from_capture(failed), Err(Error::NoPageImage("tainted".to_string())));
}

#[test]
fn bad_base64_is_reported() {
    assert_eq!(
        page_image_from_capture(payload(Some("data:image/png;base64,@@@@"))),
        Err(Error::NoPageImage("base64 を解けません: Invalid symbol 64, offset 0.".to_string()))
    );
    assert_eq!(
        page_image_from_capture(payload(Some("data:image/png;base64,aGVsbG8"))),
        Err(Error::NoPageImage("base64 を解けません: Invalid padding".to_string()))
    );
}

#[test]
fn base64_failures_are_worded_as_the_crate_words_them() {
    assert_eq!(
        base64_failure_text(Base64Failure::InvalidLength { length: 5 }),
        "Invalid input length: 5"
    );
    assert_eq!(
        base64_failure_text(Base64Failure::InvalidLastSymbol { offset: 3, byte: 66 }),
        "Invalid last symbol 66, offset 3."
    );
}

fn raw() -> RawObservation {
    RawObservation {
        label: Some("33/431ページ ● 6%".to_string()),
        image: Some(RawImage {
            source: Some("blob:a".to_string()),
            natural_width: 1501,
            natural_height: 1692,
            complete: true,
        }),
        settings_menu_open: true,
        font: Some(FontControl::new(5, 13)),
        theme: Some("default".to_string()),
        chevrons: vec![Some("Next page".to_string()), Some("Previous page".to_string())],
    }
}

#[test]
fn reads_an_observation_from_the_script_answer() {
    let o = observation_from_raw(raw(), 250);
    assert_eq!(o.elapsed_ms, 250);
    assert_eq!(o.page, Some(PageLabel::new(33, Some(431))));
    assert_eq!(o.image, Some(PageImageInfo::ready(1501, 1692).with_source("blob:a")));
    assert!(o.settings_menu_open);
    assert_eq!(o.font, Some(FontControl::new(5, 13)));
    assert_eq!(o.theme, Some(Theme::White));
    assert_eq!(o.turn_controls, Some(TurnControls::both()));
    assert_eq!(o.metrics, None);
}

#[test]
fn the_ends_show_as_missing_buttons() {
    let end = observation_from_raw(
        RawObservation { chevrons: vec![Some("Previous page".to_string())], ..raw() },
        0,
    );
    assert_eq!(end.turn_controls, Some(TurnControls::at_end()));
    let unseen = observation_from_raw(RawObservation { chevrons: vec![], ..raw() }, 0);
    assert_eq!(unseen.turn_controls, None);
}

#[test]
fn picks_the_first_button_with_a_known_label() {
    let arias = vec!["Close".to_string(), "Reader settings".to_string(), "Aa".to_string()];
    assert_eq!(pick_labelled(&arias, &["Aa", "Reader settings"]), Some(1));
    assert_eq!(pick_labelled(&arias, &["Nope"]), None);
}

#[test]
fn moves_the_font_towards_the_wanted_step() {
    assert_eq!(font_move(None, 3), FontMove::Missing);
    assert_eq!(font_move(Some(FontControl::new(5, 13)), 5), FontMove::Reached);
    assert_eq!(font_move(Some(FontControl::new(5, 13)), 9), FontMove::Bigger);
    assert_eq!(font_move(Some(FontControl::new(5, 13)), 2), FontMove::Smaller);
    assert_eq!(font_move(Some(FontControl::new(13, 13)), 99), FontMove::Reached);
}

#[test]
fn sets_the_font_by_pressing_towards_the_wanted_step() {
    let mut s = FontSetting::new(9);
    assert!(s.may_read());
    assert_eq!(s.on_font(Some(FontControl::new(5, 13))), FontStep::Press(FONT_BIGGER));
    assert_eq!(s.on_font(Some(FontControl::new(10, 13))), FontStep::Press(FONT_SMALLER));
    assert_eq!(s.on_font(Some(FontControl::new(9, 13))), FontStep::Reached);
    assert_eq!(s.reads, 3);
    assert_eq!(s.last, Some(9));

    let mut missing = FontSetting::new(3);
    assert_eq!(
        missing.on_font(None),
        FontStep::Failed(Error::ElementNotFound { what: "フォントサイズのスライダー", seen: vec![] })
    );

    let mut stuck = FontSetting::new(9);
    let mut reads = 0;
    while stuck.may_read() {
        assert_eq!(stuck.on_font(Some(FontControl::new(5, 13))), FontStep::Press(FONT_BIGGER));
        reads += 1;
    }
    assert_eq!(reads, FONT_PRESS_LIMIT);
    assert_eq!(
        stuck.rejected(),
        Error::SettingRejected { what: "フォントサイズ", wanted: "9".into(), got: "5".into() }
    );
    assert_eq!(
        FontSetting::new(2).rejected(),
        Error::SettingRejected { what: "フォントサイズ", wanted: "2".into(), got: "不明".into() }
    );
}

#[test]
fn brings_the_menu_to_the_wanted_state() {
    assert_eq!(menu_move(true, true), MenuMove::Nothing);
    assert_eq!(menu_move(false, false), MenuMove::Nothing);
    assert_eq!(menu_move(false, true), MenuMove::OpenByLabel);
    assert_eq!(menu_move(true, false), MenuMove::Close);
    assert!(close_falls_back(&Error::not_found("x", vec![])));
    assert!(!close_falls_back(&Error::Script("x".into())));
    assert!(retries_in_new_world(&Error::Script("x".into())));
    assert!(retries_in_new_world(&Error::Protocol { method: "m".into(), message: "x".into() }));
    assert!(!retries_in_new_world(&Error::Transport("x".into())));
}

#[test]
fn only_the_answer_to_the_call_counts() {
    assert_eq!(classify_reply(None, 3, "Page.navigate", None), Reply::Other);
    assert_eq!(classify_reply(Some(2), 3, "Page.navigate", Some("x".into())), Reply::Other);
    assert_eq!(classify_reply(Some(3), 3, "Page.navigate", None), Reply::Answer);
    assert_eq!(
        classify_reply(Some(3), 3, "Page.navigate", Some("{\"code\":-32000}".into())),
        Reply::Failed(Error::Protocol {
            method: "Page.navigate".into(),
            message: "{\"code\":-32000}".into()
        })
    );
}

#[test]
fn buttons_without_a_known_label_tell_nothing_of_the_ends() {
    let unknown = observation_from_raw(
        RawObservation { chevrons: vec![Some("Weiter".to_string()), None], ..raw() },
        0,
    );
    assert_eq!(unknown.turn_controls, None);
    assert!(!unknown.at_end_of_book());
    let start = observation_from_raw(
        RawObservation { chevrons: vec![None, Some("Next page".to_string())], ..raw() },
        0,
    );
    assert_eq!(start.turn_controls, Some(TurnControls::at_start()));
}
