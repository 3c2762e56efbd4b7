//! What the driver of the real reader decides, apart from the protocol plumbing:
//! which tab to attach to, which message answers a call, how an observation and
//! a fetched page image are read from the answers of the page scripts, which
//! button to press, and how the font and the settings menu are brought to the
//! state wanted.
use vstd::prelude::*;
use base64::Engine;
use vstd::string::*;
use vstd::utf8::encode_utf8;
use crate::browser::{Error, PageImage};
use crate::display::{FontControl, Theme};
use crate::js::{
    is_direction_label, next_label_views, parse_theme, prev_label_views, spec_parse_theme,
    FONT_BIGGER, FONT_SMALLER,
};
use crate::observation::{Observation, TurnControls};
use crate::page::{first_index_from, first_index_of, spec_parse, PageImageInfo, PageLabel};
use crate::text::{
    chars_contain, chars_of, contains_seq, decimal, decimal_string, join2, join3, str_eq,
};

verus! {

/// Where to connect.
#[derive(Debug, PartialEq, Eq)]
pub struct Endpoint {
    /// The WebSocket URL of the whole browser.
    pub browser_ws: String,
    /// The target id of the tab to drive.
    pub target_id: String,
    /// The URL of that tab (for the log).
    pub page_url: String,
}

/// One target that the debugging endpoint lists.
#[derive(Debug, PartialEq, Eq)]
pub struct TargetInfo {
    /// The target id.
    pub id: String,
    /// The kind of target (`page`, `service_worker`, ...).
    pub kind: String,
    /// Its URL.
    pub url: String,
}

/// A target is a tab whose URL holds `url_contains`.
pub open spec fn target_matches(t: TargetInfo, url_contains: Seq<char>) -> bool {
    t.kind@ == "page"@ && contains_seq(t.url@, url_contains)
}

/// How a target is listed when none matches.
pub open spec fn target_line(t: TargetInfo) -> Seq<char> {
    t.kind@ + ": "@ + t.url@
}

impl Endpoint {
    /// Picks the first tab whose URL holds `url_contains` among the targets that
    /// the endpoint lists. When there is none, the error lists every target seen.
    pub fn select(browser_ws: String, targets: &Vec<TargetInfo>, url_contains: &str) -> (r: Result<
        Endpoint,
        Error,
    >)
        ensures
            (exists|i: int| 0 <= i < targets@.len() && target_matches(targets@[i], url_contains@))
                ==> (r matches Ok(e) && (exists|i: int|
                0 <= i < targets@.len() && target_matches(targets@[i], url_contains@) && (forall|
                    k: int,
                | 0 <= k < i ==> !target_matches(targets@[k], url_contains@)) && e.target_id@
                    == targets@[i].id@ && e.page_url@ == targets@[i].url@) && e.browser_ws
                == browser_ws),
            !(exists|i: int| 0 <= i < targets@.len() && target_matches(targets@[i], url_contains@))
                ==> (r matches Err(Error::ElementNotFound { what, seen }) && what@ == "対象のタブ"@
                && seen@.len() == targets@.len() && forall|i: int|
                0 <= i < seen@.len() ==> #[trigger] seen@[i]@ == target_line(targets@[i])),
    {
        let needle = chars_of(url_contains);
        let page = chars_of("page");
        let mut i: usize = 0;
        while i < targets.len()
            invariant
                i <= targets@.len(),
                needle@ == url_contains@,
                page@ == "page"@,
                forall|k: int| 0 <= k < i ==> !target_matches(targets@[k], url_contains@),
            decreases targets.len() - i,
        {
            let t = &targets[i];
            let kind = chars_of(t.kind.as_str());
            let url = chars_of(t.url.as_str());
            if crate::text::same_chars(&kind, &page) && chars_contain(&url, &needle) {
                return Ok(
                    Endpoint { browser_ws, target_id: t.id.clone(), page_url: t.url.clone() },
                );
            }
            i = i + 1;
        }
        let mut seen: Vec<String> = Vec::new();
        let mut j: usize = 0;
        while j < targets.len()
            invariant
                j <= targets@.len(),
                seen@.len() == j,
                forall|k: int| 0 <= k < j ==> #[trigger] seen@[k]@ == target_line(targets@[k]),
            decreases targets.len() - j,
        {
            let t = &targets[j];
            seen.push(join3(t.kind.as_str(), ": ", t.url.as_str()));
            j = j + 1;
        }
        Err(Error::not_found("対象のタブ", seen))
    }
}

/// What the capture script answered.
#[derive(Debug, PartialEq, Eq)]
pub struct CapturePayload {
    /// What went wrong inside the page.
    pub error: Option<String>,
    /// The image as a `data:image/png;base64,...` URL.
    pub data_url: Option<String>,
    /// The natural width.
    pub width: Option<u32>,
    /// The natural height.
    pub height: Option<u32>,
    /// Where the image came from.
    pub source: Option<String>,
}

/// Why standard base64 could not be decoded, as the base64 crate reports it.
#[derive(Debug, Clone, Copy, PartialEq, Eq, Structural)]
pub enum Base64Failure {
    /// A byte that is not in the alphabet (or padding in the middle).
    InvalidByte {
        /// Where.
        offset: usize,
        /// The byte.
        byte: u8,
    },
    /// The number of symbols cannot be decoded.
    InvalidLength {
        /// The number of symbols.
        length: usize,
    },
    /// The last symbol has bits set that decoding would drop.
    InvalidLastSymbol {
        /// Where.
        offset: usize,
        /// The byte.
        byte: u8,
    },
    /// The padding is missing or wrong.
    InvalidPadding,
}

/// What standard base64 (with padding) makes of `input`: the decoded bytes, or
/// why it is not valid standard base64.
pub uninterp spec fn base64_standard_decode(input: Seq<u8>) -> Result<Seq<u8>, Base64Failure>;

/// Decodes standard base64.
///
/// Trusted: calls `base64::engine::general_purpose::STANDARD.decode` and takes
/// its `DecodeError` apart variant by variant. The result depends on the input
/// alone, so it is named.
#[verifier::external_body]
fn decode_base64(input: &[u8]) -> (r: Result<Vec<u8>, Base64Failure>)
    ensures
        match r {
            Ok(v) => base64_standard_decode(input@) == Ok::<Seq<u8>, Base64Failure>(v@),
            Err(f) => base64_standard_decode(input@) == Err::<Seq<u8>, Base64Failure>(f),
        },
{
    match base64::engine::general_purpose::STANDARD.decode(input) {
        Ok(v) => Ok(v),
        Err(base64::DecodeError::InvalidByte(offset, byte)) => {
            Err(Base64Failure::InvalidByte { offset, byte })
        },
        Err(base64::DecodeError::InvalidLength(length)) => {
            Err(Base64Failure::InvalidLength { length })
        },
        Err(base64::DecodeError::InvalidLastSymbol(offset, byte)) => {
            Err(Base64Failure::InvalidLastSymbol { offset, byte })
        },
        Err(base64::DecodeError::InvalidPadding) => Err(Base64Failure::InvalidPadding),
    }
}

/// How the base64 crate words a failure (its `Display` of `DecodeError`).
pub open spec fn base64_failure_message(f: Base64Failure) -> Seq<char> {
    match f {
        Base64Failure::InvalidByte { offset, byte } => "Invalid symbol "@ + decimal(byte as nat)
            + ", offset "@ + decimal(offset as nat) + "."@,
        Base64Failure::InvalidLength { length } => "Invalid input length: "@ + decimal(
            length as nat,
        ),
        Base64Failure::InvalidLastSymbol { offset, byte } => "Invalid last symbol "@ + decimal(
            byte as nat,
        ) + ", offset "@ + decimal(offset as nat) + "."@,
        Base64Failure::InvalidPadding => "Invalid padding"@,
    }
}

/// The words of a base64 failure, as the base64 crate puts them.
pub fn base64_failure_text(f: Base64Failure) -> (s: String)
    ensures
        s@ == base64_failure_message(f),
{
    match f {
        Base64Failure::InvalidByte { offset, byte } => {
            let b = decimal_string(byte as u64);
            let o = decimal_string(offset as u64);
            let mut s = join3("Invalid symbol ", b.as_str(), ", offset ");
            s.append(o.as_str());
            s.append(".");
            s
        },
        Base64Failure::InvalidLength { length } => {
            let n = decimal_string(length as u64);
            join2("Invalid input length: ", n.as_str())
        },
        Base64Failure::InvalidLastSymbol { offset, byte } => {
            let b = decimal_string(byte as u64);
            let o = decimal_string(offset as u64);
            let mut s = join3("Invalid last symbol ", b.as_str(), ", offset ");
            s.append(o.as_str());
            s.append(".");
            s
        },
        Base64Failure::InvalidPadding => String::from_str("Invalid padding"),
    }
}

/// What stands after the first `,` of `s`, or `None` when there is none.
pub open spec fn after_first_comma(s: Seq<char>) -> Option<Seq<char>> {
    let j = first_index_from(s, ',', 0);
    if j >= s.len() {
        None
    } else {
        Some(s.subrange(j + 1, s.len() as int))
    }
}

/// The prefix of the message when base64 cannot be decoded.
pub open spec fn undecodable_prefix() -> Seq<char> {
    "base64 を解けません: "@
}

/// What a capture answer gives: the page's own error; otherwise the PNG decoded
/// from the data URL, with the size and source that came with it.
pub open spec fn capture_result_fits(p: CapturePayload, r: Result<PageImage, Error>) -> bool {
    match p.error {
        Some(m) => r == Err::<PageImage, Error>(Error::NoPageImage(m)),
        None => match (p.data_url, p.width, p.height) {
            (Some(url), Some(width), Some(height)) => match after_first_comma(url@) {
                None => r matches Err(Error::NoPageImage(m)) && m@ == "data URL の形が想定外です"@,
                Some(encoded) => match base64_standard_decode(encode_utf8(encoded)) {
                    Err(f) => r matches Err(Error::NoPageImage(m)) && m@ == undecodable_prefix()
                        + base64_failure_message(f),
                    Ok(png) => r matches Ok(img) && img.png@ == png && img.width == width
                        && img.height == height && img.source == p.source,
                },
            },
            _ => r matches Err(Error::NoPageImage(m)) && m@ == "応答に画像が入っていません"@,
        },
    }
}

/// Reads the answer of the capture script.
pub fn page_image_from_capture(p: CapturePayload) -> (r: Result<PageImage, Error>)
    ensures
        capture_result_fits(p, r),
{
    let ghost q = p;
    if let Some(m) = p.error {
        return Err(Error::NoPageImage(m));
    }
    let (url, width, height) = match (p.data_url, p.width, p.height) {
        (Some(url), Some(width), Some(height)) => (url, width, height),
        _ => {
            return Err(Error::NoPageImage(String::from_str("応答に画像が入っていません")));
        },
    };
    let c = chars_of(url.as_str());
    let i = first_index_of(&c, ',', 0);
    if i >= c.len() {
        return Err(Error::NoPageImage(String::from_str("data URL の形が想定外です")));
    }
    let encoded = url.as_str().substring_char(i + 1, c.len());
    let bytes = encoded.as_bytes();
    match decode_base64(bytes) {
        Ok(png) => Ok(PageImage { png, width, height, source: p.source }),
        Err(f) => {
            let detail = base64_failure_text(f);
            let m = join2("base64 を解けません: ", detail.as_str());
            Err(Error::NoPageImage(m))
        },
    }
}

/// The page image part of an observation script's answer.
#[derive(Debug, PartialEq, Eq)]
pub struct RawImage {
    /// Where the image came from.
    pub source: Option<String>,
    /// The natural width.
    pub natural_width: u32,
    /// The natural height.
    pub natural_height: u32,
    /// The image has finished loading.
    pub complete: bool,
}

/// What the observation script answered.
#[derive(Debug, PartialEq, Eq)]
pub struct RawObservation {
    /// The footer text that holds the position.
    pub label: Option<String>,
    /// The page image.
    pub image: Option<RawImage>,
    /// The settings menu is open.
    pub settings_menu_open: bool,
    /// The font control.
    pub font: Option<FontControl>,
    /// The theme name.
    pub theme: Option<String>,
    /// The `aria-label`s of the page-turn buttons present in the DOM.
    pub chevrons: Vec<Option<String>>,
}

/// One of the page-turn buttons has one of `labels`.
pub open spec fn any_labelled(chevrons: Seq<Option<String>>, labels: Seq<Seq<char>>) -> bool {
    exists|i: int| 0 <= i < chevrons.len() && (#[trigger] chevrons[i] matches Some(a) && labels.contains(a@))
}

/// Whether one of the page-turn buttons has a "next" label (`next`) or a
/// "previous" one.
fn has_labelled(chevrons: &Vec<Option<String>>, next: bool) -> (b: bool)
    ensures
        b == any_labelled(chevrons@, if next { next_label_views() } else { prev_label_views() }),
{
    let ghost labels = if next { next_label_views() } else { prev_label_views() };
    let mut i: usize = 0;
    while i < chevrons.len()
        invariant
            i <= chevrons@.len(),
            labels == (if next { next_label_views() } else { prev_label_views() }),
            forall|a: int| 0 <= a < i ==> !(#[trigger] chevrons@[a] matches Some(x) && labels.contains(x@)),
        decreases chevrons.len() - i,
    {
        match &chevrons[i] {
            Some(a) => {
                if is_direction_label(a.as_str(), next) {
                    assert(chevrons@[i as int] matches Some(x) && labels.contains(x@));
                    return true;
                }
            },
            None => {},
        }
        i = i + 1;
    }
    false
}

/// The page-turn controls that the list of buttons present shows: whether a
/// "next" and a "previous" button is there, known by their labels. When no
/// button with a known label is present nothing is known of the controls, so
/// none are reported: an end of the book is claimed only from a known button
/// seen while the other one is gone.
pub open spec fn spec_controls(chevrons: Seq<Option<String>>) -> Option<TurnControls> {
    let next = any_labelled(chevrons, next_label_views());
    let prev = any_labelled(chevrons, prev_label_views());
    if next || prev {
        Some(TurnControls { next, prev })
    } else {
        None
    }
}

/// An observation from the answer of the observation script.
pub fn observation_from_raw(raw: RawObservation, elapsed_ms: u64) -> (o: Observation)
    ensures
        o.elapsed_ms == elapsed_ms,
        o.page == (match raw.label {
            Some(l) => spec_parse(l@),
            None => None,
        }),
        match raw.image {
            Some(i) => o.image == Some(
                PageImageInfo {
                    source: i.source,
                    natural_width: i.natural_width,
                    natural_height: i.natural_height,
                    complete: i.complete,
                },
            ),
            None => o.image is None,
        },
        o.settings_menu_open == raw.settings_menu_open,
        o.font == raw.font,
        o.theme == (match raw.theme {
            Some(t) => spec_parse_theme(t@),
            None => None,
        }),
        o.turn_controls == spec_controls(raw.chevrons@),
        o.metrics is None,
{
    let page = match &raw.label {
        Some(l) => PageLabel::parse(l.as_str()),
        None => None,
    };
    let theme = match &raw.theme {
        Some(t) => parse_theme(t.as_str()),
        None => None,
    };
    let next = has_labelled(&raw.chevrons, true);
    let prev = has_labelled(&raw.chevrons, false);
    let turn_controls = if next || prev {
        Some(TurnControls { next, prev })
    } else {
        None
    };
    let image = match raw.image {
        Some(i) => Some(
            PageImageInfo {
                source: i.source,
                natural_width: i.natural_width,
                natural_height: i.natural_height,
                complete: i.complete,
            },
        ),
        None => None,
    };
    Observation {
        elapsed_ms,
        page,
        image,
        settings_menu_open: raw.settings_menu_open,
        font: raw.font,
        theme,
        turn_controls,
        // Pixels per character are measured by the OCR side.
        metrics: None,
    }
}

/// The first of the `aria-label`s seen that is one of `labels`.
pub fn pick_labelled(arias: &Vec<String>, labels: &[&'static str]) -> (r: Option<usize>)
    ensures
        match r {
            Some(i) => i < arias@.len() && (exists|j: int|
                0 <= j < labels@.len() && arias@[i as int]@ == (#[trigger] labels@[j])@) && forall|k: int, j: int|
                0 <= k < i && 0 <= j < labels@.len() ==> arias@[k]@ != labels@[j]@,
            None => forall|k: int, j: int|
                0 <= k < arias@.len() && 0 <= j < labels@.len() ==> arias@[k]@ != labels@[j]@,
        },
{
    let mut i: usize = 0;
    while i < arias.len()
        invariant
            i <= arias@.len(),
            forall|k: int, j: int| 0 <= k < i && 0 <= j < labels@.len() ==> arias@[k]@ != labels@[j]@,
        decreases arias.len() - i,
    {
        let mut j: usize = 0;
        while j < labels.len()
            invariant
                i < arias@.len(),
                j <= labels@.len(),
                forall|k: int, q: int|
                    0 <= k < i && 0 <= q < labels@.len() ==> arias@[k]@ != labels@[q]@,
                forall|k: int| 0 <= k < j ==> arias@[i as int]@ != labels@[k]@,
            decreases labels.len() - j,
        {
            if str_eq(arias[i].as_str(), labels[j]) {
                assert(0 <= j < labels@.len() && arias@[i as int]@ == labels@[j as int]@);
                assert(exists|q: int|
                    0 <= q < labels@.len() && arias@[i as int]@ == (#[trigger] labels@[q])@);
                return Some(i);
            }
            j = j + 1;
        }
        i = i + 1;
    }
    None
}

/// What to do next while setting the font to a step.
#[derive(Debug, Clone, Copy, PartialEq, Eq, Structural)]
pub enum FontMove {
    /// The control is not in view.
    Missing,
    /// The step shown is the wanted one (brought into range).
    Reached,
    /// Press the "larger" button.
    Bigger,
    /// Press the "smaller" button.
    Smaller,
}

/// The next press towards step `index`, given the control as it is seen now.
pub fn font_move(font: Option<FontControl>, index: u8) -> (m: FontMove)
    ensures
        m == font_move_spec(font, index),
{
    match font {
        None => FontMove::Missing,
        Some(f) => {
            let want = f.clamp(index);
            if f.index == want {
                FontMove::Reached
            } else if f.index < want {
                FontMove::Bigger
            } else {
                FontMove::Smaller
            }
        },
    }
}


/// How many times the font is read while setting it before giving up.
pub const FONT_PRESS_LIMIT: u8 = 64;

/// Setting the font to a step by pressing "larger" and "smaller": the state
/// between two readings of the control.
#[derive(Debug, Clone, Copy, PartialEq, Eq)]
pub struct FontSetting {
    /// The step wanted.
    pub wanted: u8,
    /// How many times the control has been read.
    pub reads: u8,
    /// The step last read.
    pub last: Option<u8>,
}

/// What to do after reading the font control.
#[derive(Debug, PartialEq, Eq)]
pub enum FontStep {
    /// The wanted step (brought into range) is shown.
    Reached,
    /// Press the button that this selector picks, wait for the step to change
    /// and read again.
    Press(&'static str),
    /// Setting the font failed.
    Failed(Error),
}

/// The text of a step for a message: its number, or `不明` when it was never read.
pub open spec fn step_text(step: Option<u8>) -> Seq<char> {
    match step {
        Some(i) => decimal(i as nat),
        None => "不明"@,
    }
}

impl FontSetting {
    /// Nothing read yet.
    pub fn new(wanted: u8) -> (s: FontSetting)
        ensures
            s == (FontSetting { wanted, reads: 0, last: None }),
    {
        FontSetting { wanted, reads: 0, last: None }
    }

    /// Whether the control may be read again.
    pub fn may_read(&self) -> (b: bool)
        ensures
            b == (self.reads < FONT_PRESS_LIMIT),
    {
        self.reads < FONT_PRESS_LIMIT
    }

    /// What a reading of the control decides: a missing control fails, the
    /// wanted step ends the setting, else the button towards it is pressed.
    pub fn on_font(&mut self, seen: Option<FontControl>) -> (step: FontStep)
        requires
            old(self).reads < FONT_PRESS_LIMIT,
        ensures
            final(self).wanted == old(self).wanted,
            final(self).reads == old(self).reads + 1,
            final(self).last == match seen {
                Some(f) => Some(f.index),
                None => old(self).last,
            },
            match font_move_spec(seen, old(self).wanted) {
                FontMove::Missing => step matches FontStep::Failed(
                    Error::ElementNotFound { what, seen: v },
                ) && what@ == "フォントサイズのスライダー"@ && v@.len() == 0,
                FontMove::Reached => step == FontStep::Reached,
                FontMove::Bigger => step == FontStep::Press(FONT_BIGGER),
                FontMove::Smaller => step == FontStep::Press(FONT_SMALLER),
            },
    {
        self.reads = self.reads + 1;
        match seen {
            Some(f) => {
                self.last = Some(f.index);
            },
            None => {},
        }
        match font_move(seen, self.wanted) {
            FontMove::Missing => {
                FontStep::Failed(Error::not_found("フォントサイズのスライダー", Vec::new()))
            },
            FontMove::Reached => FontStep::Reached,
            FontMove::Bigger => FontStep::Press(FONT_BIGGER),
            FontMove::Smaller => FontStep::Press(FONT_SMALLER),
        }
    }

    /// The error once the readings ran out: the step wanted and the one last read.
    pub fn rejected(&self) -> (e: Error)
        ensures
            e matches Error::SettingRejected { what, wanted, got } && what@ == "フォントサイズ"@
                && wanted@ == decimal(self.wanted as nat) && got@ == step_text(self.last),
    {
        let wanted = decimal_string(self.wanted as u64);
        let got = match self.last {
            Some(i) => decimal_string(i as u64),
            None => String::from_str("不明"),
        };
        Error::SettingRejected { what: "フォントサイズ", wanted, got }
    }
}

/// The next press towards step `index`, as [`font_move`] decides it.
pub open spec fn font_move_spec(font: Option<FontControl>, index: u8) -> FontMove {
    match font {
        None => FontMove::Missing,
        Some(f) => {
            let want = if index <= f.max { index } else { f.max };
            if f.index == want {
                FontMove::Reached
            } else if f.index < want {
                FontMove::Bigger
            } else {
                FontMove::Smaller
            }
        },
    }
}

/// How the settings menu is brought to the wanted state.
#[derive(Debug, Clone, Copy, PartialEq, Eq, Structural)]
pub enum MenuMove {
    /// It already is so.
    Nothing,
    /// Press the toolbar button that has one of the settings labels.
    OpenByLabel,
    /// Press the close button of the menu; where there is none, the toolbar
    /// button again.
    Close,
}

/// How to bring the settings menu from `open_now` to `want_open`.
pub fn menu_move(open_now: bool, want_open: bool) -> (m: MenuMove)
    ensures
        m == if open_now == want_open {
            MenuMove::Nothing
        } else if want_open {
            MenuMove::OpenByLabel
        } else {
            MenuMove::Close
        },
{
    if open_now == want_open {
        MenuMove::Nothing
    } else if want_open {
        MenuMove::OpenByLabel
    } else {
        MenuMove::Close
    }
}

/// Whether closing the menu falls back on the toolbar button after pressing
/// the close button gave `e`: only when that button was not found.
pub fn close_falls_back(e: &Error) -> (b: bool)
    ensures
        b == (*e is ElementNotFound),
{
    match e {
        Error::ElementNotFound { .. } => true,
        _ => false,
    }
}

/// Whether a failed evaluation is tried once more in a new isolated world:
/// after navigation the old world is gone, which shows as a protocol error or
/// an exception.
pub fn retries_in_new_world(e: &Error) -> (b: bool)
    ensures
        b == (*e is Protocol || *e is Script),
{
    match e {
        Error::Protocol { .. } | Error::Script(_) => true,
        _ => false,
    }
}

/// What a message read while waiting for the answer to a call is.
#[derive(Debug, PartialEq, Eq)]
pub enum Reply {
    /// Not the answer: an event, or the answer to another call.
    Other,
    /// The answer says the call failed.
    Failed(Error),
    /// The answer, with a result.
    Answer,
}

/// Sorts a message that carries the call id `id` (events carry none) and,
/// when the call failed, the error: only the answer to call `wanted` counts,
/// and an error in it fails the call `method`.
pub fn classify_reply(id: Option<u64>, wanted: u64, method: &str, error: Option<String>) -> (r: Reply)
    ensures
        id != Some(wanted) ==> r == Reply::Other,
        id == Some(wanted) ==> match error {
            Some(m) => r matches Reply::Failed(Error::Protocol { method: x, message })
                && x@ == method@ && message == m,
            None => r == Reply::Answer,
        },
{
    match id {
        Some(i) => {
            if i != wanted {
                return Reply::Other;
            }
        },
        None => {
            return Reply::Other;
        },
    }
    match error {
        Some(m) => Reply::Failed(Error::Protocol { method: String::from_str(method), message: m }),
        None => Reply::Answer,
    }
}
} // verus!
