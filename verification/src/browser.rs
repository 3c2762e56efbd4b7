//! Turning the moves of the state machine into browser operations.
//!
//! [`Browser`] holds only primitive operations: open, observe, set the theme,
//! and so on. How an [`Action`] maps onto them is decided in [`apply`]
//! alone, so it is tested once against the simulator and holds for the real
//! reader as well. Nothing is decided here.
use vstd::prelude::*;
use vstd::string::*;
use crate::action::{Action, ActionView};
use crate::display::Theme;
use crate::observation::Observation;
use crate::page::PageLabel;
use crate::text::join3;

verus! {

/// The direction of a page turn: the reading direction, not left or right on
/// screen (in vertical books "next" is the button on the left).
#[derive(Debug, Clone, Copy, PartialEq, Eq, Structural)]
pub enum Direction {
    /// Onwards.
    Next,
    /// Back.
    Prev,
}

/// A page image as fetched: the original the server rendered, not a screenshot.
#[derive(Debug, PartialEq, Eq)]
pub struct PageImage {
    /// The PNG bytes.
    pub png: Vec<u8>,
    /// The natural width in pixels.
    pub width: u32,
    /// The natural height in pixels.
    pub height: u32,
    /// Where the image came from (the blob URL); it changes from page to page.
    pub source: Option<String>,
}

/// What [`apply`] produced besides the operation itself. The browser neither
/// stores nor measures; where a product goes is decided above.
#[derive(Debug, PartialEq, Eq)]
pub enum Effect {
    /// Nothing remains but what the next observation shows.
    Nothing,
    /// A page image to store.
    Captured {
        /// The position to file it under.
        label: PageLabel,
        /// The image.
        image: PageImage,
    },
    /// A page image to measure (pixels per character).
    ToMeasure(PageImage),
    /// The end was reached; the browser did nothing.
    Terminal,
}

/// What can go wrong while driving the browser.
///
/// A missing control reports what was seen instead, so that a changed reader UI
/// can be diagnosed from the message alone.
#[derive(Debug, PartialEq, Eq)]
pub enum Error {
    /// The debugging endpoint cannot be reached.
    Connect(String),
    /// The WebSocket broke.
    Transport(String),
    /// The protocol answered a call with an error.
    Protocol {
        /// The method called.
        method: String,
        /// What the protocol said.
        message: String,
    },
    /// A script evaluated in the page threw.
    Script(String),
    /// An answer did not have the expected shape.
    Unexpected(String),
    /// An expected control was not found.
    ElementNotFound {
        /// What was looked for.
        what: &'static str,
        /// What was seen instead.
        seen: Vec<String>,
    },
    /// The page image cannot be fetched.
    NoPageImage(String),
    /// A setting never reached the wanted value.
    SettingRejected {
        /// Which setting.
        what: &'static str,
        /// The wanted value.
        wanted: String,
        /// The value last observed.
        got: String,
    },
}

/// The texts of `list` joined by `sep`.
pub open spec fn seq_join(list: Seq<Seq<char>>, sep: Seq<char>) -> Seq<char>
    decreases list.len(),
{
    if list.len() == 0 {
        Seq::empty()
    } else if list.len() == 1 {
        list[0]
    } else {
        seq_join(list.drop_last(), sep) + sep + list.last()
    }
}

/// The characters of each string.
pub open spec fn views(list: Seq<String>) -> Seq<Seq<char>> {
    list.map_values(|s: String| s@)
}

/// The texts of `list` joined by `sep`.
pub fn join_strings(list: &Vec<String>, sep: &str) -> (s: String)
    ensures
        s@ == seq_join(views(list@), sep@),
{
    let mut s = String::new();
    let mut i: usize = 0;
    while i < list.len()
        invariant
            i <= list@.len(),
            s@ == seq_join(views(list@.subrange(0, i as int)), sep@),
        decreases list.len() - i,
    {
        let ghost before = views(list@.subrange(0, i as int));
        let ghost after = views(list@.subrange(0, i + 1));
        assert(after.drop_last() =~= before);
        assert(after.last() == list@[i as int]@);
        if i > 0 {
            s.append(sep);
        } else {
            assert(after.len() == 1);
        }
        s.append(list[i].as_str());
        i = i + 1;
    }
    assert(list@.subrange(0, list@.len() as int) =~= list@);
    s
}

/// The message of an error.
pub open spec fn error_message(e: Error) -> Seq<char> {
    match e {
        Error::Connect(m) => "CDP に接続できません: "@ + m@,
        Error::Transport(m) => "CDP との通信が壊れました: "@ + m@,
        Error::Protocol { method, message } => "CDP "@ + method@ + " が失敗: "@ + message@,
        Error::Script(m) => "ページ内の JS が例外を投げました: "@ + m@,
        Error::Unexpected(m) => "想定外の応答: "@ + m@,
        Error::ElementNotFound { what, seen } => what@ + " が見つかりません（見えたもの: "@
            + seq_join(views(seen@), ", "@) + "）"@,
        Error::NoPageImage(m) => "ページ画像を取り出せません: "@ + m@,
        Error::SettingRejected { what, wanted, got } => what@ + " を "@ + wanted@
            + " にできません（最後に観測したのは "@ + got@ + "）"@,
    }
}

impl Error {
    /// A control is missing; `seen` lists what was there.
    pub fn not_found(what: &'static str, seen: Vec<String>) -> (e: Error)
        ensures
            e == (Error::ElementNotFound { what, seen }),
    {
        Error::ElementNotFound { what, seen }
    }

    /// The message that explains the error, naming what was seen for a missing control.
    pub fn message(&self) -> (s: String)
        ensures
            s@ == error_message(*self),
    {
        match self {
            Error::Connect(m) => join2s("CDP に接続できません: ", m),
            Error::Transport(m) => join2s("CDP との通信が壊れました: ", m),
            Error::Protocol { method, message } => {
                let mut s = join3("CDP ", method.as_str(), " が失敗: ");
                s.append(message.as_str());
                s
            },
            Error::Script(m) => join2s("ページ内の JS が例外を投げました: ", m),
            Error::Unexpected(m) => join2s("想定外の応答: ", m),
            Error::ElementNotFound { what, seen } => {
                let listed = join_strings(seen, ", ");
                let mut s = join3(what, " が見つかりません（見えたもの: ", listed.as_str());
                s.append("）");
                s
            },
            Error::NoPageImage(m) => join2s("ページ画像を取り出せません: ", m),
            Error::SettingRejected { what, wanted, got } => {
                let mut s = join3(what, " を ", wanted.as_str());
                s.append(" にできません（最後に観測したのは ");
                s.append(got.as_str());
                s.append("）");
                s
            },
        }
    }
}

fn join2s(a: &str, b: &String) -> (s: String)
    ensures
        s@ == a@ + b@,
{
    let mut s = String::from_str(a);
    s.append(b.as_str());
    s
}

/// One operation asked of a browser, with its arguments.
pub enum BrowserCall {
    /// `open` of this URL.
    Open(Seq<char>),
    /// `observe`.
    Observe,
    /// `set_settings_menu`, opening or closing.
    SetSettingsMenu(bool),
    /// `set_theme`.
    SetTheme(Theme),
    /// `set_font_size`.
    SetFontSize(u8),
    /// `turn_page`.
    TurnPage(Direction),
    /// `capture_page`.
    CapturePage,
    /// `sleep` for these milliseconds.
    Sleep(u32),
}

/// The error a result carries, if any.
pub open spec fn failure<T>(r: Result<T, Error>) -> Option<Error> {
    match r {
        Ok(_) => None,
        Err(e) => Some(e),
    }
}

/// What can be done to a browser. The real reader and the simulator both
/// implement it, so that the layers above run without a real browser.
///
/// Every browser keeps, as a model, the list of the operations asked of it,
/// each with the error it gave, and the image and observation it last handed
/// out; so what was
/// asked of it, and in which order, can be stated. The model is ghost state. Its
/// defaults (nothing asked, nothing handed out) only let a browser written
/// outside the verified code implement the trait: with them the contracts of
/// the operations cannot be met, so a verified browser keeps its own.
pub trait Browser {
    /// The operations asked so far, in order, each with the error it gave.
    closed spec fn calls(&self) -> Seq<(BrowserCall, Option<Error>)> {
        Seq::empty()
    }

    /// The page image that `capture_page` last handed out.
    closed spec fn last_image(&self) -> Option<PageImage> {
        None
    }

    /// The observation that `observe` last handed out.
    closed spec fn last_observation(&self) -> Option<Observation> {
        None
    }

    /// Opens a URL.
    fn open(&mut self, url: &str) -> (r: Result<(), Error>)
        ensures
            final(self).calls() == old(self).calls().push((BrowserCall::Open(url@), failure(r))),
    ;

    /// Takes everything that can be observed now.
    fn observe(&mut self) -> (r: Result<Observation, Error>)
        ensures
            final(self).calls() == old(self).calls().push((BrowserCall::Observe, failure(r))),
            r matches Ok(o) ==> final(self).last_observation() == Some(o),
    ;

    /// Opens or closes the settings menu; nothing when it already is so.
    fn set_settings_menu(&mut self, open: bool) -> (r: Result<(), Error>)
        ensures
            final(self).calls() == old(self).calls().push(
                (BrowserCall::SetSettingsMenu(open), failure(r)),
            ),
    ;

    /// Sets the colour theme; the settings menu must be open.
    fn set_theme(&mut self, theme: Theme) -> (r: Result<(), Error>)
        ensures
            final(self).calls() == old(self).calls().push(
                (BrowserCall::SetTheme(theme), failure(r)),
            ),
    ;

    /// Sets the font to a step; the settings menu must be open. Idempotent.
    fn set_font_size(&mut self, index: u8) -> (r: Result<(), Error>)
        ensures
            final(self).calls() == old(self).calls().push(
                (BrowserCall::SetFontSize(index), failure(r)),
            ),
    ;

    /// Turns a page.
    fn turn_page(&mut self, direction: Direction) -> (r: Result<(), Error>)
        ensures
            final(self).calls() == old(self).calls().push(
                (BrowserCall::TurnPage(direction), failure(r)),
            ),
    ;

    /// Fetches the page image shown now, as PNG.
    fn capture_page(&mut self) -> (r: Result<PageImage, Error>)
        ensures
            final(self).calls() == old(self).calls().push((BrowserCall::CapturePage, failure(r))),
            r matches Ok(img) ==> final(self).last_image() == Some(img),
    ;

    /// Waits; a simulator does not really wait.
    fn sleep(&mut self, ms: u32)
        ensures
            final(self).calls() == old(self).calls().push((BrowserCall::Sleep(ms), None)),
    ;
}

/// The browser operation an action is carried out by; the terminal actions have none.
pub open spec fn call_for(action: ActionView) -> Option<BrowserCall> {
    match action {
        ActionView::OpenBook { url } => Some(BrowserCall::Open(url)),
        ActionView::Wait { ms, .. } => Some(BrowserCall::Sleep(ms)),
        ActionView::OpenSettingsMenu => Some(BrowserCall::SetSettingsMenu(true)),
        ActionView::CloseSettingsMenu => Some(BrowserCall::SetSettingsMenu(false)),
        ActionView::SetTheme(t) => Some(BrowserCall::SetTheme(t)),
        ActionView::SetFontSize { index } => Some(BrowserCall::SetFontSize(index)),
        ActionView::MeasurePage => Some(BrowserCall::CapturePage),
        ActionView::CapturePage { .. } => Some(BrowserCall::CapturePage),
        ActionView::PressNext => Some(BrowserCall::TurnPage(Direction::Next)),
        ActionView::PressPrev => Some(BrowserCall::TurnPage(Direction::Prev)),
        ActionView::Done(_) | ActionView::Fail(_) => None,
    }
}

/// What [`apply`] gives for an action, once the browser did what was asked: a
/// terminal action gives `Terminal`; an error of the browser is handed on;
/// otherwise measuring gives the image fetched, capturing gives it under the
/// action's label, and every other action gives `Nothing`.
pub open spec fn apply_result_fits(action: ActionView, r: Result<Effect, Error>, image: Option<PageImage>) -> bool {
    match action {
        ActionView::Done(_) | ActionView::Fail(_) => r == Ok::<Effect, Error>(Effect::Terminal),
        ActionView::MeasurePage => r is Err || (r matches Ok(Effect::ToMeasure(img)) && image
            == Some(img)),
        ActionView::CapturePage { label } => r is Err || (r matches Ok(
            Effect::Captured { label: l, image: img },
        ) && l == label && image == Some(img)),
        ActionView::Wait { .. } => r == Ok::<Effect, Error>(Effect::Nothing),
        _ => r is Err || r == Ok::<Effect, Error>(Effect::Nothing),
    }
}

/// Carries out a move of the state machine. Every variant of [`Action`] is
/// mapped here and nowhere else: each action but the terminal ones asks the
/// browser for exactly one operation, the one [`call_for`] names, and the
/// result is the one that operation gave.
pub fn apply<B: Browser>(browser: &mut B, action: &Action) -> (r: Result<Effect, Error>)
    ensures
        final(browser).calls() == match call_for(action@) {
            Some(c) => old(browser).calls().push((c, failure(r))),
            None => old(browser).calls(),
        },
        apply_result_fits(action@, r, final(browser).last_image()),
{
    match action {
        Action::MeasurePage => {
            return match browser.capture_page() {
                Ok(image) => Ok(Effect::ToMeasure(image)),
                Err(e) => Err(e),
            };
        },
        Action::CapturePage { label } => {
            let image = match browser.capture_page() {
                Ok(image) => image,
                Err(e) => {
                    return Err(e);
                },
            };
            return Ok(Effect::Captured { label: *label, image });
        },
        Action::Done(_) | Action::Fail(_) => {
            return Ok(Effect::Terminal);
        },
        _ => {},
    }
    match apply_control(browser, action) {
        Ok(()) => Ok(Effect::Nothing),
        Err(e) => Err(e),
    }
}

/// The actions that produce nothing besides the operation: each asks the
/// browser for the operation [`call_for`] names and gives what it gave; a
/// wait always succeeds. The products and the terminal actions are left to
/// [`apply`] and touch the browser not at all.
fn apply_control<B: Browser>(browser: &mut B, action: &Action) -> (r: Result<(), Error>)
    ensures
        (action@ is MeasurePage || action@ is CapturePage || action@.terminal()) ==> r is Ok
            && *final(browser) == *old(browser),
        !(action@ is MeasurePage || action@ is CapturePage || action@.terminal())
            ==> final(browser).calls() == old(browser).calls().push(
            (call_for(action@)->0, failure(r)),
        ),
        action@ is Wait ==> r is Ok,
{
    match action {
        Action::OpenBook { url } => browser.open(url.as_str()),
        Action::Wait { ms, .. } => {
            browser.sleep(*ms);
            Ok(())
        },
        Action::OpenSettingsMenu => browser.set_settings_menu(true),
        Action::CloseSettingsMenu => browser.set_settings_menu(false),
        Action::SetTheme(theme) => browser.set_theme(*theme),
        Action::SetFontSize { index } => browser.set_font_size(*index),
        Action::PressNext => browser.turn_page(Direction::Next),
        Action::PressPrev => browser.turn_page(Direction::Prev),
        Action::MeasurePage | Action::CapturePage { .. } | Action::Done(_) | Action::Fail(_) => Ok(()),
    }
}

} // verus!
