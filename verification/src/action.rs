//! What the navigation state machine decides: the one next move.
//!
//! The state machine has no side effects; carrying the move out is the caller's job.
use vstd::prelude::*;
use vstd::string::*;
use crate::display::Theme;
use crate::page::PageLabel;

verus! {

/// Why to wait; kept for the log and so that tests can check the intent.
#[derive(Debug, Clone, Copy, PartialEq, Eq, Structural)]
pub enum WaitReason {
    /// The book is opening and rendering.
    BookLoading,
    /// The settings menu is opening or closing.
    SettingsMenu,
    /// A change of the display settings is being applied to the page.
    SettingsApplied,
    /// A page turn is being applied.
    PageTurn,
}

/// The result of capturing one book.
#[derive(Debug, Clone, Copy, PartialEq, Eq, Structural)]
pub struct Summary {
    /// How many pages were saved.
    pub captured_pages: u32,
    /// The pixels per character finally used; `None` when there was no calibration.
    pub px_per_char: Option<u32>,
    /// The end of the book was confirmed.
    ///
    /// A book with page numbers confirms its last page. Without them the end
    /// cannot be told from a broken page turn, so the capture stops when the
    /// pages stop advancing and this is `false`; validation reports it.
    pub end_confirmed: bool,
}

/// Why a capture was broken off.
#[derive(Debug, Clone, Copy, PartialEq, Eq, Structural)]
pub enum Failure {
    /// The book did not open in time.
    BookDidNotLoad {
        /// How long was waited, in milliseconds.
        waited_ms: u64,
    },
    /// The settings menu could not be opened or closed.
    SettingsMenuUnavailable,
    /// The page image did not come back after a change of the display settings.
    PageDidNotRender {
        /// How long was waited, in milliseconds.
        waited_ms: u64,
    },
    /// Pages stopped advancing before the end.
    PageDidNotAdvance {
        /// Where they stopped.
        at: PageLabel,
    },
    /// The first page could not be reached.
    RewindDidNotReachStart {
        /// How many times "previous" was pressed.
        presses: u32,
    },
    /// More pages than expected were captured (a guard against running away).
    TooManyPages {
        /// The limit.
        limit: u32,
    },
}

/// The next move of the state machine.
#[derive(Debug, PartialEq)]
pub enum Action {
    /// Open the book at this URL.
    OpenBook {
        /// The cloud reader URL.
        url: String,
    },
    /// Wait, then observe again.
    Wait {
        /// How long, in milliseconds.
        ms: u32,
        /// Why.
        reason: WaitReason,
    },
    /// Open the settings menu.
    OpenSettingsMenu,
    /// Close the settings menu.
    CloseSettingsMenu,
    /// Set the colour theme.
    SetTheme(Theme),
    /// Set the font size to this step.
    SetFontSize {
        /// The step, from 0.
        index: u8,
    },
    /// Measure the current page, to learn its pixels per character.
    MeasurePage,
    /// Save the current page image.
    CapturePage {
        /// The position to file it under.
        label: PageLabel,
    },
    /// Go to the next page.
    PressNext,
    /// Go to the previous page.
    PressPrev,
    /// Finished.
    Done(Summary),
    /// Broken off.
    Fail(Failure),
}

/// An action with its URL taken by its characters.
pub enum ActionView {
    OpenBook { url: Seq<char> },
    Wait { ms: u32, reason: WaitReason },
    OpenSettingsMenu,
    CloseSettingsMenu,
    SetTheme(Theme),
    SetFontSize { index: u8 },
    MeasurePage,
    CapturePage { label: PageLabel },
    PressNext,
    PressPrev,
    Done(Summary),
    Fail(Failure),
}

impl ActionView {
    /// The action ends the work on a book.
    pub open spec fn terminal(self) -> bool {
        self is Done || self is Fail
    }
}

impl View for Action {
    type V = ActionView;

    open spec fn view(&self) -> ActionView {
        match self {
            Action::OpenBook { url } => ActionView::OpenBook { url: url@ },
            Action::Wait { ms, reason } => ActionView::Wait { ms: *ms, reason: *reason },
            Action::OpenSettingsMenu => ActionView::OpenSettingsMenu,
            Action::CloseSettingsMenu => ActionView::CloseSettingsMenu,
            Action::SetTheme(t) => ActionView::SetTheme(*t),
            Action::SetFontSize { index } => ActionView::SetFontSize { index: *index },
            Action::MeasurePage => ActionView::MeasurePage,
            Action::CapturePage { label } => ActionView::CapturePage { label: *label },
            Action::PressNext => ActionView::PressNext,
            Action::PressPrev => ActionView::PressPrev,
            Action::Done(s) => ActionView::Done(*s),
            Action::Fail(f) => ActionView::Fail(*f),
        }
    }
}

impl Clone for Action {
    fn clone(&self) -> (r: Action)
        ensures
            r == *self,
    {
        match self {
            Action::OpenBook { url } => Action::OpenBook { url: url.clone() },
            Action::Wait { ms, reason } => Action::Wait { ms: *ms, reason: *reason },
            Action::OpenSettingsMenu => Action::OpenSettingsMenu,
            Action::CloseSettingsMenu => Action::CloseSettingsMenu,
            Action::SetTheme(t) => Action::SetTheme(*t),
            Action::SetFontSize { index } => Action::SetFontSize { index: *index },
            Action::MeasurePage => Action::MeasurePage,
            Action::CapturePage { label } => Action::CapturePage { label: *label },
            Action::PressNext => Action::PressNext,
            Action::PressPrev => Action::PressPrev,
            Action::Done(s) => Action::Done(*s),
            Action::Fail(f) => Action::Fail(*f),
        }
    }
}

impl Action {
    /// Whether this action ends the work on a book.
    pub fn is_terminal(&self) -> (b: bool)
        ensures
            b == self@.terminal(),
    {
        match self {
            Action::Done(_) | Action::Fail(_) => true,
            _ => false,
        }
    }

    /// Whether two actions are the same move (URLs compared by their characters).
    pub fn same_as(&self, other: &Action) -> (b: bool)
        ensures
            b == (self@ == other@),
    {
        match (self, other) {
            (Action::OpenBook { url: a }, Action::OpenBook { url: b }) => *a == *b,
            (Action::Wait { ms: a, reason: r }, Action::Wait { ms: b, reason: s }) => *a == *b
                && *r == *s,
            (Action::OpenSettingsMenu, Action::OpenSettingsMenu) => true,
            (Action::CloseSettingsMenu, Action::CloseSettingsMenu) => true,
            (Action::SetTheme(a), Action::SetTheme(b)) => *a == *b,
            (Action::SetFontSize { index: a }, Action::SetFontSize { index: b }) => *a == *b,
            (Action::MeasurePage, Action::MeasurePage) => true,
            (Action::CapturePage { label: a }, Action::CapturePage { label: b }) => *a == *b,
            (Action::PressNext, Action::PressNext) => true,
            (Action::PressPrev, Action::PressPrev) => true,
            (Action::Done(a), Action::Done(b)) => *a == *b,
            (Action::Fail(a), Action::Fail(b)) => *a == *b,
            _ => false,
        }
    }
}

/// The text std's `Debug` gives a failure (derived); a function of the value alone.
pub uninterp spec fn failure_debug(f: Failure) -> Seq<char>;

/// The text std's `Debug` gives an action (derived); a function of the value alone.
pub uninterp spec fn action_debug(a: ActionView) -> Seq<char>;

/// The debug form of a failure.
///
/// Trusted: std's `format!` with `{:?}` on the derived `Debug` of [`Failure`].
/// The text is named, not stated: std documents the output of a derived
/// `Debug` as unstable, open to change between Rust versions.
#[verifier::external_body]
pub(crate) fn failure_text(f: &Failure) -> (s: String)
    ensures
        s@ == failure_debug(*f),
{
    format!("{f:?}")
}

/// The debug form of an action.
///
/// Trusted: std's `format!` with `{:?}` on the derived `Debug` of [`Action`].
/// The text is named, not stated: std documents the output of a derived
/// `Debug` as unstable, open to change between Rust versions.
#[verifier::external_body]
pub(crate) fn action_text(a: &Action) -> (s: String)
    ensures
        s@ == action_debug(a@),
{
    format!("{a:?}")
}

} // verus!
