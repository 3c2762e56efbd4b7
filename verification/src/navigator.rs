//! The navigation state machine that drives the cloud reader through one book.
//!
//! It has no I/O at all: no clock, no files, no network. It takes an
//! [`Observation`] and returns the one next [`Action`]; touching the browser is
//! the caller's job. So every branch of rewinding, font calibration and page
//! turning can be exercised without a real reader.
//!
//! ```text
//! open book -> wait for it -> settings menu -> theme -> font calibration <-> measuring
//!                                                          | settled
//!                                           rewind to the start -> capture <-> next page -> done
//! ```
use vstd::prelude::*;
use crate::action::{Action, ActionView, Failure, Summary, WaitReason};
use crate::book::{reader_url_prefix, BookSpec};
use crate::calibrate::{Calibrator, Step};
use crate::display::FontControl;
use crate::observation::Observation;
use crate::page::{LabelKind, PageLabel};

verus! {

/// The limits that break a capture off. Tuned to how the real reader behaves.
#[derive(Debug, Clone, Copy, PartialEq, Eq, Structural)]
pub struct Limits {
    /// How long to wait for the book to open, in milliseconds.
    pub book_load_timeout_ms: u64,
    /// How long to wait for a page turn to show, in milliseconds.
    pub page_turn_timeout_ms: u64,
    /// How long to wait for the page to be rebuilt after a change of the display
    /// settings, in milliseconds.
    pub render_timeout_ms: u64,
    /// How many times to try opening or closing the settings menu.
    pub menu_attempts: u8,
    /// After how many presses in a row without movement the rewind counts as
    /// having reached the start.
    pub rewind_stall_threshold: u8,
    /// How many times at most to press "previous" while rewinding.
    pub max_rewind_presses: u32,
    /// How many pages at most to capture for one book (a guard against running away).
    pub max_pages: u32,
}

/// The default limits.
pub open spec fn spec_default_limits() -> Limits {
    Limits {
        book_load_timeout_ms: 45_000,
        page_turn_timeout_ms: 8_000,
        render_timeout_ms: 20_000,
        menu_attempts: 3,
        rewind_stall_threshold: 3,
        max_rewind_presses: 2_000,
        max_pages: 5_000,
    }
}

impl Default for Limits {
    fn default() -> (l: Limits)
        ensures
            l == spec_default_limits(),
    {
        Limits {
            book_load_timeout_ms: 45_000,
            page_turn_timeout_ms: 8_000,
            // Measured at 2.8 s; slow machines get room.
            render_timeout_ms: 20_000,
            menu_attempts: 3,
            // A press can be swallowed, so two stalls would take the middle of the
            // book for its start.
            rewind_stall_threshold: 3,
            max_rewind_presses: 2_000,
            max_pages: 5_000,
        }
    }
}

/// How long to wait for the book to load between observations.
pub const WAIT_LOAD_MS: u32 = 1_000;
/// How long to wait for the settings menu to open or close.
pub const WAIT_MENU_MS: u32 = 600;
/// How long to wait for a change of the display settings to show.
pub const WAIT_APPLY_MS: u32 = 1_500;
/// How long to wait between looks at a page turn. This is also the gap before
/// the next press: the reader ignores presses closer than about 100 ms.
pub const WAIT_TURN_MS: u32 = 180;
/// How long to wait between presses while rewinding.
pub const WAIT_REWIND_MS: u32 = 150;
/// How long to wait once the position stopped moving, before judging it an end.
pub const WAIT_STALL_MS: u32 = 800;
/// After how long an unanswered page turn is pressed again.
pub const TURN_RETRY_MS: u64 = 400;

#[derive(Debug)]
#[allow(inconsistent_fields)]
enum State {
    Start,
    LoadingBook { waited_ms: u64 },
    MenuOpening { attempts: u8 },
    MenuOpenWait { attempts: u8 },
    ThemeWait,
    FontWait,
    MenuClosing { attempts: u8 },
    MenuCloseWait { attempts: u8 },
    AwaitingRender { waited_ms: u64 },
    Measuring,
    Rewinding { presses: u32, stalls: u8, from: Box<Observation> },
    RewindWait { presses: u32, stalls: u8, from: Box<Observation> },
    Capturing,
    PageTurning { from: Box<Observation>, waited_ms: u64, presses: u8 },
    Ended,
}

impl Clone for State {
    fn clone(&self) -> (r: State)
        ensures
            r == *self,
    {
        match self {
            State::Start => State::Start,
            State::LoadingBook { waited_ms } => State::LoadingBook { waited_ms: *waited_ms },
            State::MenuOpening { attempts } => State::MenuOpening { attempts: *attempts },
            State::MenuOpenWait { attempts } => State::MenuOpenWait { attempts: *attempts },
            State::ThemeWait => State::ThemeWait,
            State::FontWait => State::FontWait,
            State::MenuClosing { attempts } => State::MenuClosing { attempts: *attempts },
            State::MenuCloseWait { attempts } => State::MenuCloseWait { attempts: *attempts },
            State::AwaitingRender { waited_ms } => State::AwaitingRender { waited_ms: *waited_ms },
            State::Measuring => State::Measuring,
            State::Rewinding { presses, stalls, from } => State::Rewinding {
                presses: *presses,
                stalls: *stalls,
                from: Box::new((**from).clone()),
            },
            State::RewindWait { presses, stalls, from } => State::RewindWait {
                presses: *presses,
                stalls: *stalls,
                from: Box::new((**from).clone()),
            },
            State::Capturing => State::Capturing,
            State::PageTurning { from, waited_ms, presses } => State::PageTurning {
                from: Box::new((**from).clone()),
                waited_ms: *waited_ms,
                presses: *presses,
            },
            State::Ended => State::Ended,
        }
    }
}

/// The state machine for one book.
#[derive(Debug)]
pub struct Navigator {
    spec: BookSpec,
    limits: Limits,
    state: State,
    /// The number of font steps is only known once the reader shows it, so the
    /// calibration starts at the first look at the settings.
    calibrator: Option<Calibrator>,
    captured: u32,
    px_per_char: Option<u32>,
    /// The terminal action, once reached; it is returned from then on.
    outcome: Option<Action>,
}

/// The action that a terminal view stands for.
pub open spec fn terminal_action(a: ActionView) -> Action {
    match a {
        ActionView::Done(s) => Action::Done(s),
        ActionView::Fail(f) => Action::Fail(f),
        _ => Action::PressNext,
    }
}

/// A wait of `ms` milliseconds.
pub open spec fn wait_view(ms: u32, reason: WaitReason) -> ActionView {
    ActionView::Wait { ms, reason }
}

impl Navigator {
    // ----------------------------------------------------------------
    // The model: what one observation does to the machine.
    // ----------------------------------------------------------------
    /// The pages captured so far.
    pub closed spec fn spec_captured(self) -> u32 {
        self.captured
    }

    /// The pixels per character adopted by the calibration.
    pub closed spec fn spec_px_per_char(self) -> Option<u32> {
        self.px_per_char
    }

    /// The terminal action, once reached.
    pub closed spec fn spec_outcome(self) -> Option<Action> {
        self.outcome
    }

    /// The limits.
    pub closed spec fn spec_limits(self) -> Limits {
        self.limits
    }

    /// The book.
    pub closed spec fn spec_book(self) -> BookSpec {
        self.spec
    }

    /// The machine has not yet done anything.
    pub closed spec fn spec_fresh(self) -> bool {
        self.state is Start && self.outcome is None && self.captured == 0
            && self.px_per_char is None && self.calibrator is None
    }

    /// The action that ends the book with what has been captured.
    closed spec fn spec_finish(self, end_confirmed: bool) -> ActionView {
        ActionView::Done(
            Summary {
                captured_pages: self.captured,
                px_per_char: self.px_per_char,
                end_confirmed,
            },
        )
    }

    /// The start of the book is seen: by the missing "previous" control, else by
    /// the position display.
    closed spec fn spec_at_start(obs: Observation) -> bool {
        obs.start_of_book() || (obs.page matches Some(p) && p.first())
    }

    /// The label to file the current page under: the one shown, else the next
    /// number counted from 1.
    closed spec fn spec_here_label(self, obs: Observation) -> PageLabel {
        match obs.page {
            Some(p) => p,
            None => PageLabel {
                current: self.captured.saturating_add(1),
                total: None,
                kind: LabelKind::Page,
            },
        }
    }

    /// Capture the current page.
    closed spec fn spec_capture_here(self, obs: Observation) -> ActionView {
        ActionView::CapturePage { label: self.spec_here_label(obs) }
    }

    closed spec fn spec_on_loading(self, obs: Observation, waited_ms: u64) -> (
        Navigator,
        ActionView,
        State,
    ) {
        if obs.usable_image() {
            (self, ActionView::OpenSettingsMenu, State::MenuOpenWait { attempts: 1 })
        } else {
            let waited = waited_ms.saturating_add(obs.elapsed_ms);
            if waited >= self.limits.book_load_timeout_ms {
                (
                    self,
                    ActionView::Fail(Failure::BookDidNotLoad { waited_ms: waited }),
                    State::Ended,
                )
            } else {
                (
                    self,
                    wait_view(WAIT_LOAD_MS, WaitReason::BookLoading),
                    State::LoadingBook { waited_ms: waited },
                )
            }
        }
    }

    closed spec fn spec_on_settings_ready(self, obs: Observation, font: FontControl) -> (
        Navigator,
        ActionView,
        State,
    ) {
        if obs.theme != Some(self.spec.display.theme) {
            (self, ActionView::SetTheme(self.spec.display.theme), State::ThemeWait)
        } else {
            let c = match self.calibrator {
                Some(c) => c,
                None => Calibrator::spec_new(self.spec.display, font.max),
            };
            let index = c.spec_index();
            (
                Navigator { calibrator: Some(c), ..self },
                ActionView::SetFontSize { index: if index <= font.max { index } else { font.max } },
                State::FontWait,
            )
        }
    }

    closed spec fn spec_on_menu_opening(self, obs: Observation, attempts: u8) -> (
        Navigator,
        ActionView,
        State,
    ) {
        if obs.settings_menu_open && obs.font is Some {
            self.spec_on_settings_ready(obs, obs.font->0)
        } else if attempts >= self.limits.menu_attempts {
            (self, ActionView::Fail(Failure::SettingsMenuUnavailable), State::Ended)
        } else {
            (
                self,
                ActionView::OpenSettingsMenu,
                State::MenuOpenWait { attempts: attempts.saturating_add(1) },
            )
        }
    }

    closed spec fn spec_on_awaiting_render(self, obs: Observation, waited_ms: u64) -> (
        Navigator,
        ActionView,
        State,
    ) {
        if obs.usable_image() {
            (self, ActionView::MeasurePage, State::Measuring)
        } else {
            let waited = waited_ms.saturating_add(obs.elapsed_ms);
            if waited >= self.limits.render_timeout_ms {
                (
                    self,
                    ActionView::Fail(Failure::PageDidNotRender { waited_ms: waited }),
                    State::Ended,
                )
            } else {
                (
                    self,
                    wait_view(WAIT_APPLY_MS, WaitReason::SettingsApplied),
                    State::AwaitingRender { waited_ms: waited },
                )
            }
        }
    }

    closed spec fn spec_on_menu_closing(self, obs: Observation, attempts: u8) -> (
        Navigator,
        ActionView,
        State,
    ) {
        if !obs.settings_menu_open {
            self.spec_on_awaiting_render(obs, 0)
        } else if attempts >= self.limits.menu_attempts {
            (self, ActionView::Fail(Failure::SettingsMenuUnavailable), State::Ended)
        } else {
            (
                self,
                ActionView::CloseSettingsMenu,
                State::MenuCloseWait { attempts: attempts.saturating_add(1) },
            )
        }
    }

    closed spec fn spec_start_rewind(self, obs: Observation) -> (Navigator, ActionView, State) {
        if Self::spec_at_start(obs) {
            (self, self.spec_capture_here(obs), State::Capturing)
        } else {
            (
                self,
                ActionView::PressPrev,
                State::RewindWait { presses: 1, stalls: 0, from: Box::new(obs) },
            )
        }
    }

    closed spec fn spec_on_measuring(self, obs: Observation) -> (Navigator, ActionView, State) {
        match obs.metrics {
            None => (self, wait_view(WAIT_APPLY_MS, WaitReason::SettingsApplied), State::Measuring),
            Some(m) => {
                let (calibrator, step) = match self.calibrator {
                    None => (None, Step::GiveUp(m.px_per_char)),
                    Some(c) => (Some(c.spec_observe(m.px_per_char).0), c.spec_observe(
                        m.px_per_char,
                    ).1),
                };
                let nav = Navigator { calibrator, ..self };
                match step {
                    Step::Satisfied(px) => Navigator {
                        px_per_char: Some(px),
                        ..nav
                    }.spec_start_rewind(obs),
                    Step::GiveUp(px) => Navigator {
                        px_per_char: Some(px),
                        ..nav
                    }.spec_start_rewind(obs),
                    Step::Retry(_) => (
                        nav,
                        ActionView::OpenSettingsMenu,
                        State::MenuOpenWait { attempts: 1 },
                    ),
                }
            },
        }
    }

    closed spec fn spec_on_rewinding(
        self,
        obs: Observation,
        presses: u32,
        stalls: u8,
        from: Observation,
    ) -> (Navigator, ActionView, State) {
        if Self::spec_at_start(obs) {
            (self, self.spec_capture_here(obs), State::Capturing)
        } else {
            let stalls = if obs.advanced(from) {
                0
            } else {
                stalls.saturating_add(1)
            };
            if stalls >= self.limits.rewind_stall_threshold {
                (self, self.spec_capture_here(obs), State::Capturing)
            } else if presses >= self.limits.max_rewind_presses {
                (
                    self,
                    ActionView::Fail(Failure::RewindDidNotReachStart { presses }),
                    State::Ended,
                )
            } else {
                (
                    self,
                    ActionView::PressPrev,
                    State::RewindWait {
                        presses: presses.saturating_add(1),
                        stalls,
                        from: Box::new(obs),
                    },
                )
            }
        }
    }

    closed spec fn spec_on_capturing(self, obs: Observation) -> (Navigator, ActionView, State) {
        let nav = Navigator { captured: self.captured.saturating_add(1), ..self };
        if nav.captured >= self.limits.max_pages {
            (
                nav,
                ActionView::Fail(Failure::TooManyPages { limit: self.limits.max_pages }),
                State::Ended,
            )
        } else if obs.end_of_book() || (obs.page matches Some(p) && p.last()) {
            (nav, nav.spec_finish(true), State::Ended)
        } else {
            (
                nav,
                ActionView::PressNext,
                State::PageTurning { from: Box::new(obs), waited_ms: 0, presses: 1 },
            )
        }
    }

    closed spec fn spec_on_stall(self, from: Observation) -> (Navigator, ActionView, State) {
        if from.end_of_book() {
            (self, self.spec_finish(true), State::Ended)
        } else {
            match from.page {
                Some(p) => if p.last() {
                    (self, self.spec_finish(true), State::Ended)
                } else if p.confirms_end() {
                    (self, ActionView::Fail(Failure::PageDidNotAdvance { at: p }), State::Ended)
                } else {
                    (self, self.spec_finish(false), State::Ended)
                },
                None => (self, self.spec_finish(false), State::Ended),
            }
        }
    }

    closed spec fn spec_on_page_turning(
        self,
        obs: Observation,
        from: Observation,
        waited_ms: u64,
        presses: u8,
    ) -> (Navigator, ActionView, State) {
        if obs.advanced(from) && obs.usable_image() {
            (self, self.spec_capture_here(obs), State::Capturing)
        } else {
            let waited = waited_ms.saturating_add(obs.elapsed_ms);
            if waited >= self.limits.page_turn_timeout_ms {
                self.spec_on_stall(from)
            } else if waited >= presses * TURN_RETRY_MS {
                (
                    self,
                    ActionView::PressNext,
                    State::PageTurning {
                        from: Box::new(from),
                        waited_ms: waited,
                        presses: presses.saturating_add(1),
                    },
                )
            } else {
                (
                    self,
                    wait_view(WAIT_TURN_MS, WaitReason::PageTurn),
                    State::PageTurning { from: Box::new(from), waited_ms: waited, presses },
                )
            }
        }
    }

    /// What an observation makes of the machine before the outcome is recorded:
    /// the changed fields, the action and the next state.
    closed spec fn spec_transition(self, obs: Observation) -> (Navigator, ActionView, State) {
        match self.state {
            State::Start => (
                self,
                ActionView::OpenBook { url: reader_url_prefix() + self.spec.asin.chars() },
                State::LoadingBook { waited_ms: 0 },
            ),
            State::LoadingBook { waited_ms } => self.spec_on_loading(obs, waited_ms),
            State::MenuOpening { attempts } => self.spec_on_menu_opening(obs, attempts),
            State::MenuOpenWait { attempts } => (
                self,
                wait_view(WAIT_MENU_MS, WaitReason::SettingsMenu),
                State::MenuOpening { attempts },
            ),
            State::ThemeWait => (
                self,
                wait_view(WAIT_APPLY_MS, WaitReason::SettingsApplied),
                State::MenuOpening { attempts: 1 },
            ),
            State::FontWait => (
                self,
                wait_view(WAIT_APPLY_MS, WaitReason::SettingsApplied),
                State::MenuClosing { attempts: 0 },
            ),
            State::MenuClosing { attempts } => self.spec_on_menu_closing(obs, attempts),
            State::MenuCloseWait { attempts } => (
                self,
                wait_view(WAIT_MENU_MS, WaitReason::SettingsMenu),
                State::MenuClosing { attempts },
            ),
            State::AwaitingRender { waited_ms } => self.spec_on_awaiting_render(obs, waited_ms),
            State::Measuring => self.spec_on_measuring(obs),
            State::Rewinding { presses, stalls, from } => self.spec_on_rewinding(
                obs,
                presses,
                stalls,
                *from,
            ),
            State::RewindWait { presses, stalls, from } => (
                self,
                wait_view(
                    if stalls > 0 {
                        WAIT_STALL_MS
                    } else {
                        WAIT_REWIND_MS
                    },
                    WaitReason::PageTurn,
                ),
                State::Rewinding { presses, stalls, from },
            ),
            State::Capturing => self.spec_on_capturing(obs),
            State::PageTurning { from, waited_ms, presses } => self.spec_on_page_turning(
                obs,
                *from,
                waited_ms,
                presses,
            ),
            State::Ended => (self, self.spec_finish(false), State::Ended),
        }
    }

    /// What one observation does: once ended, nothing, and the terminal action
    /// again; otherwise the transition, with the outcome recorded when the action
    /// is terminal.
    pub closed spec fn spec_step(self, obs: Observation) -> (Navigator, ActionView) {
        match self.outcome {
            Some(done) => (self, done@),
            None => {
                let (nav, action, state) = self.spec_transition(obs);
                (
                    Navigator {
                        state,
                        outcome: if action.terminal() {
                            Some(terminal_action(action))
                        } else {
                            None
                        },
                        ..nav
                    },
                    action,
                )
            },
        }
    }

    // ----------------------------------------------------------------
    // The machine.
    // ----------------------------------------------------------------
    /// A machine for one book with the default limits.
    pub fn new(spec: BookSpec) -> (n: Navigator)
        ensures
            n.spec_fresh(),
            n.spec_book() == spec,
            n.spec_limits() == spec_default_limits(),
    {
        Navigator::with_limits(spec, Limits::default())
    }

    /// A machine for one book with the given limits.
    pub fn with_limits(spec: BookSpec, limits: Limits) -> (n: Navigator)
        ensures
            n.spec_fresh(),
            n.spec_book() == spec,
            n.spec_limits() == limits,
    {
        Navigator {
            spec,
            limits,
            state: State::Start,
            calibrator: None,
            captured: 0,
            px_per_char: None,
            outcome: None,
        }
    }

    /// The pages captured so far.
    pub fn captured_pages(&self) -> (n: u32)
        ensures
            n == self.spec_captured(),
    {
        self.captured
    }

    /// The pixels per character adopted by the calibration; `None` before it.
    pub fn px_per_char(&self) -> (p: Option<u32>)
        ensures
            p == self.spec_px_per_char(),
    {
        self.px_per_char
    }

    /// Whether the machine has reached its end.
    pub fn is_ended(&self) -> (b: bool)
        ensures
            b == self.spec_outcome() is Some,
    {
        self.outcome.is_some()
    }

    /// The terminal action, once reached.
    pub fn outcome(&self) -> (a: Option<&Action>)
        ensures
            a == match self.spec_outcome() {
                Some(x) => Some(&x),
                None => None::<&Action>,
            },
    {
        match &self.outcome {
            Some(a) => Some(a),
            None => None,
        }
    }

    /// Takes one observation and returns the next move.
    ///
    /// Called again after the end, it keeps returning the same terminal action
    /// and changes nothing, so a caller that runs on by mistake cannot alter the
    /// result.
    pub fn step(&mut self, obs: &Observation) -> (action: Action)
        ensures
            (*final(self), action@) == old(self).spec_step(*obs),
    {
        match &self.outcome {
            Some(done) => {
                return done.clone();
            },
            None => {},
        }
        let (action, next) = self.transition(obs);
        if action.is_terminal() {
            let kept = action.clone();
            proof {
                lemma_terminal_action(kept);
            }
            self.outcome = Some(kept);
        }
        self.state = next;
        action
    }

    fn transition(&mut self, obs: &Observation) -> (r: (Action, State))
        requires
            old(self).outcome is None,
        ensures
            (*final(self), r.0@, r.1) == old(self).spec_transition(*obs),
            final(self).outcome is None,
    {
        let r = match self.state.clone() {
            State::Start => {
                let url = self.spec.asin.reader_url();
                (Action::OpenBook { url }, State::LoadingBook { waited_ms: 0 })
            },
            State::LoadingBook { waited_ms } => self.on_loading(obs, waited_ms),
            State::MenuOpening { attempts } => self.on_menu_opening(obs, attempts),
            State::MenuOpenWait { attempts } => (
                wait(WAIT_MENU_MS, WaitReason::SettingsMenu),
                State::MenuOpening { attempts },
            ),
            // After the theme, back to the settings: the font is next.
            State::ThemeWait => (
                wait(WAIT_APPLY_MS, WaitReason::SettingsApplied),
                State::MenuOpening { attempts: 1 },
            ),
            State::FontWait => (
                wait(WAIT_APPLY_MS, WaitReason::SettingsApplied),
                State::MenuClosing { attempts: 0 },
            ),
            State::MenuClosing { attempts } => self.on_menu_closing(obs, attempts),
            State::MenuCloseWait { attempts } => (
                wait(WAIT_MENU_MS, WaitReason::SettingsMenu),
                State::MenuClosing { attempts },
            ),
            State::AwaitingRender { waited_ms } => self.on_awaiting_render(obs, waited_ms),
            State::Measuring => self.on_measuring(obs),
            State::Rewinding { presses, stalls, from } => self.on_rewinding(
                obs,
                presses,
                stalls,
                from,
            ),
            State::RewindWait { presses, stalls, from } => {
                // Once the position has stalled, leave a longer gap before the next press.
                let ms = if stalls > 0 {
                    WAIT_STALL_MS
                } else {
                    WAIT_REWIND_MS
                };
                (wait(ms, WaitReason::PageTurn), State::Rewinding { presses, stalls, from })
            },
            State::Capturing => self.on_capturing(obs),
            State::PageTurning { from, waited_ms, presses } => self.on_page_turning(
                obs,
                from,
                waited_ms,
                presses,
            ),
            State::Ended => (self.finish(false), State::Ended),
        };
        r
    }

    fn on_loading(&self, obs: &Observation, waited_ms: u64) -> (r: (Action, State))
        ensures
            (*self, r.0@, r.1) == self.spec_on_loading(*obs, waited_ms),
    {
        if obs.is_book_ready() {
            return (Action::OpenSettingsMenu, State::MenuOpenWait { attempts: 1 });
        }
        let waited = waited_ms.saturating_add(obs.elapsed_ms);
        if waited >= self.limits.book_load_timeout_ms {
            return (Action::Fail(Failure::BookDidNotLoad { waited_ms: waited }), State::Ended);
        }
        (wait(WAIT_LOAD_MS, WaitReason::BookLoading), State::LoadingBook { waited_ms: waited })
    }

    fn on_menu_opening(&mut self, obs: &Observation, attempts: u8) -> (r: (Action, State))
        ensures
            (*final(self), r.0@, r.1) == old(self).spec_on_menu_opening(*obs, attempts),
    {
        // An open menu may still hide its controls while it animates.
        if obs.settings_menu_open {
            match obs.font {
                Some(font) => {
                    return self.on_settings_ready(obs, font);
                },
                None => {},
            }
        }
        if attempts >= self.limits.menu_attempts {
            return (Action::Fail(Failure::SettingsMenuUnavailable), State::Ended);
        }
        (Action::OpenSettingsMenu, State::MenuOpenWait { attempts: attempts.saturating_add(1) })
    }

    /// The settings can be touched: the theme first, then the font step.
    fn on_settings_ready(&mut self, obs: &Observation, font: FontControl) -> (r: (Action, State))
        ensures
            (*final(self), r.0@, r.1) == old(self).spec_on_settings_ready(*obs, font),
    {
        let theme = self.spec.display.theme;
        let same = match obs.theme {
            Some(t) => t == theme,
            None => false,
        };
        if !same {
            return (Action::SetTheme(theme), State::ThemeWait);
        }
        // The number of steps is known only now, so the calibration starts here.
        let c = match self.calibrator {
            Some(c) => c,
            None => Calibrator::new(self.spec.display, font.max),
        };
        self.calibrator = Some(c);
        let index = c.index();
        (Action::SetFontSize { index: font.clamp(index) }, State::FontWait)
    }

    fn on_menu_closing(&self, obs: &Observation, attempts: u8) -> (r: (Action, State))
        ensures
            (*self, r.0@, r.1) == self.spec_on_menu_closing(*obs, attempts),
    {
        if !obs.settings_menu_open {
            return self.on_awaiting_render(obs, 0);
        }
        if attempts >= self.limits.menu_attempts {
            return (Action::Fail(Failure::SettingsMenuUnavailable), State::Ended);
        }
        (Action::CloseSettingsMenu, State::MenuCloseWait { attempts: attempts.saturating_add(1) })
    }

    /// A change of the display settings rebuilds the page, and its image leaves
    /// the DOM for a while; measuring before it is back would fail.
    fn on_awaiting_render(&self, obs: &Observation, waited_ms: u64) -> (r: (Action, State))
        ensures
            (*self, r.0@, r.1) == self.spec_on_awaiting_render(*obs, waited_ms),
    {
        if obs.has_usable_image() {
            return (Action::MeasurePage, State::Measuring);
        }
        let waited = waited_ms.saturating_add(obs.elapsed_ms);
        if waited >= self.limits.render_timeout_ms {
            return (Action::Fail(Failure::PageDidNotRender { waited_ms: waited }), State::Ended);
        }
        (
            wait(WAIT_APPLY_MS, WaitReason::SettingsApplied),
            State::AwaitingRender { waited_ms: waited },
        )
    }

    fn on_measuring(&mut self, obs: &Observation) -> (r: (Action, State))
        ensures
            (*final(self), r.0@, r.1) == old(self).spec_on_measuring(*obs),
    {
        let m = match obs.metrics {
            None => {
                // The measurement has not come back yet; look again.
                return (wait(WAIT_APPLY_MS, WaitReason::SettingsApplied), State::Measuring);
            },
            Some(m) => m,
        };
        // Without a calibration the settings were never reached; the measurement
        // is still recorded and the capture goes on.
        let step = match self.calibrator {
            None => Step::GiveUp(m.px_per_char),
            Some(c) => {
                let mut c = c;
                let s = c.observe(m.px_per_char);
                self.calibrator = Some(c);
                s
            },
        };
        match step {
            Step::Satisfied(px) => {
                self.px_per_char = Some(px);
                self.start_rewind(obs)
            },
            Step::GiveUp(px) => {
                self.px_per_char = Some(px);
                self.start_rewind(obs)
            },
            Step::Retry(_) => (Action::OpenSettingsMenu, State::MenuOpenWait { attempts: 1 }),
        }
    }

    fn start_rewind(&self, obs: &Observation) -> (r: (Action, State))
        ensures
            (*self, r.0@, r.1) == self.spec_start_rewind(*obs),
    {
        if Self::is_at_start(obs) {
            return (self.capture_here(obs), State::Capturing);
        }
        let from = Box::new(obs.clone());
        (Action::PressPrev, State::RewindWait { presses: 1, stalls: 0, from })
    }

    /// The start of the book is seen. The missing "previous" control is the
    /// surest sign; the position display stands in where there is no control.
    fn is_at_start(obs: &Observation) -> (b: bool)
        ensures
            b == Self::spec_at_start(*obs),
    {
        if obs.at_start_of_book() {
            return true;
        }
        match &obs.page {
            Some(p) => p.is_first(),
            None => false,
        }
    }

    fn on_rewinding(&self, obs: &Observation, presses: u32, stalls: u8, from: Box<Observation>) -> (r: (
        Action,
        State,
    ))
        ensures
            (*self, r.0@, r.1) == self.spec_on_rewinding(*obs, presses, stalls, *from),
    {
        if Self::is_at_start(obs) {
            return (self.capture_here(obs), State::Capturing);
        }
        let stalls = if obs.advanced_from(&from) {
            0
        } else {
            stalls.saturating_add(1)
        };
        if stalls >= self.limits.rewind_stall_threshold {
            // The position stopped moving: take it for the start and capture.
            return (self.capture_here(obs), State::Capturing);
        }
        if presses >= self.limits.max_rewind_presses {
            return (Action::Fail(Failure::RewindDidNotReachStart { presses }), State::Ended);
        }
        let next = State::RewindWait {
            presses: presses.saturating_add(1),
            stalls,
            from: Box::new(obs.clone()),
        };
        (Action::PressPrev, next)
    }

    /// Capture the current page; without a position display the pages are
    /// numbered from 1.
    fn capture_here(&self, obs: &Observation) -> (a: Action)
        ensures
            a@ == self.spec_capture_here(*obs),
    {
        let label = match obs.page {
            Some(p) => p,
            None => PageLabel::new(self.captured.saturating_add(1), None),
        };
        Action::CapturePage { label }
    }

    fn on_capturing(&mut self, obs: &Observation) -> (r: (Action, State))
        ensures
            (*final(self), r.0@, r.1) == old(self).spec_on_capturing(*obs),
    {
        self.captured = self.captured.saturating_add(1);
        if self.captured >= self.limits.max_pages {
            return (
                Action::Fail(Failure::TooManyPages { limit: self.limits.max_pages }),
                State::Ended,
            );
        }
        // At the end the "next" control itself disappears; pressing it would fail
        // instead of finishing.
        let last = match &obs.page {
            Some(p) => p.is_last(),
            None => false,
        };
        if obs.at_end_of_book() || last {
            return (self.finish(true), State::Ended);
        }
        let next = State::PageTurning { from: Box::new(obs.clone()), waited_ms: 0, presses: 1 };
        (Action::PressNext, next)
    }

    /// Waiting for a page turn to show.
    ///
    /// Some presses are swallowed (clicks closer than about 100 ms are ignored).
    /// Waiting on without pressing again would, for a book with locations, be
    /// taken for the end in the middle of the book; so the press is repeated
    /// every so often.
    fn on_page_turning(
        &self,
        obs: &Observation,
        from: Box<Observation>,
        waited_ms: u64,
        presses: u8,
    ) -> (r: (Action, State))
        ensures
            (*self, r.0@, r.1) == self.spec_on_page_turning(*obs, *from, waited_ms, presses),
    {
        if obs.advanced_from(&from) && obs.has_usable_image() {
            return (self.capture_here(obs), State::Capturing);
        }
        let waited = waited_ms.saturating_add(obs.elapsed_ms);
        if waited >= self.limits.page_turn_timeout_ms {
            return self.on_stall(&from);
        }
        if waited >= (presses as u64) * TURN_RETRY_MS {
            return (
                Action::PressNext,
                State::PageTurning { from, waited_ms: waited, presses: presses.saturating_add(1) },
            );
        }
        (wait(WAIT_TURN_MS, WaitReason::PageTurn), State::PageTurning { from, waited_ms: waited, presses })
    }

    /// The pages stopped advancing.
    ///
    /// With a known number of pages, stopping before the last one is a failure.
    /// With locations the end cannot be told from a failure, so the capture ends
    /// with the end unconfirmed and leaves the judgement to later phases.
    fn on_stall(&self, from: &Observation) -> (r: (Action, State))
        ensures
            (*self, r.0@, r.1) == self.spec_on_stall(*from),
    {
        if from.at_end_of_book() {
            return (self.finish(true), State::Ended);
        }
        match &from.page {
            Some(p) => {
                if p.is_last() {
                    (self.finish(true), State::Ended)
                } else if p.can_confirm_end() {
                    (Action::Fail(Failure::PageDidNotAdvance { at: *p }), State::Ended)
                } else {
                    (self.finish(false), State::Ended)
                }
            },
            None => (self.finish(false), State::Ended),
        }
    }

    fn finish(&self, end_confirmed: bool) -> (a: Action)
        ensures
            a@ == self.spec_finish(end_confirmed),
    {
        Action::Done(
            Summary { captured_pages: self.captured, px_per_char: self.px_per_char, end_confirmed },
        )
    }
}

// ----------------------------------------------------------------
// Laws of the machine.
// ----------------------------------------------------------------
/// An observation shows the end of the book: the "next page" control is gone or
/// the position display is on its last page.
pub open spec fn end_seen(o: Observation) -> bool {
    o.end_of_book() || (o.page matches Some(p) && p.last())
}

/// The captured pages stay within the page cap: while running, below it (or
/// none yet); ever, at most the cap (at least one).
pub open spec fn within_page_cap(n: Navigator) -> bool {
    &&& n.spec_captured() <= (if n.spec_limits().max_pages >= 1 {
        n.spec_limits().max_pages
    } else {
        1
    })
    &&& n.spec_outcome() is None ==> (n.spec_captured() == 0 || n.spec_captured()
        < n.spec_limits().max_pages)
}

impl Navigator {
    /// What every machine keeps: a recorded outcome is terminal, a recorded
    /// finish reports what the machine counted and adopted, and nothing is
    /// counted as captured before capturing begins.
    pub closed spec fn spec_wf(self) -> bool {
        &&& match self.outcome {
            Some(Action::Done(s)) => s.captured_pages == self.captured && s.px_per_char
                == self.px_per_char,
            Some(Action::Fail(_)) => true,
            Some(_) => false,
            None => true,
        }
        &&& !(self.state is Capturing || self.state is PageTurning || self.state is Ended)
            ==> self.captured == 0
        &&& self.state matches State::PageTurning { from, .. } ==> !end_seen(*from)
    }

    /// The machine is about to capture the page it sees.
    pub closed spec fn spec_capturing(self) -> bool {
        self.state is Capturing
    }

    /// While rewinding, about to look: how many looks in a row showed no
    /// movement, and the observation at which "previous" was last pressed.
    pub closed spec fn spec_rewinding(self) -> Option<(u8, Observation)> {
        match self.state {
            State::Rewinding { stalls, from, .. } => Some((stalls, *from)),
            _ => None,
        }
    }

    /// While rewinding, waiting after a press: the same two.
    pub closed spec fn spec_rewind_wait(self) -> Option<(u8, Observation)> {
        match self.state {
            State::RewindWait { stalls, from, .. } => Some((stalls, *from)),
            _ => None,
        }
    }

    /// The observation the machine is waiting to see a page turn away from, if any.
    pub closed spec fn spec_turning_from(self) -> Option<Observation> {
        match self.state {
            State::PageTurning { from, .. } => Some(*from),
            _ => None,
        }
    }
}

/// A fresh machine is well formed, and every step keeps it so.
pub proof fn law_well_formed(n: Navigator, obs: Observation)
    requires
        n.spec_fresh() || n.spec_wf(),
    ensures
        n.spec_wf(),
        n.spec_step(obs).0.spec_wf(),
{
}

/// Once ended, the machine keeps returning its terminal action and changes nothing.
pub proof fn law_ended_is_final(n: Navigator, obs: Observation)
    ensures
        n.spec_outcome() matches Some(a) ==> n.spec_step(obs) == (n, a@),
{
}

/// The outcome is recorded exactly when a terminal action is returned, and it is
/// that action; the book and the limits never change.
pub proof fn law_outcome_records_the_terminal_action(n: Navigator, obs: Observation)
    ensures
        n.spec_outcome() is None ==> (n.spec_step(obs).0.spec_outcome() is Some
            <==> n.spec_step(obs).1.terminal()),
        n.spec_step(obs).0.spec_outcome() matches Some(t) ==> ((t@ == n.spec_step(obs).1
            && t@.terminal()) || n.spec_outcome() is Some),
        n.spec_step(obs).0.spec_book() == n.spec_book(),
        n.spec_step(obs).0.spec_limits() == n.spec_limits(),
{
    if n.spec_outcome() is None {
        let a = n.spec_transition(obs).1;
        if a.terminal() {
            assert(terminal_action(a)@ == a);
        }
    }
}

/// A fresh machine first opens the book by its reader URL, whatever it sees.
pub proof fn law_opens_the_book_first(n: Navigator, obs: Observation)
    requires
        n.spec_fresh(),
    ensures
        n.spec_step(obs).1 == (ActionView::OpenBook {
            url: reader_url_prefix() + n.spec_book().asin.chars(),
        }),
{
}

/// A font step is only asked for while the control is in view, and never beyond
/// the largest step the reader shows.
pub proof fn law_font_step_exists(n: Navigator, obs: Observation)
    requires
        n.spec_wf(),
    ensures
        n.spec_step(obs).1 matches ActionView::SetFontSize { index } ==> (obs.settings_menu_open
            && (obs.font matches Some(f) && index <= f.max)),
{
}

/// The font is only touched once the theme is the one wanted.
pub proof fn law_theme_before_font(n: Navigator, obs: Observation)
    requires
        n.spec_wf(),
    ensures
        n.spec_step(obs).1 is SetFontSize ==> obs.theme == Some(n.spec_book().display.theme),
{
}

/// A page is only measured once its image is usable.
pub proof fn law_measures_only_a_rendered_page(n: Navigator, obs: Observation)
    requires
        n.spec_wf(),
    ensures
        n.spec_step(obs).1 is MeasurePage ==> obs.usable_image(),
{
}

/// The rewind never presses "previous" once the start of the book is seen.
pub proof fn law_rewind_stops_at_the_start(n: Navigator, obs: Observation)
    requires
        n.spec_wf(),
    ensures
        n.spec_step(obs).1 is PressPrev ==> (!obs.start_of_book() && !(obs.page matches Some(p)
            && p.first())),
{
}

/// The rewind takes a page for the start of the book only when the start is
/// seen, or when `rewind_stall_threshold` looks in a row showed no movement: a
/// look that moved starts the count again, one that did not adds to it, and
/// the wait after a press keeps it. A single swallowed press is therefore not
/// mistaken for the start.
pub proof fn law_rewind_ends_at_a_seen_start_or_a_stall(n: Navigator, obs: Observation)
    requires
        n.spec_wf(),
    ensures
        n.spec_outcome() is None ==> (n.spec_rewinding() matches Some((stalls, from)) ==> {
            let (next, action) = n.spec_step(obs);
            let stalls_now: u8 = if obs.advanced(from) {
                0
            } else {
                stalls.saturating_add(1)
            };
            &&& action is CapturePage ==> (obs.start_of_book() || (obs.page matches Some(p)
                && p.first()) || stalls_now >= n.spec_limits().rewind_stall_threshold)
            &&& action is PressPrev ==> stalls_now < n.spec_limits().rewind_stall_threshold
                && next.spec_rewind_wait() == Some((stalls_now, obs))
        }),
        n.spec_outcome() is None && n.spec_rewind_wait() is Some ==> n.spec_step(obs).1 is Wait
            && n.spec_step(obs).0.spec_rewinding() == n.spec_rewind_wait(),
{
}

/// A page is filed under the position the reader shows; without a position
/// display, under the next number counted from 1.
pub proof fn law_capture_label(n: Navigator, obs: Observation)
    requires
        n.spec_wf(),
    ensures
        n.spec_step(obs).1 matches ActionView::CapturePage { label } ==> match obs.page {
            Some(p) => label == p,
            None => label == PageLabel {
                current: n.spec_captured().saturating_add(1),
                total: None,
                kind: LabelKind::Page,
            },
        },
{
}

/// A finished book reports what the machine counted and adopted.
pub proof fn law_done_reports_the_run(n: Navigator, obs: Observation)
    requires
        n.spec_wf(),
    ensures
        n.spec_step(obs).1 matches ActionView::Done(s) ==> (s.captured_pages
            == n.spec_step(obs).0.spec_captured() && s.px_per_char == n.spec_step(
            obs,
        ).0.spec_px_per_char()),
{
}

/// The end of the book is only claimed when it was seen: in this observation, or
/// in the one from which a page turn never came.
pub proof fn law_end_confirmed_only_when_seen(n: Navigator, obs: Observation)
    requires
        n.spec_outcome() is None,
    ensures
        (n.spec_step(obs).1 matches ActionView::Done(s) && s.end_confirmed) ==> (end_seen(obs) || (
        n.spec_turning_from() matches Some(f) && end_seen(f))),
{
}

/// The page cap holds at the start and is kept by every step: a run never
/// captures more pages than its limit allows.
pub proof fn law_page_cap(n: Navigator, obs: Observation)
    requires
        n.spec_fresh() || within_page_cap(n),
    ensures
        within_page_cap(n),
        within_page_cap(n.spec_step(obs).0),
{
}

/// A page is captured again only once the page has turned: every capture but
/// the first comes from an observation that advanced from the one at which
/// "next" was pressed.
pub proof fn law_captures_only_after_a_turn(n: Navigator, obs: Observation)
    requires
        n.spec_wf(),
    ensures
        n.spec_step(obs).1 is CapturePage ==> n.spec_captured() == 0 || (
        n.spec_turning_from() matches Some(f) && obs.advanced(f)),
{
}

/// The observation shows the end of the book: the "next page" control has left
/// the page, or the position display is at its total.
pub open spec fn shows_last_page(o: Observation) -> bool {
    ||| o.turn_controls matches Some(c) && !c.next
    ||| o.page matches Some(p) && (p.total matches Some(t) && p.current >= t)
}

/// The observation holds a page image fit to be read: loaded completely, with a
/// width and a height.
pub open spec fn shows_loaded_image(o: Observation) -> bool {
    o.image matches Some(i) && i.complete && i.natural_width > 0 && i.natural_height > 0
}

/// While capturing, a page that shows the end of the book is the last one: the
/// step counts it and finishes the book with the end confirmed (unless that
/// page reaches the page cap, which fails the run); it never presses on, which
/// on the reader would fail for want of the "next page" control.
pub proof fn law_capture_finishes_at_the_end(n: Navigator, obs: Observation)
    requires
        n.spec_outcome() is None,
        n.spec_capturing(),
        shows_last_page(obs),
    ensures
        ({
            let captured = n.spec_captured().saturating_add(1);
            &&& captured < n.spec_limits().max_pages ==> n.spec_step(obs).1 == ActionView::Done(
                Summary { captured_pages: captured, px_per_char: n.spec_px_per_char(), end_confirmed: true },
            )
            &&& captured >= n.spec_limits().max_pages ==> n.spec_step(obs).1 == ActionView::Fail(
                Failure::TooManyPages { limit: n.spec_limits().max_pages },
            )
        }),
        !(n.spec_step(obs).1 is PressNext),
{
}

/// "Next page" is never pressed on a page that showed the end of the book: a
/// first press comes only from a page that does not show it, and a press again
/// while the turn is awaited only when the page it was pressed on did not.
pub proof fn law_never_presses_on_past_the_end(n: Navigator, obs: Observation)
    requires
        n.spec_wf(),
    ensures
        n.spec_step(obs).1 is PressNext ==> match n.spec_turning_from() {
            Some(from) => !shows_last_page(from),
            None => !shows_last_page(obs),
        },
        n.spec_step(obs).1 is PressNext && n.spec_turning_from() is None ==> n.spec_step(
            obs,
        ).0.spec_turning_from() == Some(obs),
{
}

/// A page reached by a page turn is captured only once its image is loaded:
/// while the turn is awaited, a capture comes only from an observation with a
/// complete image of some width and height, of another page than the one at
/// which "next" was pressed.
pub proof fn law_turn_captures_only_a_loaded_page(n: Navigator, obs: Observation)
    requires
        n.spec_wf(),
    ensures
        n.spec_step(obs).1 is CapturePage ==> (n.spec_turning_from() matches Some(from)
            ==> shows_loaded_image(obs) && obs.advanced(from)),
{
}

fn wait(ms: u32, reason: WaitReason) -> (a: Action)
    ensures
        a@ == wait_view(ms, reason),
{
    Action::Wait { ms, reason }
}

/// A terminal action is what its view stands for.
proof fn lemma_terminal_action(a: Action)
    ensures
        a@.terminal() ==> a == terminal_action(a@),
{
}

} // verus!
