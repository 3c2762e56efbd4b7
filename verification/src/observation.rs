//! What the navigation state machine sees: observed facts, with no interpretation.
use vstd::prelude::*;
use crate::display::{FontControl, Theme};
use crate::page::{PageImageInfo, PageLabel, PageMetrics};

verus! {

/// Whether the page-turn controls are present.
///
/// At the end of a book the "next page" control leaves the DOM, at the start the
/// "previous page" one. This does not depend on the position display at all.
#[derive(Debug, Clone, Copy, PartialEq, Eq, Structural)]
pub struct TurnControls {
    /// The reader can go forward.
    pub next: bool,
    /// The reader can go back.
    pub prev: bool,
}

impl TurnControls {
    /// Somewhere in the middle: both ways open.
    pub fn both() -> (c: TurnControls)
        ensures
            c == (TurnControls { next: true, prev: true }),
    {
        TurnControls { next: true, prev: true }
    }

    /// At the end: no way forward.
    pub fn at_end() -> (c: TurnControls)
        ensures
            c == (TurnControls { next: false, prev: true }),
    {
        TurnControls { next: false, prev: true }
    }

    /// At the start: no way back.
    pub fn at_start() -> (c: TurnControls)
        ensures
            c == (TurnControls { next: true, prev: false }),
    {
        TurnControls { next: true, prev: false }
    }
}

/// What could be observed of the reader at one moment.
#[derive(Debug, PartialEq)]
pub struct Observation {
    /// Milliseconds since the previous action.
    pub elapsed_ms: u64,
    /// The position display, when it could be read.
    pub page: Option<PageLabel>,
    /// The page image, when there is one yet.
    pub image: Option<PageImageInfo>,
    /// The settings menu is open.
    pub settings_menu_open: bool,
    /// The font size control; `None` while the settings menu is closed.
    pub font: Option<FontControl>,
    /// The colour theme, when it could be told.
    pub theme: Option<Theme>,
    /// The page-turn controls, when they could be observed.
    pub turn_controls: Option<TurnControls>,
    /// What measuring the page gave, after a request to measure it.
    pub metrics: Option<PageMetrics>,
}

impl Clone for Observation {
    fn clone(&self) -> (r: Observation)
        ensures
            r == *self,
    {
        Observation {
            elapsed_ms: self.elapsed_ms,
            page: self.page,
            image: match &self.image {
                Some(i) => Some(i.clone()),
                None => None,
            },
            settings_menu_open: self.settings_menu_open,
            font: self.font,
            theme: self.theme,
            turn_controls: self.turn_controls,
            metrics: self.metrics,
        }
    }
}

impl Default for Observation {
    fn default() -> (o: Observation)
        ensures
            o == Observation::empty(),
    {
        Observation {
            elapsed_ms: 0,
            page: None,
            image: None,
            settings_menu_open: false,
            font: None,
            theme: None,
            turn_controls: None,
            metrics: None,
        }
    }
}

impl Observation {
    /// The observation in which nothing could be seen.
    pub open spec fn empty() -> Observation {
        Observation {
            elapsed_ms: 0,
            page: None,
            image: None,
            settings_menu_open: false,
            font: None,
            theme: None,
            turn_controls: None,
            metrics: None,
        }
    }

    /// There is a page image that can serve as OCR input.
    pub open spec fn usable_image(self) -> bool {
        match self.image {
            Some(i) => i.usable(),
            None => false,
        }
    }

    /// The settings can be changed: the menu is open and the font control shows.
    pub open spec fn settings_changeable(self) -> bool {
        self.settings_menu_open && self.font is Some
    }

    /// The end of the book is confirmed by the missing "next page" control.
    pub open spec fn end_of_book(self) -> bool {
        match self.turn_controls {
            Some(c) => !c.next,
            None => false,
        }
    }

    /// The start of the book is confirmed by the missing "previous page" control.
    pub open spec fn start_of_book(self) -> bool {
        match self.turn_controls {
            Some(c) => !c.prev,
            None => false,
        }
    }

    /// This observation shows another page than `previous`: by the position
    /// display when both have one, else by the source of the page image.
    pub open spec fn advanced(self, previous: Observation) -> bool {
        match (self.page, previous.page) {
            (Some(now), Some(before)) => now != before,
            _ => match (self.image, previous.image) {
                (Some(now), Some(before)) => now.differs(before),
                _ => false,
            },
        }
    }

    /// Whether the page image can serve as OCR input.
    pub fn has_usable_image(&self) -> (b: bool)
        ensures
            b == self.usable_image(),
    {
        match &self.image {
            Some(i) => i.is_usable(),
            None => false,
        }
    }

    /// Whether the book is open and readable. Only the page image counts:
    /// some books have no position display.
    pub fn is_book_ready(&self) -> (b: bool)
        ensures
            b == self.usable_image(),
    {
        self.has_usable_image()
    }

    /// Whether the display settings can be changed.
    pub fn can_change_settings(&self) -> (b: bool)
        ensures
            b == self.settings_changeable(),
    {
        self.settings_menu_open && self.font.is_some()
    }

    /// Whether the end of the book is confirmed. Without an observation of the
    /// controls the answer is `false`, so that a book is never ended early.
    pub fn at_end_of_book(&self) -> (b: bool)
        ensures
            b == self.end_of_book(),
    {
        match self.turn_controls {
            Some(c) => !c.next,
            None => false,
        }
    }

    /// Whether the start of the book is confirmed.
    pub fn at_start_of_book(&self) -> (b: bool)
        ensures
            b == self.start_of_book(),
    {
        match self.turn_controls {
            Some(c) => !c.prev,
            None => false,
        }
    }

    /// Whether this observation shows another page than `previous`.
    pub fn advanced_from(&self, previous: &Observation) -> (b: bool)
        ensures
            b == self.advanced(*previous),
    {
        match (self.page, previous.page) {
            (Some(now), Some(before)) => {
                return !(now == before);
            },
            _ => {},
        }
        match (&self.image, &previous.image) {
            (Some(now), Some(before)) => now.differs_from(before),
            _ => false,
        }
    }
}

/// Advancing is judged by what is seen and nothing else: an observation never
/// shows another page than itself, and nothing observed means no advance.
pub proof fn law_no_advance_without_change(o: Observation)
    ensures
        !o.advanced(o),
        !Observation::empty().advanced(o),
        !o.advanced(Observation::empty()),
{
}

/// The ends of a book are only claimed when the controls were observed.
pub proof fn law_ends_need_observed_controls(o: Observation)
    ensures
        o.turn_controls is None ==> !o.end_of_book() && !o.start_of_book(),
{
}

} // verus!
