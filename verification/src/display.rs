//! The reader's display settings while pages are captured.
//!
//! The font size is a discrete step from 0 up to a maximum that the reader shows.
//! How many pixels a character gets at each step depends on the book and the
//! viewport, so the target is stated in pixels per character and reached by
//! setting, measuring and checking.
use vstd::prelude::*;

verus! {

/// The reader's colour theme. White on black would need inverting before OCR.
#[derive(Debug, Clone, Copy, PartialEq, Eq, Structural, Hash)]
pub enum Theme {
    /// Black text on white: the one used for OCR.
    White,
    /// White text on black.
    Dark,
    /// Sepia.
    Sepia,
    /// Green.
    Green,
}

impl Default for Theme {
    fn default() -> (t: Theme)
        ensures
            t == Theme::White,
    {
        Theme::White
    }
}

/// What the font size control shows: the current step and the largest one.
#[derive(Debug, Clone, Copy, PartialEq, Eq, Structural)]
pub struct FontControl {
    /// The current step.
    pub index: u8,
    /// The largest step.
    pub max: u8,
}

impl FontControl {
    /// A control at `index` whose largest step is `max`.
    pub fn new(index: u8, max: u8) -> (f: FontControl)
        ensures
            f == (FontControl { index, max }),
    {
        FontControl { index, max }
    }

    /// `index` brought into the range of steps that the reader offers.
    pub fn clamp(&self, index: u8) -> (i: u8)
        ensures
            i == (if index <= self.max { index } else { self.max }),
    {
        if index <= self.max {
            index
        } else {
            self.max
        }
    }
}

/// The target of the font calibration, in pixels per character.
#[derive(Debug, Clone, Copy, PartialEq, Eq, Structural)]
pub struct DisplayTarget {
    /// The colour theme.
    pub theme: Theme,
    /// The smallest acceptable pixels per character.
    pub min_px_per_char: u32,
    /// The largest acceptable pixels per character; larger means more pages to capture.
    pub max_px_per_char: u32,
    /// How many calibration attempts to make before going on with the last setting.
    pub max_calibration_attempts: u8,
}

/// The balanced preset: accuracy against the number of pages.
pub open spec fn spec_balanced() -> DisplayTarget {
    DisplayTarget {
        theme: Theme::White,
        min_px_per_char: 40,
        max_px_per_char: 50,
        max_calibration_attempts: 6,
    }
}

impl DisplayTarget {
    /// The default: balances accuracy against the number of pages (about 45 px per character).
    pub fn balanced() -> (t: DisplayTarget)
        ensures
            t == spec_balanced(),
    {
        DisplayTarget {
            theme: Theme::White,
            min_px_per_char: 40,
            max_px_per_char: 50,
            max_calibration_attempts: 6,
        }
    }

    /// For books with much ruby: larger characters.
    pub fn ruby_first() -> (t: DisplayTarget)
        ensures
            t == (DisplayTarget { min_px_per_char: 48, max_px_per_char: 60, ..spec_balanced() }),
    {
        DisplayTarget { min_px_per_char: 48, max_px_per_char: 60, ..DisplayTarget::balanced() }
    }

    /// For books without ruby: a quarter of the pages.
    pub fn fast() -> (t: DisplayTarget)
        ensures
            t == (DisplayTarget { min_px_per_char: 26, max_px_per_char: 34, ..spec_balanced() }),
    {
        DisplayTarget { min_px_per_char: 26, max_px_per_char: 34, ..DisplayTarget::balanced() }
    }

    /// The measurement is within the target.
    pub open spec fn satisfied_by(self, px_per_char: u32) -> bool {
        self.min_px_per_char <= px_per_char && px_per_char <= self.max_px_per_char
    }

    /// The measurement is below the target: the font must grow.
    pub open spec fn wants_larger(self, px_per_char: u32) -> bool {
        px_per_char < self.min_px_per_char
    }

    /// Whether the measurement is within the target.
    pub fn is_satisfied_by(&self, px_per_char: u32) -> (b: bool)
        ensures
            b == self.satisfied_by(px_per_char),
    {
        self.min_px_per_char <= px_per_char && px_per_char <= self.max_px_per_char
    }

    /// Whether the measurement is below the target, so that the font must grow.
    pub fn needs_larger(&self, px_per_char: u32) -> (b: bool)
        ensures
            b == self.wants_larger(px_per_char),
    {
        px_per_char < self.min_px_per_char
    }
}

impl Default for DisplayTarget {
    /// The balanced preset.
    fn default() -> (t: DisplayTarget)
        ensures
            t == spec_balanced(),
    {
        DisplayTarget::balanced()
    }
}

} // verus!
