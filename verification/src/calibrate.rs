//! Font size calibration.
//!
//! The current font step can be read, so setting a step is idempotent. What the
//! steps give in pixels per character depends on the book and the viewport, so
//! the target stays in pixels per character: set a step, measure a page, check.
//!
//! Pixels per character never decrease as the step grows, so a binary search over
//! the steps works; it has flat stretches, so the range may run out without
//! reaching the target, and then the calibration gives up and goes on.
use vstd::prelude::*;
use vstd::arithmetic::power::lemma_pow0;
use vstd::arithmetic::power2::{lemma_pow2_unfold, pow2};
use crate::display::DisplayTarget;

verus! {

/// The decision after one measurement.
#[derive(Debug, Clone, Copy, PartialEq, Eq, Structural)]
pub enum Step {
    /// Within the target; the value is the pixels per character adopted.
    Satisfied(u32),
    /// Still outside; the font step to try next.
    Retry(u8),
    /// The range or the attempts ran out; the value is the last measurement.
    GiveUp(u32),
}

impl Step {
    /// The font step to try next, for `Retry` only.
    pub fn retry_index(self) -> (r: Option<u8>)
        ensures
            r == (match self {
                Step::Retry(i) => Some(i),
                _ => None,
            }),
    {
        match self {
            Step::Retry(i) => Some(i),
            _ => None,
        }
    }
}

/// A binary search over the font steps.
#[derive(Debug, Clone, Copy)]
pub struct Calibrator {
    target: DisplayTarget,
    lo: u8,
    hi: u8,
    current: u8,
    attempts: u8,
}

/// The count of steps still in `[lo, hi]`.
pub open spec fn range_size(lo: u8, hi: u8) -> int {
    hi - lo + 1
}

impl Calibrator {
    /// The search is sound: the step tried is the middle of a non-empty range.
    #[verifier::type_invariant]
    spec fn inv(self) -> bool {
        &&& self.lo <= self.current <= self.hi
        &&& self.current == self.lo + (self.hi - self.lo) / 2
    }

    /// The target.
    pub closed spec fn spec_target(self) -> DisplayTarget {
        self.target
    }

    /// The step to try now.
    pub closed spec fn spec_index(self) -> u8 {
        self.current
    }

    /// The attempts made so far.
    pub closed spec fn spec_attempts(self) -> u8 {
        self.attempts
    }

    /// The lowest step still in the search range.
    pub closed spec fn spec_lo(self) -> u8 {
        self.lo
    }

    /// The highest step still in the search range.
    pub closed spec fn spec_hi(self) -> u8 {
        self.hi
    }

    /// The search range after a measurement that is too small (`larger`) or too
    /// large: the half above or below the current step, whose middle is tried next.
    /// `None` when no step is left on that side.
    pub closed spec fn spec_narrow(self, larger: bool) -> Option<Calibrator> {
        if larger {
            if self.current >= self.hi {
                None
            } else {
                let lo = (self.current + 1) as u8;
                Some(Calibrator { lo, current: (lo + (self.hi - lo) / 2) as u8, ..self })
            }
        } else {
            if self.current <= self.lo {
                None
            } else {
                let hi = (self.current - 1) as u8;
                Some(Calibrator { hi, current: (self.lo + (hi - self.lo) / 2) as u8, ..self })
            }
        }
    }

    /// What a measurement does to the search and what it decides.
    pub closed spec fn spec_observe(self, px_per_char: u32) -> (Calibrator, Step) {
        let counted = Calibrator {
            attempts: if self.attempts == u8::MAX {
                u8::MAX
            } else {
                (self.attempts + 1) as u8
            },
            ..self
        };
        if self.target.satisfied_by(px_per_char) {
            (counted, Step::Satisfied(px_per_char))
        } else if counted.attempts >= self.target.max_calibration_attempts {
            (counted, Step::GiveUp(px_per_char))
        } else {
            match counted.spec_narrow(self.target.wants_larger(px_per_char)) {
                Some(next) => (next, Step::Retry(next.current)),
                None => (counted, Step::GiveUp(px_per_char)),
            }
        }
    }

    /// A fresh calibration: the whole range of steps, the middle one first.
    pub closed spec fn spec_new(target: DisplayTarget, max_index: u8) -> Calibrator {
        Calibrator { target, lo: 0, hi: max_index, current: max_index / 2, attempts: 0 }
    }

    /// A calibration towards `target` on a reader whose largest step is
    /// `max_index`. The first try is the middle step.
    pub fn new(target: DisplayTarget, max_index: u8) -> (c: Calibrator)
        ensures
            c == Calibrator::spec_new(target, max_index),
            c.spec_target() == target,
            c.spec_lo() == 0,
            c.spec_hi() == max_index,
            c.spec_index() == max_index / 2,
            c.spec_attempts() == 0,
    {
        assert(max_index / 2 == 0 + (max_index - 0) / 2);
        Calibrator { target, lo: 0, hi: max_index, current: max_index / 2, attempts: 0 }
    }

    /// The font step to try now.
    pub fn index(&self) -> (i: u8)
        ensures
            i == self.spec_index(),
            self.spec_lo() <= i <= self.spec_hi(),
    {
        proof {
            use_type_invariant(self);
        }
        self.current
    }

    /// The attempts made so far.
    pub fn attempts(&self) -> (n: u8)
        ensures
            n == self.spec_attempts(),
    {
        self.attempts
    }

    /// Takes a measurement and decides what to do next.
    ///
    /// Every measurement counts as an attempt. A retry always moves towards the
    /// target, stays inside the search range, at least halves it, and only comes
    /// while attempts remain.
    pub fn observe(&mut self, px_per_char: u32) -> (step: Step)
        ensures
            (*final(self), step) == old(self).spec_observe(px_per_char),
            final(self).spec_target() == old(self).spec_target(),
            final(self).spec_attempts() as int == (if old(self).spec_attempts() == u8::MAX {
                u8::MAX as int
            } else {
                old(self).spec_attempts() + 1
            }),
            old(self).spec_lo() <= final(self).spec_lo(),
            final(self).spec_hi() <= old(self).spec_hi(),
            final(self).spec_lo() <= final(self).spec_index() <= final(self).spec_hi(),
            old(self).spec_target().satisfied_by(px_per_char) ==> step == Step::Satisfied(
                px_per_char,
            ),
            !old(self).spec_target().satisfied_by(px_per_char) && final(self).spec_attempts() >= old(
                self,
            ).spec_target().max_calibration_attempts ==> step == Step::GiveUp(px_per_char),
            // A miss with attempts left searches the half of the range towards the
            // target, from its middle; with no step left on that side it gives up.
            !old(self).spec_target().satisfied_by(px_per_char) && final(self).spec_attempts() < old(
                self,
            ).spec_target().max_calibration_attempts ==> ({
                let larger = old(self).spec_target().wants_larger(px_per_char);
                let room = if larger {
                    old(self).spec_index() < old(self).spec_hi()
                } else {
                    old(self).spec_index() > old(self).spec_lo()
                };
                &&& !room ==> step == Step::GiveUp(px_per_char)
                &&& room ==> step == Step::Retry(final(self).spec_index())
                &&& room && larger ==> final(self).spec_lo() == old(self).spec_index() + 1
                    && final(self).spec_hi() == old(self).spec_hi()
                &&& room && !larger ==> final(self).spec_lo() == old(self).spec_lo()
                    && final(self).spec_hi() == old(self).spec_index() - 1
                &&& room ==> final(self).spec_index() == final(self).spec_lo()
                    + (final(self).spec_hi() - final(self).spec_lo()) / 2
            }),
            !(step is Retry) ==> final(self).spec_lo() == old(self).spec_lo() && final(self).spec_hi()
                == old(self).spec_hi() && final(self).spec_index() == old(self).spec_index(),
            step matches Step::Satisfied(px) ==> px == px_per_char
                && old(self).spec_target().satisfied_by(px_per_char),
            step matches Step::GiveUp(px) ==> px == px_per_char,
            step matches Step::Retry(i) ==> {
                &&& i == final(self).spec_index()
                &&& !old(self).spec_target().satisfied_by(px_per_char)
                &&& final(self).spec_attempts() < old(self).spec_target().max_calibration_attempts
                &&& old(self).spec_target().wants_larger(px_per_char) ==> i
                    > old(self).spec_index()
                &&& !old(self).spec_target().wants_larger(px_per_char) ==> i
                    < old(self).spec_index()
                &&& 2 * range_size(final(self).spec_lo(), final(self).spec_hi()) <= range_size(
                    old(self).spec_lo(),
                    old(self).spec_hi(),
                )
            },
    {
        proof {
            use_type_invariant(&*self);
        }
        self.attempts = if self.attempts == u8::MAX {
            u8::MAX
        } else {
            self.attempts + 1
        };
        if self.target.is_satisfied_by(px_per_char) {
            return Step::Satisfied(px_per_char);
        }
        if self.attempts >= self.target.max_calibration_attempts {
            return Step::GiveUp(px_per_char);
        }
        let larger = self.target.needs_larger(px_per_char);
        if self.narrow(larger) {
            Step::Retry(self.current)
        } else {
            Step::GiveUp(px_per_char)
        }
    }

    /// Halves the search range towards larger or smaller steps. `false`, with
    /// nothing changed, when no step is left on that side.
    fn narrow(&mut self, need_larger: bool) -> (moved: bool)
        ensures
            match old(self).spec_narrow(need_larger) {
                Some(next) => moved && *final(self) == next,
                None => !moved && *final(self) == *old(self),
            },
    {
        proof {
            use_type_invariant(&*self);
        }
        if need_larger {
            if self.current >= self.hi {
                return false;
            }
            let lo = self.current + 1;
            let current = lo + (self.hi - lo) / 2;
            *self = Calibrator { lo, current, ..*self };
        } else {
            if self.current <= self.lo {
                return false;
            }
            let hi = self.current - 1;
            let current = self.lo + (hi - self.lo) / 2;
            *self = Calibrator { hi, current, ..*self };
        }
        true
    }
}


/// Whether every measurement of `ms`, fed in turn from `c` on, asks for another try.
pub open spec fn retries_throughout(c: Calibrator, ms: Seq<u32>) -> bool
    decreases ms.len(),
{
    if ms.len() == 0 {
        true
    } else {
        let (next, step) = c.spec_observe(ms[0]);
        step is Retry && retries_throughout(next, ms.drop_first())
    }
}

/// One retry keeps the search sound and leaves at most half of the range.
proof fn lemma_retry_halves(c: Calibrator, m: u32)
    requires
        c.inv(),
    ensures
        c.spec_observe(m).1 is Retry ==> c.spec_observe(m).0.inv() && 2 * range_size(
            c.spec_observe(m).0.lo,
            c.spec_observe(m).0.hi,
        ) <= range_size(c.lo, c.hi),
{
}

/// `k` retries in a row leave a range of at most a `2^k`-th of the start.
proof fn lemma_retries_shrink(c: Calibrator, ms: Seq<u32>)
    requires
        c.inv(),
    ensures
        retries_throughout(c, ms) ==> pow2(ms.len()) <= range_size(c.lo, c.hi),
    decreases ms.len(),
{
    if ms.len() == 0 {
        lemma_pow0(2);
    } else {
        let next = c.spec_observe(ms[0]).0;
        lemma_retry_halves(c, ms[0]);
        if retries_throughout(c, ms) {
            lemma_retries_shrink(next, ms.drop_first());
            lemma_pow2_unfold(ms.len());
            assert(ms.drop_first().len() == ms.len() - 1);
        }
    }
}

/// The font steps tried, in order, when the measurements of `ms` are fed in
/// turn from `c` on: the step of `c`, then the step tried after each measurement.
pub open spec fn tried_steps(c: Calibrator, ms: Seq<u32>) -> Seq<u8>
    decreases ms.len(),
{
    if ms.len() == 0 {
        seq![c.spec_index()]
    } else {
        seq![c.spec_index()] + tried_steps(c.spec_observe(ms[0]).0, ms.drop_first())
    }
}

/// Retries in a row stay inside the range, never come back to a step, and each
/// uses up an attempt that was left.
proof fn lemma_retries_distinct(c: Calibrator, ms: Seq<u32>)
    requires
        c.inv(),
        retries_throughout(c, ms),
    ensures
        tried_steps(c, ms).len() == ms.len() + 1,
        tried_steps(c, ms).no_duplicates(),
        forall|j: int|
            0 <= j < tried_steps(c, ms).len() ==> c.lo <= #[trigger] tried_steps(c, ms)[j] <= c.hi,
        ms.len() > 0 ==> c.attempts + ms.len() < c.target.max_calibration_attempts,
    decreases ms.len(),
{
    if ms.len() > 0 {
        let next = c.spec_observe(ms[0]).0;
        lemma_retry_halves(c, ms[0]);
        lemma_retries_distinct(next, ms.drop_first());
        let rest = tried_steps(next, ms.drop_first());
        let t = tried_steps(c, ms);
        assert(t == seq![c.current] + rest);
        assert(next.lo > c.current || next.hi < c.current);
        assert forall|j: int| 0 <= j < t.len() implies c.lo <= #[trigger] t[j] <= c.hi by {
            if j > 0 {
                assert(t[j] == rest[j - 1]);
            }
        }
        assert forall|i: int, j: int| 0 <= i < t.len() && 0 <= j < t.len() && i != j implies t[i]
            != t[j] by {
            if i > 0 && j > 0 {
                assert(t[i] == rest[i - 1] && t[j] == rest[j - 1]);
            } else if i == 0 {
                assert(t[j] == rest[j - 1]);
            } else {
                assert(t[i] == rest[i - 1]);
            }
        }
    }
}

/// A calibration never tries a font step twice and asks for another try only
/// while attempts remain: from the start, `k` retries in a row try `k + 1`
/// different steps of the reader's range, and `k` stays below the attempts
/// allowed (when there are any).
pub proof fn law_calibration_tries_each_step_once(target: DisplayTarget, max_index: u8, ms: Seq<u32>)
    ensures
        retries_throughout(Calibrator::spec_new(target, max_index), ms) ==> {
            let t = tried_steps(Calibrator::spec_new(target, max_index), ms);
            &&& t.len() == ms.len() + 1
            &&& t.no_duplicates()
            &&& forall|j: int| 0 <= j < t.len() ==> #[trigger] t[j] <= max_index
            &&& ms.len() == 0 || ms.len() < target.max_calibration_attempts
        },
{
    let c = Calibrator::spec_new(target, max_index);
    assert(c.inv());
    if retries_throughout(c, ms) {
        lemma_retries_distinct(c, ms);
        let t = tried_steps(c, ms);
        assert forall|j: int| 0 <= j < t.len() implies #[trigger] t[j] <= max_index by {
            assert(c.lo <= t[j] <= c.hi);
        }
    }
}

/// The search is binary, so it cannot go on long: on a reader with
/// `max_index + 1` font steps, a calibration asks for another try at most
/// `log2(max_index + 1)` times in a row, whatever the measurements are. With
/// fourteen steps it stops by the fourth measurement.
pub proof fn law_calibration_stops(target: DisplayTarget, max_index: u8, ms: Seq<u32>)
    ensures
        retries_throughout(Calibrator::spec_new(target, max_index), ms) ==> pow2(ms.len())
            <= max_index + 1,
{
    let c = Calibrator::spec_new(target, max_index);
    assert(c.inv());
    lemma_retries_shrink(c, ms);
}
} // verus!
