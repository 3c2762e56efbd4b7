//! Running the capture phase of one book, so that a run broken off anywhere can
//! be started again.
//!
//! Nothing is decided here: the next move comes from the [`Navigator`], the
//! browser carries it out, the store keeps what came of it and a
//! [`Measurer`] measures pages. This module turns those four in a loop; the
//! caller performs the saving and the logging that [`Run`] asks for.
//!
//! A run broken off is not resumed in the middle: it is captured again from the
//! first page. The pages are numbered from the start of the book, so the same
//! display settings put the same page under the same number and writing a page
//! again changes nothing.
use vstd::prelude::*;
use vstd::string::*;
use crate::action::{
    action_debug, action_text, failure_debug, failure_text, Action, ActionView, Failure, Summary,
};
use crate::book::BookSpec;
use crate::browser::{apply, call_for, Browser, BrowserCall, Effect, Error as BrowserError, error_message};
use crate::navigator::{spec_default_limits, Limits, Navigator};
use crate::observation::Observation;
use crate::page::{PageLabel, PageMetrics};
use crate::phase::Phase;
use crate::record::{Session, Step};
use crate::store::{store_error_message, Error as StoreError, Event, Progress};
use crate::text::{decimal, decimal_string, join2, join3};

verus! {

/// How the capture phase is run.
pub struct CaptureOptions {
    /// When the state machine breaks off.
    ///
    /// A recording replays only under the limits it was made with: changing
    /// them makes the recordings taken so far useless as regression tests.
    pub limits: Limits,
    /// Whether observations and moves are recorded.
    pub record: bool,
    /// Whether a book already captured is captured again.
    pub force: bool,
    /// A guard against running away: more moves than this is a failure.
    pub max_steps: usize,
}

impl Clone for CaptureOptions {
    fn clone(&self) -> (r: CaptureOptions)
        ensures
            r == *self,
    {
        CaptureOptions {
            limits: self.limits,
            record: self.record,
            force: self.force,
            max_steps: self.max_steps,
        }
    }
}

/// The moves a run may take before it is stopped as a runaway.
pub const DEFAULT_MAX_STEPS: usize = 200_000;

impl Default for CaptureOptions {
    fn default() -> (o: CaptureOptions)
        ensures
            o.limits == spec_default_limits(),
            o.record,
            !o.force,
            o.max_steps == DEFAULT_MAX_STEPS,
    {
        CaptureOptions {
            limits: Limits::default(),
            record: true,
            force: false,
            max_steps: DEFAULT_MAX_STEPS,
        }
    }
}

/// How the capture phase ended.
///
/// `Failed` is no fault: a book without a position display whose pages stopped
/// advancing is something that happens; it is logged and the work goes on.
#[derive(Debug, Clone, Copy, PartialEq, Eq, Structural)]
pub enum Outcome {
    /// The whole book was captured.
    Finished(Summary),
    /// The capture was broken off; the pages saved so far are kept.
    Failed {
        /// Why.
        failure: Failure,
        /// How many pages were saved before.
        captured_pages: u32,
    },
    /// The book had been captured already; nothing was done.
    AlreadyDone(Summary),
}

impl Outcome {
    /// The number of pages captured.
    pub open spec fn spec_captured_pages(self) -> u32 {
        match self {
            Outcome::Finished(s) | Outcome::AlreadyDone(s) => s.captured_pages,
            Outcome::Failed { captured_pages, .. } => captured_pages,
        }
    }

    /// The number of pages captured.
    pub fn captured_pages(&self) -> (n: u32)
        ensures
            n == self.spec_captured_pages(),
    {
        match self {
            Outcome::Finished(s) | Outcome::AlreadyDone(s) => s.captured_pages,
            Outcome::Failed { captured_pages, .. } => *captured_pages,
        }
    }
}

/// Why a phase could not be run. What the reader did not allow (a
/// [`Failure`]) is not one of these: that is a result, [`Outcome::Failed`].
#[derive(Debug, PartialEq)]
pub enum Error {
    /// Driving the browser failed.
    Browser(BrowserError),
    /// Reading or writing the store failed.
    Store(StoreError),
    /// Measuring failed.
    Measure(String),
    /// The state machine did not end (a guard against running away).
    TooManySteps {
        /// The limit.
        limit: usize,
    },
}

/// The message of an error.
pub open spec fn workflow_error_message(e: Error) -> Seq<char> {
    match e {
        Error::Browser(b) => "ブラウザ操作: "@ + error_message(b),
        Error::Store(s) => "保管庫: "@ + store_error_message(s),
        Error::Measure(m) => "実測: "@ + m@,
        Error::TooManySteps { limit } => decimal(limit as nat) + " 手を超えても終わりませんでした"@,
    }
}

impl Error {
    /// The message that explains the error.
    pub fn message(&self) -> (s: String)
        ensures
            s@ == workflow_error_message(*self),
    {
        match self {
            Error::Browser(b) => {
                let m = b.message();
                join2("ブラウザ操作: ", m.as_str())
            },
            Error::Store(e) => {
                let m = e.message();
                join2("保管庫: ", m.as_str())
            },
            Error::Measure(m) => join2("実測: ", m.as_str()),
            Error::TooManySteps { limit } => {
                let n = decimal_string(*limit as u64);
                join2(n.as_str(), " 手を超えても終わりませんでした")
            },
        }
    }
}

impl From<BrowserError> for Error {
    fn from(e: BrowserError) -> (r: Error)
        ensures
            r == Error::Browser(e),
    {
        Error::Browser(e)
    }
}

impl vstd::std_specs::convert::FromSpecImpl<BrowserError> for Error {
    open spec fn obeys_from_spec() -> bool {
        true
    }

    open spec fn from_spec(v: BrowserError) -> Error {
        Error::Browser(v)
    }
}

impl From<StoreError> for Error {
    fn from(e: StoreError) -> (r: Error)
        ensures
            r == Error::Store(e),
    {
        Error::Store(e)
    }
}

impl vstd::std_specs::convert::FromSpecImpl<StoreError> for Error {
    open spec fn obeys_from_spec() -> bool {
        true
    }

    open spec fn from_spec(v: StoreError) -> Error {
        Error::Store(v)
    }
}

/// Measures a page image: the seam towards the layer that reads the text.
///
/// Font calibration needs one page measured to know whether the characters
/// have the wanted size; for vertical text the median width of a body line is
/// the pixels per character.
pub trait Measurer {
    /// The pages measured so far, in order: the PNG bytes handed over and what
    /// came back for them. This is ghost state; the default (nothing measured)
    /// only lets a measurer written outside the verified code implement the
    /// trait, since with it the contract of `measure` cannot be met.
    closed spec fn measured(&self) -> Seq<(Seq<u8>, Result<PageMetrics, Error>)> {
        Seq::empty()
    }

    /// Measures the PNG bytes of one page.
    fn measure(&mut self, png: &[u8]) -> (r: Result<PageMetrics, Error>)
        ensures
            final(self).measured() == old(self).measured().push((png@, r)),
    ;
}

/// A stand-in for measuring while there is nothing that reads text. What it
/// returns is not a measurement: a run made with it has the pixels per
/// character it was told, nothing more.
#[derive(Clone, Copy)]
pub struct StubMeasurer {
    px_per_char: u32,
    chars: u32,
    fail_after: Option<u32>,
    calls: u32,
    /// Every page handed over so far, with what came back.
    log: Ghost<Seq<(Seq<u8>, Result<PageMetrics, Error>)>>,
}

/// What a stand-in that hands out `px_per_char` and `chars` may have answered:
/// those values, or its refusal.
pub open spec fn stub_answer(px_per_char: u32, chars: u32, r: Result<PageMetrics, Error>) -> bool {
    match r {
        Ok(m) => m == PageMetrics { px_per_char, chars },
        Err(e) => e matches Error::Measure(msg) && msg@ == stub_failure_message(),
    }
}

/// `n` capped at the largest `u32`.
pub open spec fn capped(n: nat) -> u32 {
    if n <= u32::MAX {
        n as u32
    } else {
        u32::MAX
    }
}

impl StubMeasurer {
    /// The count of calls is the length of the log, capped, and every answer in
    /// the log is the configured one or the refusal.
    #[verifier::type_invariant]
    spec fn counts_its_calls(self) -> bool {
        &&& self.calls == capped(self.log@.len())
        &&& forall|i: int|
            0 <= i < self.log@.len() ==> stub_answer(
                self.px_per_char,
                self.chars,
                #[trigger] self.log@[i].1,
            )
    }

    /// The pixels per character it hands out.
    pub closed spec fn spec_px_per_char(self) -> u32 {
        self.px_per_char
    }

    /// The character count it hands out.
    pub closed spec fn spec_chars(self) -> u32 {
        self.chars
    }

    /// After how many calls it fails; `None` for never.
    pub closed spec fn spec_fail_after(self) -> Option<u32> {
        self.fail_after
    }

    /// How many times it was asked.
    pub closed spec fn spec_calls(self) -> u32 {
        self.calls
    }

    /// A stand-in that always returns the same value.
    pub fn returning(px_per_char: u32) -> (m: StubMeasurer)
        ensures
            m.spec_px_per_char() == px_per_char,
            m.spec_chars() == 0,
            m.spec_fail_after() is None,
            m.spec_calls() == 0,
            m.measured() == Seq::<(Seq<u8>, Result<PageMetrics, Error>)>::empty(),
    {
        StubMeasurer { px_per_char, chars: 0, fail_after: None, calls: 0, log: Ghost(Seq::empty()) }
    }

    /// The same stand-in, failing once it has been asked more than `calls` times.
    pub fn failing_after(self, calls: u32) -> (m: StubMeasurer)
        ensures
            m.spec_px_per_char() == self.spec_px_per_char(),
            m.spec_chars() == self.spec_chars(),
            m.spec_fail_after() == Some(calls),
            m.spec_calls() == self.spec_calls(),
            m.measured() == self.measured(),
    {
        proof {
            use_type_invariant(&self);
        }
        StubMeasurer { fail_after: Some(calls), ..self }
    }

    /// How many times it has been asked so far: after `k` calls it is `k`
    /// (failed calls counted too, and capped at the largest `u32`), and every
    /// measurement it handed out has the pixels per character it was told.
    pub fn calls(&self) -> (n: u32)
        ensures
            n == self.spec_calls(),
            n == capped(self.measured().len()),
            forall|i: int|
                0 <= i < self.measured().len() ==> stub_answer(
                    self.spec_px_per_char(),
                    self.spec_chars(),
                    #[trigger] self.measured()[i].1,
                ),
    {
        proof {
            use_type_invariant(self);
        }
        self.calls
    }
}

/// The message of a stand-in that stopped measuring.
pub open spec fn stub_failure_message() -> Seq<char> {
    "仮の実測を打ち切りました"@
}

impl Measurer for StubMeasurer {
    closed spec fn measured(&self) -> Seq<(Seq<u8>, Result<PageMetrics, Error>)> {
        self.log@
    }

    /// Counts the call; past the limit it fails, else it returns what it was told.
    fn measure(&mut self, png: &[u8]) -> (r: Result<PageMetrics, Error>)
        ensures
            final(self).spec_calls() == old(self).spec_calls().saturating_add(1),
            final(self).spec_px_per_char() == old(self).spec_px_per_char(),
            final(self).spec_chars() == old(self).spec_chars(),
            final(self).spec_fail_after() == old(self).spec_fail_after(),
            match old(self).spec_fail_after() {
                Some(n) if final(self).spec_calls() > n => r matches Err(Error::Measure(m))
                    && m@ == stub_failure_message(),
                _ => r == Ok::<PageMetrics, Error>(
                    PageMetrics {
                        px_per_char: old(self).spec_px_per_char(),
                        chars: old(self).spec_chars(),
                    },
                ),
            },
    {
        proof {
            use_type_invariant(&*self);
        }
        let calls = self.calls.saturating_add(1);
        let r = match self.fail_after {
            Some(n) if calls > n => {
                let m = String::from_str("仮の実測を打ち切りました");
                proof {
                    reveal_strlit("仮の実測を打ち切りました");
                }
                Err(Error::Measure(m))
            },
            _ => Ok(PageMetrics { px_per_char: self.px_per_char, chars: self.chars }),
        };
        let ghost log = self.log@.push((png@, r));
        assert forall|i: int| 0 <= i < log.len() implies stub_answer(
            self.px_per_char,
            self.chars,
            #[trigger] log[i].1,
        ) by {
            if i < self.log@.len() {
                assert(log[i] == self.log@[i]);
            }
        }
        *self = StubMeasurer {
            px_per_char: self.px_per_char,
            chars: self.chars,
            fail_after: self.fail_after,
            calls,
            log: Ghost(log),
        };
        r
    }
}

/// The summary of a book whose capture has finished, unless it is to be
/// captured again: a finished book is left alone.
pub open spec fn spec_already_done(p: Progress, force: bool) -> Option<Summary> {
    if !force && p.finished@.contains(Phase::Capture) {
        p.capture_summary
    } else {
        None
    }
}

/// The summary to report instead of capturing: `Some` exactly when the book has
/// finished its capture, carries the summary of it, and `force` is not set.
pub fn already_done(progress: &Progress, force: bool) -> (s: Option<Summary>)
    ensures
        s == spec_already_done(*progress, force),
{
    if force {
        return None;
    }
    if progress.has_finished(Phase::Capture) {
        progress.capture_summary
    } else {
        None
    }
}

/// What the caller has to do after a move was carried out.
#[derive(Debug, PartialEq)]
pub enum Next {
    /// Nothing; observe again.
    Continue,
    /// Save this page image under this number and label, then observe again.
    SavePage {
        /// The number from 1.
        index: u32,
        /// The PNG bytes.
        png: Vec<u8>,
        /// The position the reader showed.
        label: PageLabel,
    },
    /// The state machine ended with this action.
    Stop(Action),
}

/// The state of one capture run.
pub struct Run {
    nav: Navigator,
    record: Session,
    pending: Option<PageMetrics>,
    next_index: u32,
    steps: usize,
    origin: Ghost<Navigator>,
}

/// Whether feeding the recorded observations, in order, to the state machine
/// `nav` gives the recorded actions.
pub open spec fn replays(nav: Navigator, steps: Seq<Step>) -> bool
    decreases steps.len(),
{
    if steps.len() == 0 {
        true
    } else {
        let (next, action) = nav.spec_step(steps[0].observation);
        action == steps[0].action@ && replays(next, steps.drop_first())
    }
}

/// The state machine `nav` after it was fed the recorded observations.
pub open spec fn replayed(nav: Navigator, steps: Seq<Step>) -> Navigator
    decreases steps.len(),
{
    if steps.len() == 0 {
        nav
    } else {
        replayed(nav.spec_step(steps[0].observation).0, steps.drop_first())
    }
}

/// Replaying one more move: the earlier moves replay as before, and the new
/// one replays when it is what the machine decides after them.
pub proof fn lemma_replay_push(nav: Navigator, steps: Seq<Step>, step: Step)
    ensures
        replayed(nav, steps.push(step)) == replayed(nav, steps).spec_step(step.observation).0,
        replays(nav, steps.push(step)) == (replays(nav, steps) && replayed(
            nav,
            steps,
        ).spec_step(step.observation).1 == step.action@),
    decreases steps.len(),
{
    let all = steps.push(step);
    if steps.len() > 0 {
        let next = nav.spec_step(steps[0].observation).0;
        assert(all.drop_first() =~= steps.drop_first().push(step));
        assert(all[0] == steps[0]);
        lemma_replay_push(next, steps.drop_first(), step);
        assert(replayed(nav, all) == replayed(next, all.drop_first()));
        assert(replayed(nav, steps) == replayed(next, steps.drop_first()));
    } else {
        let (next, action) = nav.spec_step(step.observation);
        assert(all.drop_first() =~= Seq::<Step>::empty());
        assert(all[0] == step);
        assert(replayed(next, Seq::<Step>::empty()) == next);
        assert(replays(next, Seq::<Step>::empty()));
        assert(replayed(nav, all) == replayed(next, all.drop_first()));
        assert(replays(nav, all) == (action == step.action@ && replays(next, all.drop_first())));
    }
}

/// The observation as the state machine gets it: with the last measurement
/// put in, or without one when there is none.
pub open spec fn with_metrics(obs: Observation, metrics: Option<PageMetrics>) -> Observation {
    Observation { metrics, ..obs }
}

impl Run {
    /// The state machine.
    pub closed spec fn spec_nav(self) -> Navigator {
        self.nav
    }

    /// The moves recorded so far.
    pub closed spec fn spec_record(self) -> Seq<Step> {
        self.record.spec_steps()
    }

    /// The measurement waiting to go into the next observation.
    pub closed spec fn spec_pending(self) -> Option<PageMetrics> {
        self.pending
    }

    /// The number the next saved page gets.
    pub closed spec fn spec_next_index(self) -> u32 {
        self.next_index
    }

    /// The moves taken so far.
    pub closed spec fn spec_steps(self) -> usize {
        self.steps
    }

    /// The state machine as the run began.
    pub closed spec fn spec_origin(self) -> Navigator {
        self.origin@
    }

    /// The recording replays from the machine the run began with, and ends in
    /// the machine the run has now.
    pub closed spec fn wf(self) -> bool {
        &&& replays(self.origin@, self.record.spec_steps())
        &&& replayed(self.origin@, self.record.spec_steps()) == self.nav
    }

    /// A run of a fresh state machine for the book, nothing recorded, the first
    /// page to be saved as number 1.
    pub fn new(spec: BookSpec, limits: Limits) -> (r: Run)
        ensures
            r.wf(),
            r.spec_origin() == r.spec_nav(),
            r.spec_nav().spec_fresh(),
            r.spec_nav().spec_book() == spec,
            r.spec_nav().spec_limits() == limits,
            r.spec_record() == Seq::<Step>::empty(),
            r.spec_pending() is None,
            r.spec_next_index() == 1,
            r.spec_steps() == 0,
    {
        let nav = Navigator::with_limits(spec, limits);
        let ghost origin = nav;
        Run {
            nav,
            record: Session::new(),
            pending: None,
            next_index: 1,
            steps: 0,
            origin: Ghost(origin),
        }
    }

    /// The pages saved so far.
    pub fn saved_pages(&self) -> (n: u32)
        ensures
            n == self.spec_next_index().saturating_sub(1),
    {
        self.next_index.saturating_sub(1)
    }

    /// The recording of the run.
    pub fn record(&self) -> (s: &Session)
        ensures
            s.spec_steps() == self.spec_record(),
    {
        &self.record
    }

    /// Takes an observation: puts the waiting measurement in, asks the state
    /// machine for the next move and records both. The observation is recorded
    /// as the machine saw it, else the recording could not be replayed.
    pub fn decide(&mut self, obs: Observation) -> (action: Action)
        requires
            old(self).wf(),
        ensures
            final(self).wf(),
            final(self).spec_origin() == old(self).spec_origin(),
            ({
                let seen = with_metrics(obs, old(self).spec_pending());
                let (nav, a) = old(self).spec_nav().spec_step(seen);
                &&& final(self).spec_nav() == nav
                &&& action@ == a
                &&& final(self).spec_record() == old(self).spec_record().push(
                    Step { observation: seen, action },
                )
                &&& final(self).spec_pending() is None
                &&& final(self).spec_next_index() == old(self).spec_next_index()
                &&& final(self).spec_steps() == old(self).spec_steps()
            }),
    {
        let mut obs = obs;
        obs.metrics = self.pending;
        self.pending = None;
        let ghost before = self.record.spec_steps();
        let action = self.nav.step(&obs);
        let kept = action.clone();
        proof {
            lemma_replay_push(self.origin@, before, Step { observation: obs, action: kept });
        }
        self.record.push(obs, kept);
        action
    }

    /// One move: observes the browser and decides, unless `max_steps` moves have
    /// been taken already. The move is what the state machine answers to the
    /// observation the browser handed out, with the pending measurement in it.
    pub fn next_move<B: Browser>(&mut self, browser: &mut B, max_steps: usize) -> (r: Result<
        Action,
        Error,
    >)
        requires
            old(self).wf(),
        ensures
            final(self).wf(),
            final(self).spec_origin() == old(self).spec_origin(),
            old(self).spec_steps() >= max_steps ==> r == Err::<Action, Error>(
                Error::TooManySteps { limit: max_steps },
            ) && *final(self) == *old(self) && *final(browser) == *old(browser),
            old(self).spec_steps() < max_steps ==> final(browser).calls() == old(
                browser,
            ).calls().push((BrowserCall::Observe, browser_failure(r))) && (r is Err ==> r
                == Err::<Action, Error>(Error::Browser(browser_failure(r)->0))),
            old(self).spec_steps() < max_steps ==> match r {
                Err(e) => e is Browser && *final(self) == *old(self),
                Ok(action) => final(browser).last_observation() is Some && {
                        let seen = with_metrics(
                            final(browser).last_observation()->0,
                            old(self).spec_pending(),
                        );
                        let (nav, a) = old(self).spec_nav().spec_step(seen);
                        &&& final(self).spec_nav() == nav
                        &&& action@ == a
                        &&& final(self).spec_record() == old(self).spec_record().push(
                            Step { observation: seen, action },
                        )
                        &&& final(self).spec_pending() is None
                        &&& final(self).spec_next_index() == old(self).spec_next_index()
                        &&& final(self).spec_steps() == old(self).spec_steps() + 1
                    },
            },
    {
        if self.steps >= max_steps {
            return Err(Error::TooManySteps { limit: max_steps });
        }
        let obs = match browser.observe() {
            Ok(o) => o,
            Err(e) => {
                return Err(Error::Browser(e));
            },
        };
        let ghost before = *self;
        let action = self.decide(obs);
        self.steps = self.steps + 1;
        proof {
            let seen = with_metrics(obs, before.pending);
            assert(with_metrics(obs, old(self).spec_pending()) == seen);
        }
        Ok(action)
    }

    /// Carries out a move and says what the caller has to do with what came of
    /// it: a measured page goes into the next observation, a captured page is to
    /// be saved under the next number, a terminal move stops the run.
    pub fn perform<B: Browser, M: Measurer>(
        &mut self,
        browser: &mut B,
        measurer: &mut M,
        action: &Action,
    ) -> (r: Result<Next, Error>)
        requires
            old(self).wf(),
        ensures
            final(self).wf(),
            final(self).spec_origin() == old(self).spec_origin(),
            final(self).spec_nav() == old(self).spec_nav(),
            final(self).spec_record() == old(self).spec_record(),
            final(self).spec_steps() == old(self).spec_steps(),
            action@.terminal() ==> r == Ok::<Next, Error>(Next::Stop(*action))
                && final(self).spec_pending() == old(self).spec_pending()
                && final(self).spec_next_index() == old(self).spec_next_index()
                && final(browser).calls() == old(browser).calls(),
            !(action@ is MeasurePage) ==> *final(measurer) == *old(measurer),
            // Measuring: the page image is fetched; if that fails the error is
            // handed on, else exactly that image is measured, and what the
            // measurer answered becomes the pending measurement or the error.
            action@ is MeasurePage ==> final(self).spec_next_index() == old(self).spec_next_index()
                && ({
                let c = final(browser).calls();
                &&& c.len() > 0
                &&& c == old(browser).calls().push((BrowserCall::CapturePage, c.last().1))
                &&& match c.last().1 {
                    Some(e) => r == Err::<Next, Error>(Error::Browser(e)) && *final(measurer)
                        == *old(measurer) && final(self).spec_pending() == old(self).spec_pending(),
                    None => {
                        let m = final(measurer).measured();
                        &&& final(browser).last_image() is Some
                        &&& m.len() > 0
                        &&& m == old(measurer).measured().push(
                            (final(browser).last_image()->0.png@, m.last().1),
                        )
                        &&& match m.last().1 {
                            Ok(metrics) => r == Ok::<Next, Error>(Next::Continue)
                                && final(self).spec_pending() == Some(metrics),
                            Err(e) => r == Err::<Next, Error>(e) && final(self).spec_pending()
                                == old(self).spec_pending(),
                        }
                    },
                }
            }),
            // Every other action is one browser operation, whose error, if any,
            // is handed on.
            !(action@.terminal() || action@ is MeasurePage) ==> final(browser).calls() == old(
                browser,
            ).calls().push((call_for(action@)->0, browser_failure(r))) && (r is Err ==> r
                == Err::<Next, Error>(Error::Browser(browser_failure(r)->0)))
                && final(self).spec_pending() == old(self).spec_pending(),
            // Capturing: the image fetched is to be saved under the next number.
            action@ matches ActionView::CapturePage { label } ==> match r {
                Ok(next) => next matches Next::SavePage { index, label: l, png } && index
                    == old(self).spec_next_index() && l == label && final(browser).last_image()
                    is Some && png@ == final(browser).last_image()->0.png@
                    && final(self).spec_next_index() == old(self).spec_next_index().saturating_add(1),
                Err(_) => final(self).spec_next_index() == old(self).spec_next_index(),
            },
            !(action@.terminal() || action@ is MeasurePage || action@ is CapturePage) ==> (r is Ok
                ==> r == Ok::<Next, Error>(Next::Continue)) && final(self).spec_next_index() == old(
                self,
            ).spec_next_index(),
            action@ is Wait ==> r == Ok::<Next, Error>(Next::Continue),
    {
        let effect = match apply(browser, action) {
            Ok(e) => e,
            Err(e) => {
                return Err(Error::Browser(e));
            },
        };
        match effect {
            Effect::Terminal => Ok(Next::Stop(action.clone())),
            Effect::ToMeasure(image) => {
                match measurer.measure(image.png.as_slice()) {
                    Ok(m) => {
                        self.pending = Some(m);
                        Ok(Next::Continue)
                    },
                    Err(e) => Err(e),
                }
            },
            Effect::Captured { label, image } => {
                let index = self.next_index;
                self.next_index = self.next_index.saturating_add(1);
                Ok(Next::SavePage { index, png: image.png, label })
            },
            Effect::Nothing => Ok(Next::Continue),
        }
    }
}

/// The error of the browser that a result hands on, if it hands one on.
pub open spec fn browser_failure<T>(r: Result<T, Error>) -> Option<BrowserError> {
    match r {
        Err(Error::Browser(e)) => Some(e),
        _ => None,
    }
}

/// A run's recording replays: fed the recorded observations in order, the
/// state machine the run began with decides the recorded actions and ends where
/// the run is now. A recording is therefore a regression test of the decisions.
pub proof fn law_a_run_replays_its_recording(run: Run)
    requires
        run.wf(),
    ensures
        replays(run.spec_origin(), run.spec_record()),
        replayed(run.spec_origin(), run.spec_record()) == run.spec_nav(),
{
}

/// What the log gets and the caller is told when the state machine ended with
/// `last`, `captured_pages` pages saved: a finished capture is logged with its
/// summary; a broken-off one is logged as failed, with the reason, and reported
/// as a result rather than an error; any other action cannot end a run.
pub open spec fn finish_fits(last: ActionView, captured_pages: u32, r: Result<(Event, Outcome), Error>) -> bool {
    match last {
        ActionView::Done(summary) => r == Ok::<(Event, Outcome), Error>(
            (
                Event::PhaseFinished { phase: Phase::Capture, summary: Some(summary) },
                Outcome::Finished(summary),
            ),
        ),
        ActionView::Fail(failure) => r matches Ok((Event::PhaseFailed { phase, reason }, outcome))
            && phase == Phase::Capture && reason@ == failure_debug(failure) && outcome
            == (Outcome::Failed { failure, captured_pages }),
        _ => r matches Err(Error::Measure(m)) && m@ == "終端でない行動で終わりました: "@
            + action_debug(last),
    }
}

/// Turns the move the state machine ended with into the event to log and the
/// outcome to report.
pub fn finish(last: Action, captured_pages: u32) -> (r: Result<(Event, Outcome), Error>)
    ensures
        finish_fits(last@, captured_pages, r),
{
    match last {
        Action::Done(summary) => Ok(
            (
                Event::PhaseFinished { phase: Phase::Capture, summary: Some(summary) },
                Outcome::Finished(summary),
            ),
        ),
        Action::Fail(failure) => {
            let reason = failure_text(&failure);
            Ok(
                (
                    Event::PhaseFailed { phase: Phase::Capture, reason },
                    Outcome::Failed { failure, captured_pages },
                ),
            )
        },
        other => {
            let d = action_text(&other);
            Err(Error::Measure(join2("終端でない行動で終わりました: ", d.as_str())))
        },
    }
}

/// The name of the file a run's recording is kept in, by its number of moves.
pub fn record_file_name(moves: usize) -> (name: String)
    ensures
        name@ == "capture-"@ + decimal(moves as nat) + ".jsonl"@,
{
    let n = decimal_string(moves as u64);
    join3("capture-", n.as_str(), ".jsonl")
}

} // verus!
