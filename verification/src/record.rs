//! Recording sessions and playing them back.
//!
//! When something goes wrong on the real reader, the session that led there can
//! be brought home: it holds only observations and actions, never page images
//! (the content of the book), and the book it was taken from is hidden before
//! it is stored.
//!
//! A recording replays only under the limits it was taken with: other limits
//! make other decisions, which show up as divergences.
use vstd::prelude::*;
use vstd::string::*;
use crate::action::{action_debug, action_text, Action, ActionView, Failure};
use crate::browser::{failure, Browser, BrowserCall, Direction, Error, PageImage};
use crate::display::Theme;
use crate::observation::Observation;
use crate::text::{decimal, decimal_string, join3};

verus! {

/// The URL that recordings show in place of the real book.
pub open spec fn redacted_url() -> Seq<char> {
    "https://read.amazon.co.jp/?asin=B0TESTBOOK"@
}

/// One recorded move: "this was seen, so this was decided".
#[derive(Debug, PartialEq)]
pub struct Step {
    /// What the state machine saw, with any measurement already filled in (or
    /// else the decision could not be replayed).
    pub observation: Observation,
    /// What it decided.
    pub action: Action,
}

impl Clone for Step {
    fn clone(&self) -> (r: Step)
        ensures
            r == *self,
    {
        Step { observation: self.observation.clone(), action: self.action.clone() }
    }
}

/// The recording of one session.
#[derive(Debug, PartialEq)]
pub struct Session {
    steps: Vec<Step>,
}

/// Where a replay first decided otherwise than the recording.
#[derive(Debug, PartialEq)]
pub struct Divergence {
    /// The move, from 0.
    pub at: usize,
    /// The recorded action.
    pub recorded: Action,
    /// The action decided now.
    pub produced: Action,
}

/// The first move from `i` on at which `produced` differs from `recorded`, a
/// missing move counting as a difference.
pub open spec fn divergence_from(recorded: Seq<ActionView>, produced: Seq<ActionView>, i: int) -> Option<
    int,
>
    decreases recorded.len() - i,
{
    if i < 0 || i >= recorded.len() {
        None
    } else if i >= produced.len() || produced[i] != recorded[i] {
        Some(i)
    } else {
        divergence_from(recorded, produced, i + 1)
    }
}

/// The first move at which `produced` differs from `recorded`.
pub open spec fn first_divergence(recorded: Seq<ActionView>, produced: Seq<ActionView>) -> Option<
    int,
> {
    divergence_from(recorded, produced, 0)
}

/// The actions of a list, by their views.
pub open spec fn action_views(actions: Seq<Action>) -> Seq<ActionView> {
    actions.map_values(|a: Action| a@)
}

/// What a recorded action becomes in a redacted recording: an opened URL is
/// replaced, everything else kept.
pub open spec fn redacted_action(a: ActionView) -> ActionView {
    match a {
        ActionView::OpenBook { .. } => ActionView::OpenBook { url: redacted_url() },
        other => other,
    }
}

impl Session {
    /// The recorded moves.
    pub closed spec fn spec_steps(self) -> Seq<Step> {
        self.steps@
    }

    /// The recorded actions, by their views.
    pub open spec fn spec_actions(self) -> Seq<ActionView> {
        self.spec_steps().map_values(|s: Step| s.action@)
    }

    /// An empty recording.
    pub fn new() -> (s: Session)
        ensures
            s.spec_steps() == Seq::<Step>::empty(),
    {
        Session { steps: Vec::new() }
    }

    /// A recording of these moves, in this order.
    pub fn from_steps(steps: Vec<Step>) -> (s: Session)
        ensures
            s.spec_steps() == steps@,
    {
        Session { steps }
    }

    /// Records one move.
    pub fn push(&mut self, observation: Observation, action: Action)
        ensures
            final(self).spec_steps() == old(self).spec_steps().push(Step { observation, action }),
    {
        self.steps.push(Step { observation, action });
    }

    /// All recorded moves.
    pub fn steps(&self) -> (s: &[Step])
        ensures
            s@ == self.spec_steps(),
    {
        self.steps.as_slice()
    }

    /// The number of recorded moves.
    pub fn len(&self) -> (n: usize)
        ensures
            n == self.spec_steps().len(),
    {
        self.steps.len()
    }

    /// Whether nothing is recorded.
    pub fn is_empty(&self) -> (b: bool)
        ensures
            b == (self.spec_steps().len() == 0),
    {
        self.steps.len() == 0
    }

    /// The observations in order; they can be fed to the state machine as they are.
    pub fn observations(&self) -> (v: Vec<&Observation>)
        ensures
            v@.len() == self.spec_steps().len(),
            forall|i: int| 0 <= i < v@.len() ==> *v@[i] == #[trigger] self.spec_steps()[i].observation,
    {
        let mut v: Vec<&Observation> = Vec::new();
        let mut i: usize = 0;
        while i < self.steps.len()
            invariant
                i <= self.steps@.len(),
                v@.len() == i,
                forall|k: int| 0 <= k < i ==> *v@[k] == #[trigger] self.steps@[k].observation,
            decreases self.steps.len() - i,
        {
            v.push(&self.steps[i].observation);
            i = i + 1;
        }
        v
    }

    /// The actions in order.
    pub fn actions(&self) -> (v: Vec<&Action>)
        ensures
            v@.len() == self.spec_steps().len(),
            forall|i: int| 0 <= i < v@.len() ==> *v@[i] == #[trigger] self.spec_steps()[i].action,
    {
        let mut v: Vec<&Action> = Vec::new();
        let mut i: usize = 0;
        while i < self.steps.len()
            invariant
                i <= self.steps@.len(),
                v@.len() == i,
                forall|k: int| 0 <= k < i ==> *v@[k] == #[trigger] self.steps@[k].action,
            decreases self.steps.len() - i,
        {
            v.push(&self.steps[i].action);
            i = i + 1;
        }
        v
    }

    /// Compares the actions a state machine produced now with the recording and
    /// returns the first move where they differ. `None` when they agree; a
    /// shorter run counts as differing at its first missing move.
    pub fn diverged_from(&self, produced: &[Action]) -> (d: Option<Divergence>)
        ensures
            match first_divergence(self.spec_actions(), action_views(produced@)) {
                None => d is None,
                Some(at) => d matches Some(dv) && dv.at == at && dv.recorded@
                    == self.spec_actions()[at] && dv.produced@ == (if at < produced@.len() {
                    produced@[at]@
                } else {
                    ActionView::Fail(Failure::SettingsMenuUnavailable)
                }),
            },
    {
        let ghost rec = self.spec_actions();
        let ghost prod = action_views(produced@);
        let mut at: usize = 0;
        while at < self.steps.len()
            invariant
                at <= self.steps@.len(),
                rec == self.spec_actions(),
                prod == action_views(produced@),
                rec.len() == self.steps@.len(),
                prod.len() == produced@.len(),
                first_divergence(rec, prod) == divergence_from(rec, prod, at as int),
            decreases self.steps.len() - at,
        {
            assert(rec[at as int] == self.steps@[at as int].action@);
            if at < produced.len() {
                assert(prod[at as int] == produced@[at as int]@);
                if !produced[at].same_as(&self.steps[at].action) {
                    return Some(
                        Divergence {
                            at,
                            recorded: self.steps[at].action.clone(),
                            produced: produced[at].clone(),
                        },
                    );
                }
            } else {
                // The replay is shorter than the recording: it stopped early.
                return Some(
                    Divergence {
                        at,
                        recorded: self.steps[at].action.clone(),
                        produced: Action::Fail(Failure::SettingsMenuUnavailable),
                    },
                );
            }
            at = at + 1;
        }
        None
    }

    /// A copy in which every opened URL points to a stand-in book, so that the
    /// recording can be kept in a public repository. Observations are kept as
    /// they are: they are needed to replay the decisions.
    pub fn redacted(&self) -> (r: Session)
        ensures
            r.spec_steps().len() == self.spec_steps().len(),
            forall|i: int|
                0 <= i < self.spec_steps().len() ==> (#[trigger] r.spec_steps()[i]).observation
                    == self.spec_steps()[i].observation && r.spec_steps()[i].action@
                    == redacted_action(self.spec_steps()[i].action@),
    {
        let mut steps: Vec<Step> = Vec::new();
        let mut i: usize = 0;
        while i < self.steps.len()
            invariant
                i <= self.steps@.len(),
                steps@.len() == i,
                forall|k: int|
                    0 <= k < i ==> (#[trigger] steps@[k]).observation == self.steps@[k].observation
                        && steps@[k].action@ == redacted_action(self.steps@[k].action@),
            decreases self.steps.len() - i,
        {
            let s = &self.steps[i];
            let action = match &s.action {
                Action::OpenBook { .. } => Action::OpenBook {
                    url: String::from_str("https://read.amazon.co.jp/?asin=B0TESTBOOK"),
                },
                other => other.clone(),
            };
            steps.push(Step { observation: s.observation.clone(), action });
            i = i + 1;
        }
        Session { steps }
    }
}

impl Default for Session {
    fn default() -> (s: Session)
        ensures
            s.spec_steps() == Seq::<Step>::empty(),
    {
        Session::new()
    }
}

/// A recording agrees with its own actions: replaying them shows no divergence.
pub proof fn law_recording_agrees_with_itself(recorded: Seq<ActionView>)
    ensures
        first_divergence(recorded, recorded) is None,
{
    lemma_no_divergence_from(recorded, 0);
}

/// The replay produced, at move `k`, the action recorded there.
pub open spec fn agrees_at(recorded: Seq<ActionView>, produced: Seq<ActionView>, k: int) -> bool {
    k < produced.len() && produced[k] == recorded[k]
}

/// A replay diverges from a recording at the first move where the action it
/// produced is not the recorded one, compared as whole values (so a capture of
/// another page is a divergence), or where it produced none; it agrees with
/// the recording exactly when it produced every recorded action, in order.
pub proof fn law_divergence_is_the_first_difference(
    recorded: Seq<ActionView>,
    produced: Seq<ActionView>,
)
    ensures
        first_divergence(recorded, produced) is None <==> (forall|i: int|
            0 <= i < recorded.len() ==> #[trigger] agrees_at(recorded, produced, i)),
        first_divergence(recorded, produced) matches Some(at) ==> {
            &&& 0 <= at < recorded.len()
            &&& at >= produced.len() || produced[at] != recorded[at]
            &&& forall|i: int| 0 <= i < at ==> #[trigger] agrees_at(recorded, produced, i)
        },
{
    lemma_divergence_from(recorded, produced, 0);
}

/// From move `i` on, the divergence is the first move at or after `i` that differs.
proof fn lemma_divergence_from(recorded: Seq<ActionView>, produced: Seq<ActionView>, i: int)
    requires
        0 <= i,
    ensures
        divergence_from(recorded, produced, i) is None <==> (forall|k: int|
            i <= k < recorded.len() ==> #[trigger] agrees_at(recorded, produced, k)),
        divergence_from(recorded, produced, i) matches Some(at) ==> {
            &&& i <= at < recorded.len()
            &&& at >= produced.len() || produced[at] != recorded[at]
            &&& forall|k: int| i <= k < at ==> #[trigger] agrees_at(recorded, produced, k)
        },
    decreases recorded.len() - i,
{
    if i < recorded.len() {
        if !agrees_at(recorded, produced, i) {
            assert(divergence_from(recorded, produced, i) == Some(i));
        } else {
            lemma_divergence_from(recorded, produced, i + 1);
            assert(divergence_from(recorded, produced, i) == divergence_from(
                recorded,
                produced,
                i + 1,
            ));
            if forall|k: int| i + 1 <= k < recorded.len() ==> #[trigger] agrees_at(recorded, produced, k) {
                assert forall|k: int| i <= k < recorded.len() implies #[trigger] agrees_at(
                    recorded,
                    produced,
                    k,
                ) by {
                    if k > i {
                        assert(i + 1 <= k < recorded.len());
                    }
                }
            }
            match divergence_from(recorded, produced, i) {
                Some(at) => {
                    assert forall|k: int| i <= k < at implies #[trigger] agrees_at(
                        recorded,
                        produced,
                        k,
                    ) by {
                        if k > i {
                            assert(i + 1 <= k < at);
                        }
                    }
                },
                None => {},
            }
        }
    }
}

proof fn lemma_no_divergence_from(recorded: Seq<ActionView>, i: int)
    requires
        0 <= i,
    ensures
        divergence_from(recorded, recorded, i) is None,
    decreases recorded.len() - i,
{
    if i < recorded.len() {
        lemma_no_divergence_from(recorded, i + 1);
    }
}

/// How a divergence at move `at` (from 0) reads, given the texts of both actions.
pub open spec fn divergence_text(at: u64, recorded: Seq<char>, produced: Seq<char>) -> Seq<char> {
    decimal(at.saturating_add(1) as nat) + " 手目で判断が変わりました: 記録は "@ + recorded + " / いまは "@ + produced
}

impl Divergence {
    /// The message that explains the divergence, counting moves from 1, with
    /// the debug form of both actions.
    pub fn message(&self) -> (s: String)
        ensures
            s@ == divergence_text(
                self.at as u64,
                action_debug(self.recorded@),
                action_debug(self.produced@),
            ),
    {
        let n: u64 = (self.at as u64).saturating_add(1);
        let mut s = decimal_string(n);
        s.append(" 手目で判断が変わりました: 記録は ");
        let recorded = action_text(&self.recorded);
        let produced = action_text(&self.produced);
        s.append(recorded.as_str());
        s.append(" / いまは ");
        s.append(produced.as_str());
        assert(s@ == divergence_text(self.at as u64, recorded@, produced@));
        s
    }
}

/// The error for a line of a recording that cannot be read; `number` counts from 1.
pub fn unreadable_line(number: usize, detail: &str) -> (e: Error)
    ensures
        e matches Error::Unexpected(m) && m@ == "記録の "@ + decimal(number as nat)
            + " 行目を読めません: "@ + detail@,
{
    let n = decimal_string(number as u64);
    let mut m = join3("記録の ", n.as_str(), " 行目を読めません: ");
    m.append(detail);
    Error::Unexpected(m)
}

/// A [`Browser`] that hands out the recorded observations in order.
///
/// Page images are not recorded, so a fetched image has the recorded size and
/// source but no content: good for replaying navigation, not for OCR.
pub struct ReplayBrowser {
    steps: Vec<Step>,
    at: usize,
    theme: Option<Theme>,
    /// The operations asked so far, each with the error it gave.
    log: Ghost<Seq<(BrowserCall, Option<Error>)>>,
    /// The image last handed out.
    shown: Ghost<Option<PageImage>>,
    /// The observation last handed out.
    seen: Ghost<Option<Observation>>,
}

impl ReplayBrowser {
    /// The recorded moves.
    pub closed spec fn spec_steps(self) -> Seq<Step> {
        self.steps@
    }

    /// How many observations were handed out.
    pub closed spec fn spec_at(self) -> int {
        self.at as int
    }

    /// The colour theme last set, if any.
    pub closed spec fn spec_theme(self) -> Option<Theme> {
        self.theme
    }

    /// A player of a recording, at its start.
    pub fn new(session: &Session) -> (b: ReplayBrowser)
        ensures
            b.spec_steps() == session.spec_steps(),
            b.spec_at() == 0,
            b.spec_theme() is None,
            b.calls() == Seq::<(BrowserCall, Option<Error>)>::empty(),
            b.last_image() is None,
    {
        let mut steps: Vec<Step> = Vec::new();
        let mut i: usize = 0;
        while i < session.steps.len()
            invariant
                i <= session.steps@.len(),
                steps@ == session.steps@.subrange(0, i as int),
            decreases session.steps.len() - i,
        {
            steps.push(session.steps[i].clone());
            i = i + 1;
            assert(steps@ =~= session.steps@.subrange(0, i as int));
        }
        assert(session.steps@.subrange(0, session.steps@.len() as int) =~= session.steps@);
        ReplayBrowser { steps, at: 0, theme: None, log: Ghost(Seq::empty()), shown: Ghost(None), seen: Ghost(None) }
    }

    /// The move played next, from 0.
    pub fn position(&self) -> (n: usize)
        ensures
            n == self.spec_at(),
    {
        self.at
    }

    /// Whether the whole recording has been played.
    pub fn is_exhausted(&self) -> (b: bool)
        ensures
            b == (self.spec_at() >= self.spec_steps().len()),
    {
        self.at >= self.steps.len()
    }
}

impl Browser for ReplayBrowser {
    closed spec fn calls(&self) -> Seq<(BrowserCall, Option<Error>)> {
        self.log@
    }

    closed spec fn last_image(&self) -> Option<PageImage> {
        self.shown@
    }

    closed spec fn last_observation(&self) -> Option<Observation> {
        self.seen@
    }

    fn open(&mut self, url: &str) -> (r: Result<(), Error>)
        ensures
            final(self).spec_theme() == old(self).spec_theme(),
            r is Ok,
            final(self).spec_steps() == old(self).spec_steps(),
            final(self).spec_at() == old(self).spec_at(),
            final(self).last_image() == old(self).last_image(),
    {
        proof {
            self.log@ = self.log@.push((BrowserCall::Open(url@), None));
        }
        Ok(())
    }

    fn observe(&mut self) -> (r: Result<Observation, Error>)
        ensures
            final(self).spec_theme() == old(self).spec_theme(),
            final(self).spec_steps() == old(self).spec_steps(),
            old(self).spec_at() < old(self).spec_steps().len() ==> r == Ok::<Observation, Error>(
                old(self).spec_steps()[old(self).spec_at()].observation,
            ) && final(self).spec_at() == old(self).spec_at() + 1,
            old(self).spec_at() >= old(self).spec_steps().len() ==> r is Err && final(self).spec_at()
                == old(self).spec_at(),
            final(self).last_image() == old(self).last_image(),
    {
        if self.at >= self.steps.len() {
            let n = decimal_string(self.steps.len() as u64);
            let r = Err(Error::Unexpected(join3("記録は ", n.as_str(), " 手で尽きています")));
            proof {
                self.log@ = self.log@.push((BrowserCall::Observe, failure(r)));
            }
            return r;
        }
        let o = self.steps[self.at].observation.clone();
        self.at = self.at + 1;
        proof {
            self.log@ = self.log@.push((BrowserCall::Observe, None));
            self.seen@ = Some(o);
        }
        Ok(o)
    }

    fn set_settings_menu(&mut self, open: bool) -> (r: Result<(), Error>)
        ensures
            final(self).spec_theme() == old(self).spec_theme(),
            r is Ok,
            final(self).spec_steps() == old(self).spec_steps(),
            final(self).spec_at() == old(self).spec_at(),
            final(self).last_image() == old(self).last_image(),
    {
        proof {
            self.log@ = self.log@.push((BrowserCall::SetSettingsMenu(open), None));
        }
        Ok(())
    }

    fn set_theme(&mut self, theme: Theme) -> (r: Result<(), Error>)
        ensures
            r is Ok,
            final(self).spec_steps() == old(self).spec_steps(),
            final(self).spec_at() == old(self).spec_at(),
            final(self).spec_theme() == Some(theme),
            final(self).last_image() == old(self).last_image(),
    {
        self.theme = Some(theme);
        proof {
            self.log@ = self.log@.push((BrowserCall::SetTheme(theme), None));
        }
        Ok(())
    }

    fn set_font_size(&mut self, index: u8) -> (r: Result<(), Error>)
        ensures
            final(self).spec_theme() == old(self).spec_theme(),
            r is Ok,
            final(self).spec_steps() == old(self).spec_steps(),
            final(self).spec_at() == old(self).spec_at(),
            final(self).last_image() == old(self).last_image(),
    {
        proof {
            self.log@ = self.log@.push((BrowserCall::SetFontSize(index), None));
        }
        Ok(())
    }

    fn turn_page(&mut self, direction: Direction) -> (r: Result<(), Error>)
        ensures
            final(self).spec_theme() == old(self).spec_theme(),
            r is Ok,
            final(self).spec_steps() == old(self).spec_steps(),
            final(self).spec_at() == old(self).spec_at(),
            final(self).last_image() == old(self).last_image(),
    {
        proof {
            self.log@ = self.log@.push((BrowserCall::TurnPage(direction), None));
        }
        Ok(())
    }

    fn capture_page(&mut self) -> (r: Result<PageImage, Error>)
        ensures
            final(self).spec_theme() == old(self).spec_theme(),
            final(self).spec_steps() == old(self).spec_steps(),
            final(self).spec_at() == old(self).spec_at(),
            ({
                let last = if old(self).spec_at() >= 1 {
                    old(self).spec_at() - 1
                } else {
                    0
                };
                if last < old(self).spec_steps().len() && old(
                    self,
                ).spec_steps()[last].observation.image is Some {
                    let info = old(self).spec_steps()[last].observation.image->0;
                    r matches Ok(img) && img.png@.len() == 0 && img.width == info.natural_width
                        && img.height == info.natural_height && img.source == info.source
                } else {
                    r is Err
                }
            }),
            r is Err ==> final(self).last_image() == old(self).last_image(),
    {
        let last = if self.at >= 1 {
            self.at - 1
        } else {
            0
        };
        if last >= self.steps.len() {
            let r = Err(Error::NoPageImage(String::from_str("記録に画像の素性がありません")));
            proof {
                self.log@ = self.log@.push((BrowserCall::CapturePage, failure(r)));
            }
            return r;
        }
        match &self.steps[last].observation.image {
            None => {
                let r = Err(Error::NoPageImage(String::from_str("記録に画像の素性がありません")));
                proof {
                    self.log@ = self.log@.push((BrowserCall::CapturePage, failure(r)));
                }
                r
            },
            Some(info) => {
                // The content is not recorded: only the size and the source come back.
                let source = match &info.source {
                    Some(s) => Some(s.clone()),
                    None => None,
                };
                let image = PageImage {
                    png: Vec::new(),
                    width: info.natural_width,
                    height: info.natural_height,
                    source,
                };
                proof {
                    self.log@ = self.log@.push((BrowserCall::CapturePage, None));
                    self.shown@ = Some(image);
                }
                Ok(image)
            },
        }
    }

    fn sleep(&mut self, ms: u32)
        ensures
            final(self).spec_theme() == old(self).spec_theme(),
            final(self).spec_steps() == old(self).spec_steps(),
            final(self).spec_at() == old(self).spec_at(),
            final(self).last_image() == old(self).last_image(),
    {
        proof {
            self.log@ = self.log@.push((BrowserCall::Sleep(ms), None));
        }
        // Replaying does not wait: the recorded observations simply come in order.
    }
}

} // verus!
