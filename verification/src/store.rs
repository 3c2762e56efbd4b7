//! The event log of a book, and what can be read from it.
//!
//! The append-only log is the single source of truth about a book: one event
//! per line, so hosts working on different books never collide, a power cut
//! loses nothing written before it, and two logs merge by putting their lines
//! together. Where a book stands is rebuilt from its events alone.
use vstd::prelude::*;
use vstd::string::*;
use std::collections::BTreeSet;
use crate::action::Summary;
use crate::page::PageLabel;
use crate::phase::{spec_slug, Phase};
use crate::text::{decimal, decimal_chars, decimal_string, join3, string_from_chars};

verus! {

broadcast use {vstd::laws_cmp::group_laws_cmp, vstd::std_specs::btree::group_btree_axioms};

/// What happened to a book.
#[derive(Debug, PartialEq)]
pub enum Event {
    /// The book was registered.
    BookRegistered,
    /// A phase started.
    PhaseStarted {
        /// The phase.
        phase: Phase,
    },
    /// A page image was saved.
    PageCaptured {
        /// The number from 1, as in the file name.
        index: u32,
        /// The position the reader showed; `None` for books without one.
        label: Option<PageLabel>,
        /// The size of the PNG in bytes.
        bytes: u64,
    },
    /// A phase finished.
    PhaseFinished {
        /// The phase.
        phase: Phase,
        /// The result of capturing; `None` for the other phases.
        summary: Option<Summary>,
    },
    /// A phase failed.
    PhaseFailed {
        /// The phase.
        phase: Phase,
        /// Why, for people to read.
        reason: String,
    },
}

impl Clone for Event {
    fn clone(&self) -> (r: Event)
        ensures
            r == *self,
    {
        match self {
            Event::BookRegistered => Event::BookRegistered,
            Event::PhaseStarted { phase } => Event::PhaseStarted { phase: *phase },
            Event::PageCaptured { index, label, bytes } => Event::PageCaptured {
                index: *index,
                label: *label,
                bytes: *bytes,
            },
            Event::PhaseFinished { phase, summary } => Event::PhaseFinished {
                phase: *phase,
                summary: *summary,
            },
            Event::PhaseFailed { phase, reason } => Event::PhaseFailed {
                phase: *phase,
                reason: reason.clone(),
            },
        }
    }
}

/// One event, with when and on which host it happened. Pages are captured on
/// one machine and recognised on another, so the host must be kept.
#[derive(Debug, PartialEq)]
pub struct Record {
    /// When, in UNIX milliseconds.
    pub at_unix_ms: u64,
    /// On which host.
    pub host: String,
    /// What happened.
    pub event: Event,
}

impl Clone for Record {
    fn clone(&self) -> (r: Record)
        ensures
            r == *self,
    {
        Record { at_unix_ms: self.at_unix_ms, host: self.host.clone(), event: self.event.clone() }
    }
}

impl Record {
    /// An event that happened at `at_unix_ms` on `host`.
    pub fn new(at_unix_ms: u64, host: String, event: Event) -> (r: Record)
        ensures
            r == (Record { at_unix_ms, host, event }),
    {
        Record { at_unix_ms, host, event }
    }
}

/// Where a book stands, as its events tell it.
pub struct ProgressModel {
    /// The numbers of the pages saved.
    pub pages: Set<u32>,
    /// The number of the page saved last.
    pub last_page_index: Option<u32>,
    /// The finished phases, in the order they first finished.
    pub finished: Seq<Phase>,
    /// The result of the capture phase, when it finished.
    pub capture_summary: Option<Summary>,
}

/// What one event changes.
pub open spec fn apply_event(m: ProgressModel, e: Event) -> ProgressModel {
    match e {
        Event::PageCaptured { index, .. } => ProgressModel {
            pages: m.pages.insert(index),
            last_page_index: Some(index),
            ..m
        },
        Event::PhaseFinished { phase, summary } => ProgressModel {
            finished: if m.finished.contains(phase) {
                m.finished
            } else {
                m.finished.push(phase)
            },
            capture_summary: if phase == Phase::Capture {
                summary
            } else {
                m.capture_summary
            },
            ..m
        },
        _ => m,
    }
}

/// Where a book stands after a list of events.
pub open spec fn progress_model(events: Seq<Event>) -> ProgressModel
    decreases events.len(),
{
    if events.len() == 0 {
        ProgressModel {
            pages: Set::empty(),
            last_page_index: None,
            finished: Seq::empty(),
            capture_summary: None,
        }
    } else {
        apply_event(progress_model(events.drop_last()), events.last())
    }
}

/// The events of a list of records.
pub open spec fn events_of(records: Seq<Record>) -> Seq<Event> {
    records.map_values(|r: Record| r.event)
}

/// A count as a `u32`, the largest one when it does not fit.
pub open spec fn count_u32(n: nat) -> u32 {
    if n > u32::MAX {
        u32::MAX
    } else {
        n as u32
    }
}

/// Where a book stands, as its event log tells it.
#[derive(Debug, PartialEq)]
pub struct Progress {
    /// The pages saved. A page saved again is not counted again: counting it
    /// twice would show more progress than there is.
    pub captured_pages: u32,
    /// The number of the page saved last; `None` before the first.
    pub last_page_index: Option<u32>,
    /// The finished phases.
    pub finished: Vec<Phase>,
    /// The result of the capture phase; `None` until it finishes.
    pub capture_summary: Option<Summary>,
}

impl Clone for Progress {
    fn clone(&self) -> (r: Progress)
        ensures
            r.captured_pages == self.captured_pages,
            r.last_page_index == self.last_page_index,
            r.finished@ == self.finished@,
            r.capture_summary == self.capture_summary,
    {
        let finished = self.finished.clone();
        assert(finished@ =~= self.finished@);
        Progress {
            captured_pages: self.captured_pages,
            last_page_index: self.last_page_index,
            finished,
            capture_summary: self.capture_summary,
        }
    }
}

impl Progress {
    /// Rebuilds where a book stands from its events. Resuming is decided on this.
    pub fn from_records(records: &[Record]) -> (p: Progress)
        ensures
            ({
                let m = progress_model(events_of(records@));
                &&& p.captured_pages == count_u32(m.pages.len())
                &&& p.last_page_index == m.last_page_index
                &&& p.finished@ == m.finished
                &&& p.capture_summary == m.capture_summary
            }),
    {
        let mut progress = Progress {
            captured_pages: 0,
            last_page_index: None,
            finished: Vec::new(),
            capture_summary: None,
        };
        let mut pages: BTreeSet<u32> = BTreeSet::new();
        let mut i: usize = 0;
        while i < records.len()
            invariant
                i <= records@.len(),
                ({
                    let m = progress_model(events_of(records@.subrange(0, i as int)));
                    &&& pages@ == m.pages
                    &&& progress.last_page_index == m.last_page_index
                    &&& progress.finished@ == m.finished
                    &&& progress.capture_summary == m.capture_summary
                }),
                pages@.finite(),
            decreases records.len() - i,
        {
            let ghost before = events_of(records@.subrange(0, i as int));
            let ghost after = events_of(records@.subrange(0, i + 1));
            assert(after.drop_last() =~= before);
            assert(after.last() == records@[i as int].event);
            progress.apply(&records[i].event, &mut pages);
            i = i + 1;
        }
        assert(records@.subrange(0, records@.len() as int) =~= records@);
        let n = pages.len();
        progress.captured_pages = if n > 0xffff_ffff {
            u32::MAX
        } else {
            n as u32
        };
        progress
    }

    fn apply(&mut self, event: &Event, pages: &mut BTreeSet<u32>)
        requires
            old(pages)@.finite(),
        ensures
            final(pages)@.finite(),
            ({
                let m = apply_event(
                    ProgressModel {
                        pages: old(pages)@,
                        last_page_index: old(self).last_page_index,
                        finished: old(self).finished@,
                        capture_summary: old(self).capture_summary,
                    },
                    *event,
                );
                &&& final(pages)@ == m.pages
                &&& final(self).last_page_index == m.last_page_index
                &&& final(self).finished@ == m.finished
                &&& final(self).capture_summary == m.capture_summary
                &&& final(self).captured_pages == old(self).captured_pages
            }),
    {
        match event {
            Event::PageCaptured { index, .. } => {
                pages.insert(*index);
                self.last_page_index = Some(*index);
            },
            Event::PhaseFinished { phase, summary } => {
                if !phase_listed(&self.finished, *phase) {
                    self.finished.push(*phase);
                }
                if *phase == Phase::Capture {
                    self.capture_summary = *summary;
                }
            },
            Event::BookRegistered | Event::PhaseStarted { .. } | Event::PhaseFailed { .. } => {},
        }
    }

    /// Whether the phase has finished.
    pub fn has_finished(&self, phase: Phase) -> (b: bool)
        ensures
            b == self.finished@.contains(phase),
    {
        phase_listed(&self.finished, phase)
    }

    /// The number of the page to save next: the one after the last saved, or 1.
    pub fn next_page_index(&self) -> (n: u32)
        ensures
            n == match self.last_page_index {
                Some(i) => i.saturating_add(1),
                None => 1,
            },
    {
        match self.last_page_index {
            Some(i) => i.saturating_add(1),
            None => 1,
        }
    }
}

impl Default for Progress {
    fn default() -> (p: Progress)
        ensures
            p.captured_pages == 0,
            p.last_page_index is None,
            p.finished@ == Seq::<Phase>::empty(),
            p.capture_summary is None,
    {
        Progress { captured_pages: 0, last_page_index: None, finished: Vec::new(), capture_summary: None }
    }
}

fn phase_listed(list: &Vec<Phase>, phase: Phase) -> (b: bool)
    ensures
        b == list@.contains(phase),
{
    let mut i: usize = 0;
    while i < list.len()
        invariant
            i <= list@.len(),
            forall|k: int| 0 <= k < i ==> list@[k] != phase,
        decreases list.len() - i,
    {
        if list[i] == phase {
            assert(list@[i as int] == phase);
            return true;
        }
        i = i + 1;
    }
    false
}

/// A page saved more than once counts once: the pages counted are exactly the
/// numbers that some event reports as saved.
pub proof fn law_pages_count_once(events: Seq<Event>, index: u32)
    ensures
        progress_model(events).pages.finite(),
        progress_model(events).pages.contains(index) <==> exists|k: int|
            0 <= k < events.len() && (#[trigger] events[k] matches Event::PageCaptured {
                index: i,
                ..
            } && i == index),
    decreases events.len(),
{
    if events.len() > 0 {
        let pre = events.drop_last();
        law_pages_count_once(pre, index);
        if progress_model(pre).pages.contains(index) {
            let k = choose|k: int|
                0 <= k < pre.len() && (#[trigger] pre[k] matches Event::PageCaptured {
                    index: i,
                    ..
                } && i == index);
            assert(events[k] == pre[k]);
        }
        if exists|k: int|
            0 <= k < events.len() && (#[trigger] events[k] matches Event::PageCaptured {
                index: i,
                ..
            } && i == index) {
            let k = choose|k: int|
                0 <= k < events.len() && (#[trigger] events[k] matches Event::PageCaptured {
                    index: i,
                    ..
                } && i == index);
            if k < pre.len() {
                assert(pre[k] == events[k]);
            }
        }
    }
}

/// A phase is listed as finished once, however often it finishes, and exactly
/// when some event reports it finished.
pub proof fn law_finished_phases_listed_once(events: Seq<Event>, phase: Phase)
    ensures
        progress_model(events).finished.no_duplicates(),
        progress_model(events).finished.contains(phase) <==> exists|k: int|
            0 <= k < events.len() && #[trigger] finishes(events[k], phase),
    decreases events.len(),
{
    if events.len() > 0 {
        let pre = events.drop_last();
        law_finished_phases_listed_once(pre, phase);
        let m = progress_model(pre);
        let fin = progress_model(events).finished;
        let last = (events.len() - 1) as int;
        assert(events[last] == events.last());
        match events.last() {
            Event::PhaseFinished { phase: p, .. } => {
                if !m.finished.contains(p) {
                    assert(fin == m.finished.push(p));
                    assert forall|a: int, b: int| 0 <= a < b < fin.len() implies fin[a]
                        != fin[b] by {
                        if b == m.finished.len() {
                            assert(m.finished.contains(m.finished[a]));
                        }
                    }
                    if fin.contains(phase) && !m.finished.contains(phase) {
                        assert(phase == p);
                    }
                    if p == phase {
                        assert(fin[fin.len() - 1] == phase);
                    }
                } else {
                    assert(fin == m.finished);
                }
            },
            _ => {
                assert(fin == m.finished);
            },
        }
        if fin.contains(phase) {
            if m.finished.contains(phase) {
                let k = choose|k: int| 0 <= k < pre.len() && #[trigger] finishes(pre[k], phase);
                assert(events[k] == pre[k]);
                assert(finishes(events[k], phase));
            } else {
                assert(finishes(events[last], phase));
            }
        }
        if exists|k: int| 0 <= k < events.len() && #[trigger] finishes(events[k], phase) {
            let k = choose|k: int| 0 <= k < events.len() && #[trigger] finishes(events[k], phase);
            if k < pre.len() {
                assert(pre[k] == events[k]);
                assert(finishes(pre[k], phase));
                let i = choose|i: int| 0 <= i < m.finished.len() && m.finished[i] == phase;
                assert(fin[i] == m.finished[i]);
            } else {
                assert(finishes(events.last(), phase));
                if m.finished.contains(phase) {
                    assert(fin == m.finished);
                } else {
                    assert(fin == m.finished.push(phase));
                    assert(fin[fin.len() - 1] == phase);
                }
            }
        }
    }
}

/// Whether an event reports a saved page.
pub open spec fn saves_a_page(e: Event) -> bool {
    e is PageCaptured
}

/// The page saved last is the one of the last event that saves a page, whether
/// or not that page was saved before (a run captured again from its first page
/// goes on from there); none when no event saves a page.
pub proof fn law_last_page_is_the_last_saved(events: Seq<Event>)
    ensures
        (forall|k: int| 0 <= k < events.len() ==> !saves_a_page(#[trigger] events[k]))
            ==> progress_model(events).last_page_index is None,
        forall|k: int|
            0 <= k < events.len() && (#[trigger] events[k] matches Event::PageCaptured {
                index,
                ..
            }) && (forall|j: int| k < j < events.len() ==> !saves_a_page(#[trigger] events[j]))
                ==> progress_model(events).last_page_index == Some(events[k]->PageCaptured_index),
    decreases events.len(),
{
    if events.len() > 0 {
        let pre = events.drop_last();
        let last = (events.len() - 1) as int;
        assert(events[last] == events.last());
        law_last_page_is_the_last_saved(pre);
        if forall|k: int| 0 <= k < events.len() ==> !saves_a_page(#[trigger] events[k]) {
            assert forall|k: int| 0 <= k < pre.len() implies !saves_a_page(#[trigger] pre[k]) by {
                assert(pre[k] == events[k]);
            }
            assert(!saves_a_page(events[last]));
        }
        assert forall|k: int|
            0 <= k < events.len() && (#[trigger] events[k] matches Event::PageCaptured {
                index,
                ..
            }) && (forall|j: int| k < j < events.len() ==> !saves_a_page(#[trigger] events[j]))
            implies progress_model(events).last_page_index == Some(
            events[k]->PageCaptured_index,
        ) by {
            if k < last {
                assert(!saves_a_page(events[last]));
                assert(pre[k] == events[k]);
                assert forall|j: int| k < j < pre.len() implies !saves_a_page(#[trigger] pre[j]) by {
                    assert(pre[j] == events[j]);
                }
            }
        }
    }
}

/// Whether an event reports that the phase finished.
pub open spec fn finishes(e: Event, phase: Phase) -> bool {
    e matches Event::PhaseFinished { phase: p, .. } && p == phase
}

/// Who holds a lock.
#[derive(Debug, PartialEq, Eq)]
pub struct LeaseInfo {
    /// The host name.
    pub host: String,
    /// The process id.
    pub pid: u32,
    /// When the lock was taken, in UNIX milliseconds.
    pub at_unix_ms: u64,
}

impl Clone for LeaseInfo {
    fn clone(&self) -> (r: LeaseInfo)
        ensures
            r == *self,
    {
        LeaseInfo { host: self.host.clone(), pid: self.pid, at_unix_ms: self.at_unix_ms }
    }
}

impl LeaseInfo {
    /// How the holder is named in messages: `host（pid N）`.
    pub fn text(&self) -> (s: String)
        ensures
            s@ == self.host@ + "（pid "@ + decimal(self.pid as nat) + "）"@,
    {
        let n = decimal_string(self.pid as u64);
        let mut s = join3(self.host.as_str(), "（pid ", n.as_str());
        s.append("）");
        s
    }
}

/// What can go wrong with the store.
#[derive(Debug, PartialEq)]
pub enum Error {
    /// A file operation failed.
    Io {
        /// What was being done.
        what: &'static str,
        /// The path.
        path: String,
        /// What the system said.
        message: String,
    },
    /// A file does not have the expected form.
    Corrupt {
        /// The path.
        path: String,
        /// How it differs.
        message: String,
    },
    /// Another host (or this one, crashed) holds the phase.
    Busy {
        /// The phase.
        phase: Phase,
        /// Who holds it.
        holder: Box<LeaseInfo>,
    },
}

/// The message of an error; a busy phase names who holds it.
pub open spec fn store_error_message(e: Error) -> Seq<char> {
    match e {
        Error::Io { what, path, message } => what@ + "に失敗しました（"@ + path@ + "）: "@ + message@,
        Error::Corrupt { path, message } => path@ + " の内容が壊れています: "@ + message@,
        Error::Busy { phase, holder } => spec_slug(phase) + " は "@ + holder.host@ + "（pid "@
            + decimal(holder.pid as nat) + "）"@ + " が処理中です"@,
    }
}

impl Error {
    /// A failed file operation.
    pub fn io(what: &'static str, path: String, message: String) -> (e: Error)
        ensures
            e == (Error::Io { what, path, message }),
    {
        Error::Io { what, path, message }
    }

    /// A file of the wrong form.
    pub fn corrupt(path: String, message: String) -> (e: Error)
        ensures
            e == (Error::Corrupt { path, message }),
    {
        Error::Corrupt { path, message }
    }

    /// A line of a log that cannot be read; `number` counts from 1.
    pub fn bad_line(path: String, number: usize, detail: &str) -> (e: Error)
        ensures
            e matches Error::Corrupt { path: p, message } && p == path && message@ == decimal(
                number as nat,
            ) + " 行目: "@ + detail@,
    {
        let n = decimal_string(number as u64);
        Error::Corrupt { path, message: join3(n.as_str(), " 行目: ", detail) }
    }

    /// The message that explains the error.
    pub fn message(&self) -> (s: String)
        ensures
            s@ == store_error_message(*self),
    {
        match self {
            Error::Io { what, path, message } => {
                let mut s = join3(what, "に失敗しました（", path.as_str());
                s.append("）: ");
                s.append(message.as_str());
                s
            },
            Error::Corrupt { path, message } => join3(
                path.as_str(),
                " の内容が壊れています: ",
                message.as_str(),
            ),
            Error::Busy { phase, holder } => {
                let who = holder.text();
                let mut s = join3(phase.slug(), " は ", who.as_str());
                s.append(" が処理中です");
                s
            },
        }
    }
}

/// `s` with zeros in front up to `width` characters.
pub open spec fn zero_padded(s: Seq<char>, width: nat) -> Seq<char>
    decreases width,
{
    if s.len() >= width {
        s
    } else {
        seq!['0'] + zero_padded(s, (width - 1) as nat)
    }
}

/// The file name of a page image: the number with at least four digits, `.png`.
pub fn page_file_name(index: u32) -> (name: String)
    ensures
        name@ == zero_padded(decimal(index as nat), 4) + ".png"@,
{
    let digits = decimal_chars(index as u64);
    let mut v: Vec<char> = Vec::new();
    let mut pad: usize = if digits.len() < 4 {
        4 - digits.len()
    } else {
        0
    };
    let ghost d = digits@;
    let ghost w: nat = (d.len() + pad) as nat;
    proof {
        lemma_zero_padded(d, w);
    }
    while pad > 0
        invariant
            v@.len() + pad + d.len() == w,
            forall|k: int| 0 <= k < v@.len() ==> v@[k] == '0',
        decreases pad,
    {
        v.push('0');
        pad = pad - 1;
    }
    let mut i: usize = 0;
    let ghost zeros = v@;
    while i < digits.len()
        invariant
            i <= d.len(),
            digits@ == d,
            v@ == zeros + d.subrange(0, i as int),
        decreases digits.len() - i,
    {
        v.push(digits[i]);
        i = i + 1;
        assert(v@ =~= zeros + d.subrange(0, i as int));
    }
    assert(d.subrange(0, d.len() as int) =~= d);
    assert(v@ =~= zero_padded(d, 4)) by {
        lemma_zero_padded(d, 4);
        assert(zeros.len() == w - d.len());
    }
    let mut s = string_from_chars(&v);
    s.append(".png");
    s
}

proof fn lemma_zero_padded(s: Seq<char>, width: nat)
    ensures
        zero_padded(s, width) == Seq::new(
            if s.len() >= width { 0 } else { (width - s.len()) as nat },
            |i: int| '0',
        ) + s,
    decreases width,
{
    if s.len() < width {
        lemma_zero_padded(s, (width - 1) as nat);
        let k: nat = (width - s.len()) as nat;
        assert(seq!['0'] + Seq::new((k - 1) as nat, |i: int| '0') =~= Seq::new(k, |i: int| '0'));
    } else {
        assert(Seq::new(0, |i: int| '0') + s =~= s);
    }
}

} // verus!
