//! The phases a book goes through, and what a host needs to run each of them.
use vstd::prelude::*;

verus! {

/// What a host must be able to do.
#[derive(Debug, Clone, Copy, PartialEq, Eq, Structural, Hash)]
pub enum Capability {
    /// Any host will do.
    Any,
    /// A signed-in browser is needed.
    Browser,
    /// The CPU alone is enough.
    Cpu,
    /// A GPU is needed.
    Gpu,
}

/// One step of the work on a book.
#[derive(Debug, Clone, Copy, PartialEq, Eq, Structural, Hash, PartialOrd, Ord)]
pub enum Phase {
    /// Decide what to process.
    Plan,
    /// Open the book, settle the display settings, go to the first page.
    Open,
    /// Fetch the page images at their natural size.
    Capture,
    /// Check for blank, duplicate and missing pages.
    Validate,
    /// Detect the layout and recognise the text.
    Ocr,
    /// Proofread with a local language model.
    Proofread,
    /// Build the searchable PDF and the Markdown.
    Assemble,
}

/// All phases, in the order in which the work runs.
pub const ALL_PHASES: [Phase; 7] = [
    Phase::Plan,
    Phase::Open,
    Phase::Capture,
    Phase::Validate,
    Phase::Ocr,
    Phase::Proofread,
    Phase::Assemble,
];

/// The position of a phase in the order of the work, from 0.
pub open spec fn phase_index(p: Phase) -> nat {
    match p {
        Phase::Plan => 0,
        Phase::Open => 1,
        Phase::Capture => 2,
        Phase::Validate => 3,
        Phase::Ocr => 4,
        Phase::Proofread => 5,
        Phase::Assemble => 6,
    }
}

/// The phase at a position of the order of the work.
pub open spec fn phase_at(i: nat) -> Phase {
    if i == 0 {
        Phase::Plan
    } else if i == 1 {
        Phase::Open
    } else if i == 2 {
        Phase::Capture
    } else if i == 3 {
        Phase::Validate
    } else if i == 4 {
        Phase::Ocr
    } else if i == 5 {
        Phase::Proofread
    } else {
        Phase::Assemble
    }
}

/// The capability a phase needs.
pub open spec fn spec_capability(p: Phase) -> Capability {
    match p {
        Phase::Plan => Capability::Any,
        Phase::Open | Phase::Capture => Capability::Browser,
        Phase::Validate | Phase::Assemble => Capability::Cpu,
        Phase::Ocr | Phase::Proofread => Capability::Gpu,
    }
}

/// The short name of a phase.
pub open spec fn spec_slug(p: Phase) -> Seq<char> {
    match p {
        Phase::Plan => seq!['p', 'l', 'a', 'n'],
        Phase::Open => seq!['o', 'p', 'e', 'n'],
        Phase::Capture => seq!['c', 'a', 'p', 't', 'u', 'r', 'e'],
        Phase::Validate => seq!['v', 'a', 'l', 'i', 'd', 'a', 't', 'e'],
        Phase::Ocr => seq!['o', 'c', 'r'],
        Phase::Proofread => seq!['p', 'r', 'o', 'o', 'f', 'r', 'e', 'a', 'd'],
        Phase::Assemble => seq!['a', 's', 's', 'e', 'm', 'b', 'l', 'e'],
    }
}

/// The phase that must be finished before `p`: the one just before it in the order of the work.
pub open spec fn spec_predecessor(p: Phase) -> Option<Phase> {
    if phase_index(p) == 0 {
        None
    } else {
        Some(phase_at((phase_index(p) - 1) as nat))
    }
}

impl Phase {
    /// The capability a host needs to run this phase.
    pub fn capability(self) -> (c: Capability)
        ensures
            c == spec_capability(self),
    {
        match self {
            Phase::Plan => Capability::Any,
            Phase::Open | Phase::Capture => Capability::Browser,
            Phase::Validate | Phase::Assemble => Capability::Cpu,
            Phase::Ocr | Phase::Proofread => Capability::Gpu,
        }
    }

    /// The short name used in the layout of the artifacts and in the event log.
    pub fn slug(self) -> (s: &'static str)
        ensures
            s@ == spec_slug(self),
    {
        let s = match self {
            Phase::Plan => "plan",
            Phase::Open => "open",
            Phase::Capture => "capture",
            Phase::Validate => "validate",
            Phase::Ocr => "ocr",
            Phase::Proofread => "proofread",
            Phase::Assemble => "assemble",
        };
        proof {
            reveal_strlit("plan");
            reveal_strlit("open");
            reveal_strlit("capture");
            reveal_strlit("validate");
            reveal_strlit("ocr");
            reveal_strlit("proofread");
            reveal_strlit("assemble");
        }
        s
    }

    /// The phase that must be finished first; `None` for `Plan`.
    pub fn predecessor(self) -> (p: Option<Phase>)
        ensures
            p == spec_predecessor(self),
    {
        match self {
            Phase::Plan => None,
            Phase::Open => Some(Phase::Plan),
            Phase::Capture => Some(Phase::Open),
            Phase::Validate => Some(Phase::Capture),
            Phase::Ocr => Some(Phase::Validate),
            Phase::Proofread => Some(Phase::Ocr),
            Phase::Assemble => Some(Phase::Proofread),
        }
    }

    /// The position of this phase in the order of the work, from 0.
    pub fn index(self) -> (i: usize)
        ensures
            i == phase_index(self),
    {
        match self {
            Phase::Plan => 0,
            Phase::Open => 1,
            Phase::Capture => 2,
            Phase::Validate => 3,
            Phase::Ocr => 4,
            Phase::Proofread => 5,
            Phase::Assemble => 6,
        }
    }
}

/// The phases form a single chain: every phase but the first has exactly the phase
/// just before it as its predecessor, and the first has none.
pub proof fn law_predecessors_form_a_chain(p: Phase)
    ensures
        phase_index(p) < 7,
        phase_at(phase_index(p)) == p,
        spec_predecessor(p) is None <==> p == Phase::Plan,
        spec_predecessor(p) matches Some(q) ==> phase_index(q) + 1 == phase_index(p),
{
}

/// No two phases share a short name.
pub proof fn law_slugs_are_distinct(a: Phase, b: Phase)
    ensures
        spec_slug(a) == spec_slug(b) ==> a == b,
{
    if spec_slug(a) == spec_slug(b) && a != b {
        let sa = spec_slug(a);
        let sb = spec_slug(b);
        assert(sa.len() == sb.len());
        assert(sa[0] == sb[0]);
        assert(sa[1] == sb[1]);
    }
}

/// The order of the constant list is the order of the work.
pub proof fn law_all_phases_in_order(i: int)
    requires
        0 <= i < 7,
    ensures
        phase_index(phase_at(i as nat)) == i,
{
}

/// Which kind of host each phase needs: only the phases that work the reader,
/// opening and capturing, need a signed-in browser; only recognising and
/// proofreading the text need a GPU; checking the pages and assembling the
/// output run on a CPU; planning runs anywhere.
pub proof fn law_capability_of_each_phase(p: Phase)
    ensures
        (spec_capability(p) == Capability::Browser) <==> (p == Phase::Open || p == Phase::Capture),
        (spec_capability(p) == Capability::Gpu) <==> (p == Phase::Ocr || p == Phase::Proofread),
        (spec_capability(p) == Capability::Cpu) <==> (p == Phase::Validate || p == Phase::Assemble),
        (spec_capability(p) == Capability::Any) <==> p == Phase::Plan,
{
}

/// The browser is needed only at the start of the work: every phase that needs
/// one comes before every phase that needs a CPU or a GPU, so a book can leave
/// the capture machine once it is captured.
pub proof fn law_browser_work_comes_first(p: Phase, q: Phase)
    ensures
        spec_capability(p) == Capability::Browser && (spec_capability(q) == Capability::Cpu
            || spec_capability(q) == Capability::Gpu) ==> phase_index(p) < phase_index(q),
{
}

} // verus!
