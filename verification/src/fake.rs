//! A [`Browser`] that simulates the reader without a real one.
//!
//! It reproduces the quirks seen on the real reader: books without a position
//! display, books that count locations, books whose start cannot be reached,
//! page turns that do nothing, page images that vanish while the page is
//! rebuilt, and presses that come too soon and are ignored.
use vstd::prelude::*;
use vstd::string::*;
use crate::browser::{failure, Browser, BrowserCall, Direction, Error, PageImage};
use crate::display::{FontControl, Theme};
use crate::observation::{Observation, TurnControls};
use crate::page::{LabelKind, PageImageInfo, PageLabel};
use crate::text::{decimal, decimal_string, join2};

verus! {

/// How far a location advances per page (41 to 55 on the real reader).
pub const LOCATIONS_PER_PAGE: u32 = 48;

/// How long the page takes to be rebuilt after a change of the display settings
/// (2.8 s measured). The page image is gone meanwhile.
pub const RERENDER_MS: u64 = 2_800;

/// The shortest gap between page-turn presses that the reader accepts; a press
/// sooner than this is ignored.
pub const MIN_TURN_GAP_MS: u64 = 100;

/// The natural width of the simulated page images.
pub const IMAGE_WIDTH: u32 = 2199;

/// The natural height of the simulated page images.
pub const IMAGE_HEIGHT: u32 = 1692;

/// How the simulated book shows its position.
#[derive(Debug, Clone, Copy, PartialEq, Eq, Structural)]
pub enum LabelStyle {
    /// `33/431ページ`.
    Pages,
    /// `位置9783/10167`, which never reaches its total.
    Locations,
    /// No position display.
    Unlabelled,
}

/// The state of the simulated reader.
pub struct FakeState {
    pub pages: u32,
    pub at: u32,
    pub first_reachable: u32,
    pub last_reachable: u32,
    pub labels: LabelStyle,
    pub theme: Theme,
    pub font: FontControl,
    pub menu_open: bool,
    pub menu_operable: bool,
    pub can_turn: bool,
    pub ready_after: u32,
    pub observations: u32,
    pub pending_ms: u64,
    /// The simulated clock, moved by sleeping and observing.
    pub clock_ms: u64,
    /// When the page image is back after the last change of the display settings.
    pub image_ready_at: u64,
    /// When the last page turn was accepted.
    pub last_turn_at: Option<u64>,
    pub swallowed: u32,
    pub opened: Option<Seq<char>>,
    pub grabs: Seq<u32>,
}

/// The blob URL of the image of a page.
pub open spec fn blob_source(page: u32) -> Seq<char> {
    "blob:page-"@ + decimal(page as nat)
}

/// The bytes of the simulated PNG of a page: the PNG signature, then the page
/// number, big-endian.
pub open spec fn fake_png(page: u32) -> Seq<u8> {
    seq![0x89u8, 0x50u8, 0x4eu8, 0x47u8, 0x0du8, 0x0au8, 0x1au8, 0x0au8] + seq![
        (page / 0x100_0000) as u8,
        ((page / 0x1_0000) % 0x100) as u8,
        ((page / 0x100) % 0x100) as u8,
        (page % 0x100) as u8,
    ]
}

/// `x` brought into `[lo, hi]`.
pub open spec fn clamp_spec(x: u32, lo: u32, hi: u32) -> u32 {
    if x < lo {
        lo
    } else if x > hi {
        hi
    } else {
        x
    }
}

impl FakeState {
    /// The page image is there: the book has rendered and no rebuild is pending.
    pub open spec fn ready(self) -> bool {
        self.observations > self.ready_after && self.clock_ms >= self.image_ready_at
    }

    /// The position display of the current page.
    pub open spec fn label(self) -> Option<PageLabel> {
        match self.labels {
            LabelStyle::Pages => Some(
                PageLabel { current: self.at, total: Some(self.pages), kind: LabelKind::Page },
            ),
            LabelStyle::Locations => Some(
                PageLabel {
                    current: sat_mul(self.at, LOCATIONS_PER_PAGE),
                    total: Some(sat_mul(self.pages, LOCATIONS_PER_PAGE).saturating_add(300)),
                    kind: LabelKind::Location,
                },
            ),
            LabelStyle::Unlabelled => None,
        }
    }

    /// The page-turn controls: "next" is gone on the last page of the book,
    /// "previous" on the first.
    pub open spec fn controls(self) -> TurnControls {
        TurnControls { next: self.at < self.pages, prev: self.at > 1 }
    }

    /// A page turn now comes too soon after the last accepted one.
    pub open spec fn too_soon(self) -> bool {
        match self.last_turn_at {
            Some(t) => self.clock_ms < t.saturating_add(MIN_TURN_GAP_MS),
            None => false,
        }
    }
}

/// A simulated reader, with no real browser behind it.
pub struct FakeBrowser {
    pages: u32,
    at: u32,
    first_reachable: u32,
    last_reachable: u32,
    labels: LabelStyle,
    theme: Theme,
    font: FontControl,
    menu_open: bool,
    menu_operable: bool,
    can_turn: bool,
    ready_after: u32,
    observations: u32,
    pending_ms: u64,
    clock_ms: u64,
    image_ready_at: u64,
    last_turn_at: Option<u64>,
    swallowed: u32,
    opened: Option<String>,
    grabs: Vec<u32>,
    /// The operations asked so far, with their errors.
    log: Ghost<Seq<(BrowserCall, Option<Error>)>>,
    /// The image last handed out.
    shown: Ghost<Option<PageImage>>,
    /// The observation last handed out.
    seen: Ghost<Option<Observation>>,
}

impl View for FakeBrowser {
    type V = FakeState;

    closed spec fn view(&self) -> FakeState {
        FakeState {
            pages: self.pages,
            at: self.at,
            first_reachable: self.first_reachable,
            last_reachable: self.last_reachable,
            labels: self.labels,
            theme: self.theme,
            font: self.font,
            menu_open: self.menu_open,
            menu_operable: self.menu_operable,
            can_turn: self.can_turn,
            ready_after: self.ready_after,
            observations: self.observations,
            pending_ms: self.pending_ms,
            clock_ms: self.clock_ms,
            image_ready_at: self.image_ready_at,
            last_turn_at: self.last_turn_at,
            swallowed: self.swallowed,
            opened: match self.opened {
                Some(s) => Some(s@),
                None => None,
            },
            grabs: self.grabs@,
        }
    }
}

impl Clone for FakeBrowser {
    fn clone(&self) -> (r: FakeBrowser)
        ensures
            r@ == self@,
            r.calls() == self.calls(),
            r.last_image() == self.last_image(),
    {
        let grabs = self.grabs.clone();
        assert(grabs@ =~= self.grabs@);
        FakeBrowser {
            pages: self.pages,
            at: self.at,
            first_reachable: self.first_reachable,
            last_reachable: self.last_reachable,
            labels: self.labels,
            theme: self.theme,
            font: self.font,
            menu_open: self.menu_open,
            menu_operable: self.menu_operable,
            can_turn: self.can_turn,
            ready_after: self.ready_after,
            observations: self.observations,
            pending_ms: self.pending_ms,
            clock_ms: self.clock_ms,
            image_ready_at: self.image_ready_at,
            last_turn_at: self.last_turn_at,
            swallowed: self.swallowed,
            opened: match &self.opened {
                Some(u) => Some(u.clone()),
                None => None,
            },
            grabs,
            log: self.log,
            shown: self.shown,
            seen: self.seen,
        }
    }
}

/// `a * b`, or the largest `u32` when that is too large.
pub open spec fn sat_mul(a: u32, b: u32) -> u32 {
    if a * b > u32::MAX {
        u32::MAX
    } else {
        (a * b) as u32
    }
}

fn saturating_mul_u32(a: u32, b: u32) -> (r: u32)
    ensures
        r == sat_mul(a, b),
{
    assert((a as u64) * (b as u64) <= 0xffff_ffff * 0xffff_ffff) by (nonlinear_arith)
        requires
            a <= 0xffff_ffff,
            b <= 0xffff_ffff,
    ;
    let p: u64 = (a as u64) * (b as u64);
    if p > 0xffff_ffff {
        u32::MAX
    } else {
        p as u32
    }
}

fn clamp_u32(x: u32, lo: u32, hi: u32) -> (r: u32)
    ensures
        r == clamp_spec(x, lo, hi),
{
    if x < lo {
        lo
    } else if x > hi {
        hi
    } else {
        x
    }
}

impl FakeBrowser {
    /// A book of `pages` pages (at least one), open at the first page, where everything works.
    pub fn with_pages(pages: u32) -> (b: FakeBrowser)
        ensures
            b@ == (FakeState {
                pages: if pages >= 1 { pages } else { 1 },
                at: 1,
                first_reachable: 1,
                last_reachable: if pages >= 1 { pages } else { 1 },
                labels: LabelStyle::Pages,
                theme: Theme::Dark,
                font: FontControl { index: 5, max: 13 },
                menu_open: false,
                menu_operable: true,
                can_turn: true,
                ready_after: 0,
                observations: 0,
                pending_ms: 0,
                clock_ms: 0,
                image_ready_at: 0,
                last_turn_at: None,
                swallowed: 0,
                opened: None,
                grabs: Seq::empty(),
            }),
            b.calls() == Seq::<(BrowserCall, Option<Error>)>::empty(),
            b.last_image() is None,
    {
        let pages = if pages >= 1 {
            pages
        } else {
            1
        };
        FakeBrowser {
            pages,
            at: 1,
            first_reachable: 1,
            last_reachable: pages,
            labels: LabelStyle::Pages,
            theme: Theme::Dark,
            // The real reader's default step.
            font: FontControl::new(5, 13),
            menu_open: false,
            menu_operable: true,
            can_turn: true,
            ready_after: 0,
            observations: 0,
            pending_ms: 0,
            clock_ms: 0,
            image_ready_at: 0,
            last_turn_at: None,
            swallowed: 0,
            opened: None,
            grabs: Vec::new(),
            log: Ghost(Seq::empty()),
            shown: Ghost(None),
            seen: Ghost(None),
        }
    }

    /// Open at another page (a book left half read).
    pub fn starting_at(self, page: u32) -> (b: FakeBrowser)
        ensures
            b@ == (FakeState { at: clamp_spec(page, 1, self@.pages), ..self@ }),
    {
        let at = clamp_u32(page, 1, self.pages);
        FakeBrowser { at, ..self }
    }

    /// A book without a position display.
    pub fn without_labels(self) -> (b: FakeBrowser)
        ensures
            b@ == (FakeState { labels: LabelStyle::Unlabelled, ..self@ }),
    {
        FakeBrowser { labels: LabelStyle::Unlabelled, ..self }
    }

    /// A book that shows locations instead of page numbers.
    pub fn using_locations(self) -> (b: FakeBrowser)
        ensures
            b@ == (FakeState { labels: LabelStyle::Locations, ..self@ }),
    {
        FakeBrowser { labels: LabelStyle::Locations, ..self }
    }

    /// Sets the font step and the largest step.
    pub fn with_font(self, index: u8, max: u8) -> (b: FakeBrowser)
        ensures
            b@ == (FakeState {
                font: FontControl { index: if index <= max { index } else { max }, max },
                ..self@
            }),
    {
        let index = if index <= max {
            index
        } else {
            max
        };
        FakeBrowser { font: FontControl::new(index, max), ..self }
    }

    /// Sets the colour theme.
    pub fn with_theme(self, theme: Theme) -> (b: FakeBrowser)
        ensures
            b@ == (FakeState { theme, ..self@ }),
    {
        FakeBrowser { theme, ..self }
    }

    /// A settings menu that never opens.
    pub fn with_broken_menu(self) -> (b: FakeBrowser)
        ensures
            b@ == (FakeState { menu_operable: false, ..self@ }),
    {
        FakeBrowser { menu_operable: false, ..self }
    }

    /// Page turns that do nothing.
    pub fn that_never_turns(self) -> (b: FakeBrowser)
        ensures
            b@ == (FakeState { can_turn: false, ..self@ }),
    {
        FakeBrowser { can_turn: false, ..self }
    }

    /// The pages that can really be reached: a book whose start cannot be
    /// reached, or that ends before its total.
    pub fn reachable_pages(self, first: u32, last: u32) -> (b: FakeBrowser)
        ensures
            ({
                let f = if first >= 1 { first } else { 1 };
                let l = if last >= f { last } else { f };
                b@ == (FakeState {
                    first_reachable: f,
                    last_reachable: l,
                    at: clamp_spec(self@.at, f, l),
                    ..self@
                })
            }),
    {
        let f = if first >= 1 {
            first
        } else {
            1
        };
        let l = if last >= f {
            last
        } else {
            f
        };
        let at = clamp_u32(self.at, f, l);
        FakeBrowser { first_reachable: f, last_reachable: l, at, ..self }
    }

    /// How many observations go by before the page image appears (a slow load).
    pub fn ready_after(self, observations: u32) -> (b: FakeBrowser)
        ensures
            b@ == (FakeState { ready_after: observations, ..self@ }),
    {
        FakeBrowser { ready_after: observations, ..self }
    }

    /// The current font step.
    pub fn font_index(&self) -> (i: u8)
        ensures
            i == self@.font.index,
    {
        self.font.index
    }

    /// The current colour theme.
    pub fn theme(&self) -> (t: Theme)
        ensures
            t == self@.theme,
    {
        self.theme
    }

    /// The current page, from 1.
    pub fn page(&self) -> (p: u32)
        ensures
            p == self@.at,
    {
        self.at
    }

    /// The URL that was opened.
    pub fn opened_url(&self) -> (u: Option<&str>)
        ensures
            match self@.opened {
                Some(s) => u matches Some(x) && x@ == s,
                None => u is None,
            },
    {
        match &self.opened {
            Some(s) => Some(s.as_str()),
            None => None,
        }
    }

    /// How many page turns came too soon and were ignored.
    pub fn swallowed_turns(&self) -> (n: u32)
        ensures
            n == self@.swallowed,
    {
        self.swallowed
    }

    /// The pages whose image was fetched, for capturing and for measuring.
    pub fn grabbed_pages(&self) -> (s: &[u32])
        ensures
            s@ == self@.grabs,
    {
        self.grabs.as_slice()
    }

    /// Whether the page image is there.
    fn is_ready(&self) -> (b: bool)
        ensures
            b == self@.ready(),
    {
        self.observations > self.ready_after && self.clock_ms >= self.image_ready_at
    }

    /// A display setting changed: the page is rebuilt and its image gone for a while.
    fn start_rerender(&mut self)
        ensures
            final(self)@ == (FakeState {
                image_ready_at: old(self)@.clock_ms.saturating_add(RERENDER_MS),
                ..old(self)@
            }),
            final(self).log == old(self).log,
            final(self).shown == old(self).shown,
    {
        self.image_ready_at = self.clock_ms.saturating_add(RERENDER_MS);
    }

    fn label(&self) -> (l: Option<PageLabel>)
        ensures
            l == self@.label(),
    {
        match self.labels {
            LabelStyle::Pages => Some(PageLabel::new(self.at, Some(self.pages))),
            // Locations never reach their total, even on the last page.
            LabelStyle::Locations => Some(
                PageLabel::at_location(
                    saturating_mul_u32(self.at, LOCATIONS_PER_PAGE),
                    Some(saturating_mul_u32(self.pages, LOCATIONS_PER_PAGE).saturating_add(300)),
                ),
            ),
            LabelStyle::Unlabelled => None,
        }
    }

    fn require_menu(&self, what: &'static str) -> (r: Result<(), Error>)
        ensures
            self@.menu_open ==> r is Ok,
            !self@.menu_open ==> (r matches Err(Error::ElementNotFound { what: w, seen }) && w == what
                && seen@.len() == 1 && seen@[0]@ == menu_closed_text()),
    {
        if self.menu_open {
            return Ok(());
        }
        let mut seen: Vec<String> = Vec::new();
        seen.push(String::from_str("設定メニューが閉じている"));
        Err(Error::not_found(what, seen))
    }

    fn blob(&self) -> (s: String)
        ensures
            s@ == blob_source(self@.at),
    {
        let n = decimal_string(self.at as u64);
        join2("blob:page-", n.as_str())
    }
}

/// What the simulator reports seeing when a setting is asked for with the menu closed.
pub open spec fn menu_closed_text() -> Seq<char> {
    "設定メニューが閉じている"@
}

/// Why the simulator has no page image to hand out.
pub open spec fn not_rendered_text() -> Seq<char> {
    "まだ描画されていません"@
}

impl Browser for FakeBrowser {
    closed spec fn calls(&self) -> Seq<(BrowserCall, Option<Error>)> {
        self.log@
    }

    closed spec fn last_image(&self) -> Option<PageImage> {
        self.shown@
    }

    closed spec fn last_observation(&self) -> Option<Observation> {
        self.seen@
    }

    fn open(&mut self, url: &str) -> (r: Result<(), Error>)
        ensures
            r is Ok,
            final(self)@ == (FakeState { opened: Some(url@), observations: 0, ..old(self)@ }),
            final(self).last_image() == old(self).last_image(),
    {
        self.opened = Some(String::from_str(url));
        self.observations = 0;
        proof {
            self.log@ = self.log@.push((BrowserCall::Open(url@), None));
        }
        Ok(())
    }

    fn observe(&mut self) -> (r: Result<Observation, Error>)
        ensures
            ({
                let s = FakeState {
                    observations: old(self)@.observations.saturating_add(1),
                    clock_ms: old(self)@.clock_ms.saturating_add(1),
                    pending_ms: 0,
                    ..old(self)@
                };
                &&& final(self)@ == s
                &&& r matches Ok(o) && {
                    &&& o.elapsed_ms == old(self)@.pending_ms.saturating_add(1)
                    &&& o.page == (if s.ready() { s.label() } else { None })
                    &&& (s.ready() ==> (o.image matches Some(i) && i.natural_width == IMAGE_WIDTH
                        && i.natural_height == IMAGE_HEIGHT && i.complete && (i.source matches Some(
                        src,
                    ) && src@ == blob_source(s.at))))
                    &&& (!s.ready() ==> o.image is None)
                    &&& o.settings_menu_open == s.menu_open
                    &&& o.font == (if s.menu_open { Some(s.font) } else { None })
                    &&& o.theme == Some(s.theme)
                    &&& o.turn_controls == (if s.ready() { Some(s.controls()) } else { None })
                    &&& o.metrics is None
                }
            }),
            final(self).last_image() == old(self).last_image(),
    {
        self.observations = self.observations.saturating_add(1);
        self.clock_ms = self.clock_ms.saturating_add(1);
        let ready = self.is_ready();
        // Observing takes a little time too; with zero the time limits would never come.
        let elapsed = self.pending_ms.saturating_add(1);
        self.pending_ms = 0;
        let page = if ready {
            self.label()
        } else {
            None
        };
        let image = if ready {
            Some(PageImageInfo::ready(IMAGE_WIDTH, IMAGE_HEIGHT).with_source(self.blob().as_str()))
        } else {
            None
        };
        let turn_controls = if ready {
            Some(TurnControls { next: self.at < self.pages, prev: self.at > 1 })
        } else {
            None
        };
        let o = Observation {
                elapsed_ms: elapsed,
                page,
                image,
                settings_menu_open: self.menu_open,
                font: if self.menu_open {
                    Some(self.font)
                } else {
                    None
                },
                theme: Some(self.theme),
                turn_controls,
                // Pixels per character are measured above, by the OCR side.
                metrics: None,
            };
        proof {
            self.log@ = self.log@.push((BrowserCall::Observe, None));
            self.seen@ = Some(o);
        }
        Ok(o)
    }

    fn set_settings_menu(&mut self, open: bool) -> (r: Result<(), Error>)
        ensures
            r is Ok,
            final(self)@ == (if old(self)@.menu_operable {
                FakeState { menu_open: open, ..old(self)@ }
            } else {
                old(self)@
            }),
            final(self).last_image() == old(self).last_image(),
    {
        if self.menu_operable {
            self.menu_open = open;
        }
        proof {
            self.log@ = self.log@.push((BrowserCall::SetSettingsMenu(open), None));
        }
        Ok(())
    }

    fn set_theme(&mut self, theme: Theme) -> (r: Result<(), Error>)
        ensures
            !old(self)@.menu_open ==> final(self)@ == old(self)@ && (r matches Err(
                Error::ElementNotFound { what, seen },
            ) && what@ == "配色テーマの選択肢"@ && seen@.len() == 1 && seen@[0]@
                == menu_closed_text()),
            old(self)@.menu_open ==> r is Ok && final(self)@ == (if old(self)@.theme == theme {
                old(self)@
            } else {
                FakeState {
                    theme,
                    image_ready_at: old(self)@.clock_ms.saturating_add(RERENDER_MS),
                    ..old(self)@
                }
            }),
            final(self).last_image() == old(self).last_image(),
    {
        let r = self.require_menu("配色テーマの選択肢");
        if r.is_ok() && self.theme != theme {
            self.theme = theme;
            self.start_rerender();
        }
        proof {
            self.log@ = self.log@.push((BrowserCall::SetTheme(theme), failure(r)));
        }
        r
    }

    fn set_font_size(&mut self, index: u8) -> (r: Result<(), Error>)
        ensures
            !old(self)@.menu_open ==> final(self)@ == old(self)@ && (r matches Err(
                Error::ElementNotFound { what, seen },
            ) && what@ == "フォントサイズのスライダー"@ && seen@.len() == 1 && seen@[0]@
                == menu_closed_text()),
            old(self)@.menu_open ==> r is Ok && ({
                let want = if index <= old(self)@.font.max {
                    index
                } else {
                    old(self)@.font.max
                };
                final(self)@ == (if old(self)@.font.index == want {
                    old(self)@
                } else {
                    FakeState {
                        font: FontControl { index: want, ..old(self)@.font },
                        image_ready_at: old(self)@.clock_ms.saturating_add(RERENDER_MS),
                        ..old(self)@
                    }
                })
            }),
            final(self).last_image() == old(self).last_image(),
    {
        let r = self.require_menu("フォントサイズのスライダー");
        let want = self.font.clamp(index);
        if r.is_ok() && self.font.index != want {
            self.font.index = want;
            self.start_rerender();
        }
        proof {
            self.log@ = self.log@.push((BrowserCall::SetFontSize(index), failure(r)));
        }
        r
    }

    fn turn_page(&mut self, direction: Direction) -> (r: Result<(), Error>)
        ensures
            r is Ok,
            final(self)@ == (if !old(self)@.can_turn {
                old(self)@
            } else if old(self)@.too_soon() {
                FakeState { swallowed: old(self)@.swallowed.saturating_add(1), ..old(self)@ }
            } else {
                let next = match direction {
                    Direction::Next => old(self)@.at.saturating_add(1),
                    Direction::Prev => old(self)@.at.saturating_sub(1),
                };
                FakeState {
                    last_turn_at: Some(old(self)@.clock_ms),
                    at: clamp_spec(next, old(self)@.first_reachable, old(self)@.last_reachable),
                    ..old(self)@
                }
            }),
            final(self).last_image() == old(self).last_image(),
    {
        proof {
            self.log@ = self.log@.push((BrowserCall::TurnPage(direction), None));
        }
        if !self.can_turn {
            return Ok(());
        }
        // A press too soon after the last accepted one is ignored.
        let too_soon = match self.last_turn_at {
            Some(t) => self.clock_ms < t.saturating_add(MIN_TURN_GAP_MS),
            None => false,
        };
        if too_soon {
            self.swallowed = self.swallowed.saturating_add(1);
            return Ok(());
        }
        self.last_turn_at = Some(self.clock_ms);
        let next = match direction {
            Direction::Next => self.at.saturating_add(1),
            Direction::Prev => self.at.saturating_sub(1),
        };
        self.at = clamp_u32(next, self.first_reachable, self.last_reachable);
        Ok(())
    }

    fn capture_page(&mut self) -> (r: Result<PageImage, Error>)
        ensures
            !old(self)@.ready() ==> final(self)@ == old(self)@ && (r matches Err(
                Error::NoPageImage(m),
            ) && m@ == not_rendered_text()) && final(self).last_image() == old(self).last_image(),
            old(self)@.ready() ==> (final(self)@ == (FakeState {
                grabs: old(self)@.grabs.push(old(self)@.at),
                ..old(self)@
            }) && (r matches Ok(img) && img.png@ == fake_png(old(self)@.at) && img.width
                == IMAGE_WIDTH && img.height == IMAGE_HEIGHT && (img.source matches Some(s) && s@
                == blob_source(old(self)@.at)))),
    {
        if !self.is_ready() {
            let r = Err(Error::NoPageImage(String::from_str("まだ描画されていません")));
            proof {
                self.log@ = self.log@.push((BrowserCall::CapturePage, failure(r)));
            }
            return r;
        }
        self.grabs.push(self.at);
        // Bytes that look like a PNG and differ from page to page.
        let mut png: Vec<u8> = Vec::new();
        png.push(0x89u8);
        png.push(0x50u8);
        png.push(0x4eu8);
        png.push(0x47u8);
        png.push(0x0du8);
        png.push(0x0au8);
        png.push(0x1au8);
        png.push(0x0au8);
        let at = self.at;
        png.push((at / 0x100_0000) as u8);
        png.push(((at / 0x1_0000) % 0x100) as u8);
        png.push(((at / 0x100) % 0x100) as u8);
        png.push((at % 0x100) as u8);
        assert(png@ =~= fake_png(at));
        let source = self.blob();
        let image = PageImage { png, width: IMAGE_WIDTH, height: IMAGE_HEIGHT, source: Some(source) };
        proof {
            self.log@ = self.log@.push((BrowserCall::CapturePage, None));
            self.shown@ = Some(image);
        }
        Ok(image)
    }

    fn sleep(&mut self, ms: u32)
        ensures
            final(self)@ == (FakeState {
                pending_ms: old(self)@.pending_ms.saturating_add(ms as u64),
                clock_ms: old(self)@.clock_ms.saturating_add(ms as u64),
                ..old(self)@
            }),
            final(self).last_image() == old(self).last_image(),
    {
        self.pending_ms = self.pending_ms.saturating_add(ms as u64);
        self.clock_ms = self.clock_ms.saturating_add(ms as u64);
        proof {
            self.log@ = self.log@.push((BrowserCall::Sleep(ms), None));
        }
    }
}

} // verus!
