//! The position the reader shows, and where a page image came from.
use vstd::prelude::*;
use vstd::string::*;
use crate::text::{
    chars_contain, chars_of, contains_seq, decimal, decimal_string, is_digit, join2, lemma_decimal,
    lemma_parse_decimal, occurs_at, parse_u32, parse_u32_chars, char_is_digit,
};

verus! {

/// What the position display counts.
///
/// A reader shows either `33/431ページ` or `位置9783/10167 ● 96%`. Only page
/// numbers reach their total on the last page, so only they can confirm the end.
#[derive(Debug, Clone, Copy, PartialEq, Eq, Structural, Hash)]
pub enum LabelKind {
    /// Page numbers; the total is the number of pages.
    Page,
    /// Kindle locations; one page spans 41 to 55 of them, so the last page need
    /// not reach the total.
    Location,
}

impl Default for LabelKind {
    fn default() -> (k: LabelKind)
        ensures
            k == LabelKind::Page,
    {
        LabelKind::Page
    }
}

/// The position the reader shows in its footer.
#[derive(Debug, Clone, Copy, PartialEq, Eq, Structural, Hash)]
pub struct PageLabel {
    /// The current position.
    pub current: u32,
    /// The total, where the book has one.
    pub total: Option<u32>,
    /// What the numbers count.
    pub kind: LabelKind,
}

/// A character that separates thousands: ASCII or full-width comma.
pub open spec fn is_thousands_separator(c: char) -> bool {
    c == ',' || c == '，'
}

/// What a character of a footer turns into before the numbers are read:
/// digits and `/` stay, everything else becomes a space.
pub open spec fn footer_char(c: char) -> char {
    if is_digit(c) || c == '/' {
        c
    } else {
        ' '
    }
}

/// The footer with thousands separators dropped and every character that is
/// neither a digit nor `/` turned into a space.
pub open spec fn footer_digits(t: Seq<char>) -> Seq<char>
    decreases t.len(),
{
    if t.len() == 0 {
        Seq::empty()
    } else if is_thousands_separator(t.last()) {
        footer_digits(t.drop_last())
    } else {
        footer_digits(t.drop_last()).push(footer_char(t.last()))
    }
}

/// The first position at or after `from` that holds `c`, or the length when there is none.
pub open spec fn first_index_from(m: Seq<char>, c: char, from: int) -> int
    decreases m.len() - from,
{
    if from < 0 || from >= m.len() {
        m.len() as int
    } else if m[from] == c {
        from
    } else {
        first_index_from(m, c, from + 1)
    }
}

/// The start of the run of non-spaces that ends just before `j`.
pub open spec fn run_start(m: Seq<char>, j: int) -> int
    decreases j,
{
    if j <= 0 {
        0
    } else if m[j - 1] == ' ' {
        j
    } else {
        run_start(m, j - 1)
    }
}

/// The end of the run of non-spaces that starts at `j`.
pub open spec fn run_end(m: Seq<char>, j: int) -> int
    decreases m.len() - j,
{
    if j < 0 || j >= m.len() {
        m.len() as int
    } else if m[j] == ' ' {
        j
    } else {
        run_end(m, j + 1)
    }
}

/// The characters `位置` ("location").
pub open spec fn location_word() -> Seq<char> {
    seq!['位', '置']
}

/// What a footer text reads as.
///
/// The numbers are the first whitespace-separated word of the digit form of the
/// text that holds a `/`: what stands before its first `/` is the current
/// position, what stands after it the total. The text names locations when it
/// holds `位置`.
pub open spec fn spec_parse(text: Seq<char>) -> Option<PageLabel> {
    let m = footer_digits(text);
    let j = first_index_from(m, '/', 0);
    if j >= m.len() {
        None
    } else {
        let a = m.subrange(run_start(m, j), j);
        let b = m.subrange(j + 1, run_end(m, j + 1));
        match parse_u32(a) {
            None => None,
            Some(current) => Some(
                PageLabel {
                    current,
                    total: parse_u32(b),
                    kind: if contains_seq(text, location_word()) {
                        LabelKind::Location
                    } else {
                        LabelKind::Page
                    },
                },
            ),
        }
    }
}

/// The characters `ページ` ("page").
pub open spec fn page_word() -> Seq<char> {
    seq!['ペ', 'ー', 'ジ']
}

/// How a label is shown: `33/431ページ`, `33ページ`, `位置9783/10167` or `位置9783`.
pub open spec fn spec_label_text(l: PageLabel) -> Seq<char> {
    let numbers = match l.total {
        Some(t) => decimal(l.current as nat) + seq!['/'] + decimal(t as nat),
        None => decimal(l.current as nat),
    };
    match l.kind {
        LabelKind::Page => numbers + page_word(),
        LabelKind::Location => location_word() + numbers,
    }
}

impl PageLabel {
    /// A page number.
    pub fn new(current: u32, total: Option<u32>) -> (l: PageLabel)
        ensures
            l == (PageLabel { current, total, kind: LabelKind::Page }),
    {
        PageLabel { current, total, kind: LabelKind::Page }
    }

    /// A Kindle location.
    pub fn at_location(current: u32, total: Option<u32>) -> (l: PageLabel)
        ensures
            l == (PageLabel { current, total, kind: LabelKind::Location }),
    {
        PageLabel { current, total, kind: LabelKind::Location }
    }

    /// The label is on the first page.
    pub open spec fn first(self) -> bool {
        self.current <= 1
    }

    /// The label is on the last page; never when the total is unknown.
    pub open spec fn last(self) -> bool {
        match self.total {
            Some(t) => self.current >= t,
            None => false,
        }
    }

    /// The numbers are pages with a total, so reaching the end can be confirmed.
    pub open spec fn confirms_end(self) -> bool {
        self.kind == LabelKind::Page && self.total is Some
    }

    /// Whether this is the first page.
    pub fn is_first(&self) -> (b: bool)
        ensures
            b == self.first(),
    {
        self.current <= 1
    }

    /// Whether this is the last page. `false` when the total is unknown.
    pub fn is_last(&self) -> (b: bool)
        ensures
            b == self.last(),
    {
        match self.total {
            Some(t) => self.current >= t,
            None => false,
        }
    }

    /// Whether the numbers are pages with a total, so that the end of the book can be confirmed.
    pub fn can_confirm_end(&self) -> (b: bool)
        ensures
            b == self.confirms_end(),
    {
        match self.kind {
            LabelKind::Page => self.total.is_some(),
            LabelKind::Location => false,
        }
    }

    /// Reads a footer such as `33/431ページ` or `位置9783/10167 ● 96%`.
    ///
    /// Thousands separators, full-width spaces and surrounding text are allowed.
    /// `None` when the text holds no position.
    pub fn parse(text: &str) -> (r: Option<PageLabel>)
        ensures
            r == spec_parse(text@),
    {
        let t = chars_of(text);
        let m = footer_digits_of(&t);
        let ghost gm = m@;
        let j = first_index_of(&m, '/', 0);
        if j >= m.len() {
            return None;
        }
        let start = run_start_of(&m, j);
        let end = run_end_of(&m, j + 1);
        let current = match parse_u32_chars(&m, start, j) {
            None => {
                return None;
            },
            Some(c) => c,
        };
        let total = parse_u32_chars(&m, j + 1, end);
        let word = chars_of("位置");
        proof {
            reveal_strlit("位置");
            assert(word@ =~= location_word());
        }
        let kind = if chars_contain(&t, &word) {
            LabelKind::Location
        } else {
            LabelKind::Page
        };
        Some(PageLabel { current, total, kind })
    }

    /// How the reader would show this label, such as `33/431ページ` or `位置9783/10167`.
    pub fn text(&self) -> (s: String)
        ensures
            s@ == spec_label_text(*self),
    {
        let mut numbers = decimal_string(self.current as u64);
        match self.total {
            Some(t) => {
                let rest = decimal_string(t as u64);
                numbers.append("/");
                numbers.append(rest.as_str());
            },
            None => {},
        }
        proof {
            reveal_strlit("/");
            reveal_strlit("ページ");
            reveal_strlit("位置");
        }
        match self.kind {
            LabelKind::Page => join2(numbers.as_str(), "ページ"),
            LabelKind::Location => join2("位置", numbers.as_str()),
        }
    }
}

/// A label with a total reads back from its own text: what [`PageLabel::text`]
/// shows, [`PageLabel::parse`] gives again, kind included.
pub proof fn law_label_text_reads_back(l: PageLabel)
    requires
        l.total is Some,
    ensures
        spec_parse(spec_label_text(l)) == Some(l),
{
    let t = l.total->0;
    let dc = decimal(l.current as nat);
    let dt = decimal(t as nat);
    lemma_decimal(l.current as nat);
    lemma_decimal(t as nat);
    lemma_parse_decimal(l.current);
    lemma_parse_decimal(t);
    let numbers = dc + seq!['/'] + dt;
    assert forall|i: int| 0 <= i < numbers.len() implies is_digit(#[trigger] numbers[i])
        || numbers[i] == '/' by {
        if i < dc.len() {
            assert(numbers[i] == dc[i]);
        } else if i > dc.len() {
            assert(numbers[i] == dt[i - dc.len() - 1]);
        }
    }
    lemma_footer_keeps(numbers);
    let j = dc.len() as int;
    match l.kind {
        LabelKind::Page => {
            let text = numbers + page_word();
            assert(spec_label_text(l) == text);
            lemma_footer_concat(numbers, page_word());
            lemma_footer_of_page_word();
            let m = numbers + seq![' ', ' ', ' '];
            assert(footer_digits(text) == m);
            assert forall|i: int| 0 <= i < j implies #[trigger] m[i] != '/' && m[i] != ' ' by {
                assert(m[i] == dc[i]);
                assert(is_digit(dc[i]));
            }
            assert(m[j] == '/');
            lemma_first_index(m, '/', 0, j);
            lemma_run_start(m, 0, j);
            let e = j + 1 + dt.len();
            assert forall|i: int| j + 1 <= i < e implies #[trigger] m[i] != ' ' by {
                assert(m[i] == dt[i - j - 1]);
                assert(is_digit(dt[i - j - 1]));
            }
            assert(m[e] == ' ');
            lemma_run_end(m, j + 1, e);
            assert(m.subrange(0, j) =~= dc);
            assert(m.subrange(j + 1, e) =~= dt);
            assert forall|i: int| 0 <= i < text.len() implies #[trigger] text[i] != '位' by {
                if i < numbers.len() {
                    assert(text[i] == numbers[i]);
                } else {
                    assert(text[i] == page_word()[i - numbers.len()]);
                }
            }
            assert(!contains_seq(text, location_word())) by {
                if contains_seq(text, location_word()) {
                    let at = choose|at: int| occurs_at(text, location_word(), at);
                    assert(text.subrange(at, at + 2)[0] == text[at]);
                }
            }
        },
        LabelKind::Location => {
            let text = location_word() + numbers;
            assert(spec_label_text(l) == text);
            lemma_footer_concat(location_word(), numbers);
            lemma_footer_of_location_word();
            let m = seq![' ', ' '] + numbers;
            assert(footer_digits(text) == m);
            let jj = j + 2;
            assert forall|i: int| 0 <= i < jj implies #[trigger] m[i] != '/' by {
                if i >= 2 {
                    assert(m[i] == dc[i - 2]);
                    assert(is_digit(dc[i - 2]));
                }
            }
            assert(m[jj] == '/');
            lemma_first_index(m, '/', 0, jj);
            assert forall|i: int| 2 <= i < jj implies #[trigger] m[i] != ' ' by {
                assert(m[i] == dc[i - 2]);
                assert(is_digit(dc[i - 2]));
            }
            lemma_run_start(m, 2, jj);
            assert forall|i: int| jj + 1 <= i < m.len() implies #[trigger] m[i] != ' ' by {
                assert(m[i] == dt[i - jj - 1]);
                assert(is_digit(dt[i - jj - 1]));
            }
            lemma_run_end(m, jj + 1, m.len() as int);
            assert(m.subrange(2, jj) =~= dc);
            assert(m.subrange(jj + 1, m.len() as int) =~= dt);
            assert(occurs_at(text, location_word(), 0)) by {
                assert(text.subrange(0, 2) =~= location_word());
            }
        },
    }
}

/// The digit form of two texts put together is theirs put together.
proof fn lemma_footer_concat(x: Seq<char>, y: Seq<char>)
    ensures
        footer_digits(x + y) == footer_digits(x) + footer_digits(y),
    decreases y.len(),
{
    if y.len() == 0 {
        assert(x + y =~= x);
        assert(footer_digits(x) + footer_digits(y) =~= footer_digits(x));
    } else {
        lemma_footer_concat(x, y.drop_last());
        assert((x + y).drop_last() =~= x + y.drop_last());
        assert((x + y).last() == y.last());
        if !is_thousands_separator(y.last()) {
            assert(footer_digits(x) + footer_digits(y.drop_last()).push(footer_char(y.last()))
                =~= (footer_digits(x) + footer_digits(y.drop_last())).push(footer_char(y.last())));
        }
    }
}

/// Digits and `/` pass into the digit form unchanged.
proof fn lemma_footer_keeps(s: Seq<char>)
    requires
        forall|i: int| 0 <= i < s.len() ==> is_digit(#[trigger] s[i]) || s[i] == '/',
    ensures
        footer_digits(s) == s,
    decreases s.len(),
{
    if s.len() > 0 {
        let p = s.drop_last();
        assert forall|i: int| 0 <= i < p.len() implies is_digit(#[trigger] p[i]) || p[i] == '/' by {
            assert(p[i] == s[i]);
        }
        lemma_footer_keeps(p);
        assert(is_digit(s[s.len() - 1]) || s[s.len() - 1] == '/');
        assert(p.push(s.last()) =~= s);
    }
}

proof fn lemma_footer_of_page_word()
    ensures
        footer_digits(page_word()) == seq![' ', ' ', ' '],
{
    let w = page_word();
    let w2 = seq!['ペ', 'ー'];
    let w1 = seq!['ペ'];
    assert(w.drop_last() =~= w2);
    assert(w2.drop_last() =~= w1);
    assert(w1.drop_last() =~= Seq::<char>::empty());
    assert(footer_digits(Seq::<char>::empty()) =~= Seq::<char>::empty());
    assert(footer_char('ペ') == ' ');
    assert(footer_char('ー') == ' ');
    assert(footer_char('ジ') == ' ');
    assert(footer_digits(w1) =~= seq![' ']);
    assert(footer_digits(w2) =~= seq![' ', ' ']);
}

proof fn lemma_footer_of_location_word()
    ensures
        footer_digits(location_word()) == seq![' ', ' '],
{
    let w = location_word();
    let w1 = seq!['位'];
    assert(w.drop_last() =~= w1);
    assert(w1.drop_last() =~= Seq::<char>::empty());
    assert(footer_digits(Seq::<char>::empty()) =~= Seq::<char>::empty());
    assert(footer_char('位') == ' ');
    assert(footer_char('置') == ' ');
    assert(footer_digits(w1) =~= seq![' ']);
}

/// The first `c` from `k` on is at `j` when none stands in between.
proof fn lemma_first_index(m: Seq<char>, c: char, k: int, j: int)
    requires
        0 <= k <= j < m.len(),
        forall|i: int| k <= i < j ==> #[trigger] m[i] != c,
        m[j] == c,
    ensures
        first_index_from(m, c, k) == j,
    decreases j - k,
{
    if k < j {
        lemma_first_index(m, c, k + 1, j);
    }
}

/// The run of non-spaces that ends before `j` starts at `p` when a space or the
/// start stands just before `p`.
proof fn lemma_run_start(m: Seq<char>, p: int, j: int)
    requires
        0 <= p <= j <= m.len(),
        forall|i: int| p <= i < j ==> #[trigger] m[i] != ' ',
        p == 0 || m[p - 1] == ' ',
    ensures
        run_start(m, j) == p,
    decreases j,
{
    if j > p {
        lemma_run_start(m, p, j - 1);
    }
}

/// The run of non-spaces that starts at `k` ends at `e` when a space or the end
/// stands at `e`.
proof fn lemma_run_end(m: Seq<char>, k: int, e: int)
    requires
        0 <= k <= e <= m.len(),
        forall|i: int| k <= i < e ==> #[trigger] m[i] != ' ',
        e == m.len() || m[e] == ' ',
    ensures
        run_end(m, k) == e,
    decreases e - k,
{
    if k < e {
        lemma_run_end(m, k + 1, e);
    }
}

/// The digit form of a footer (see [`footer_digits`]).
fn footer_digits_of(t: &Vec<char>) -> (m: Vec<char>)
    ensures
        m@ == footer_digits(t@),
{
    let mut m: Vec<char> = Vec::new();
    let mut i: usize = 0;
    while i < t.len()
        invariant
            i <= t@.len(),
            m@ == footer_digits(t@.subrange(0, i as int)),
        decreases t.len() - i,
    {
        let c = t[i];
        let ghost pre = t@.subrange(0, i as int);
        assert(t@.subrange(0, i + 1).drop_last() =~= pre);
        if c == ',' || c == '，' {
        } else if char_is_digit(c) || c == '/' {
            m.push(c);
        } else {
            m.push(' ');
        }
        i = i + 1;
    }
    assert(t@.subrange(0, t@.len() as int) =~= t@);
    m
}

/// The first position at or after `from` that holds `c`, or the length.
pub fn first_index_of(m: &Vec<char>, c: char, from: usize) -> (j: usize)
    requires
        from <= m@.len(),
    ensures
        j == first_index_from(m@, c, from as int),
        j <= m@.len(),
    decreases m.len() - from,
{
    if from >= m.len() {
        m.len()
    } else if m[from] == c {
        from
    } else {
        first_index_of(m, c, from + 1)
    }
}

/// The start of the run of non-spaces that ends just before `j`.
fn run_start_of(m: &Vec<char>, j: usize) -> (s: usize)
    requires
        j <= m@.len(),
    ensures
        s == run_start(m@, j as int),
        s <= j,
    decreases j,
{
    if j == 0 {
        0
    } else if m[j - 1] == ' ' {
        j
    } else {
        run_start_of(m, j - 1)
    }
}

/// The end of the run of non-spaces that starts at `j`.
fn run_end_of(m: &Vec<char>, j: usize) -> (e: usize)
    requires
        j <= m@.len(),
    ensures
        e == run_end(m@, j as int),
        j <= e <= m@.len(),
    decreases m.len() - j,
{
    if j >= m.len() {
        m.len()
    } else if m[j] == ' ' {
        j
    } else {
        run_end_of(m, j + 1)
    }
}

/// Where a page image came from and how large it is.
///
/// The reader sends pages as images rendered on the server, so the natural size
/// is the resolution that OCR gets.
#[derive(Debug, PartialEq, Eq)]
pub struct PageImageInfo {
    /// Where the image came from (the `<img>` blob URL). It changes from page to
    /// page, so without a position display it tells that the page has turned.
    pub source: Option<String>,
    /// The natural width in pixels.
    pub natural_width: u32,
    /// The natural height in pixels.
    pub natural_height: u32,
    /// The image has finished loading.
    pub complete: bool,
}

impl Clone for PageImageInfo {
    fn clone(&self) -> (r: PageImageInfo)
        ensures
            r == *self,
    {
        PageImageInfo {
            source: match &self.source {
                Some(s) => Some(s.clone()),
                None => None,
            },
            natural_width: self.natural_width,
            natural_height: self.natural_height,
            complete: self.complete,
        }
    }
}

impl PageImageInfo {
    /// An image that has finished loading, of unknown source.
    pub fn ready(natural_width: u32, natural_height: u32) -> (i: PageImageInfo)
        ensures
            i == (PageImageInfo { source: None, natural_width, natural_height, complete: true }),
    {
        PageImageInfo { source: None, natural_width, natural_height, complete: true }
    }

    /// The same image with its source set.
    pub fn with_source(self, source: &str) -> (i: PageImageInfo)
        ensures
            i.source matches Some(s) && s@ == source@,
            i.natural_width == self.natural_width,
            i.natural_height == self.natural_height,
            i.complete == self.complete,
    {
        PageImageInfo { source: Some(String::from_str(source)), ..self }
    }

    /// The image can serve as OCR input.
    pub open spec fn usable(self) -> bool {
        self.complete && self.natural_width > 0 && self.natural_height > 0
    }

    /// Both sources are known and differ.
    pub open spec fn differs(self, other: PageImageInfo) -> bool {
        match (self.source, other.source) {
            (Some(a), Some(b)) => a@ != b@,
            _ => false,
        }
    }

    /// Whether the image can serve as OCR input.
    pub fn is_usable(&self) -> (b: bool)
        ensures
            b == self.usable(),
    {
        self.complete && self.natural_width > 0 && self.natural_height > 0
    }

    /// Whether this is the image of another page.
    ///
    /// When either source is unknown this cannot be told, and the answer is `false`
    /// (taking a page twice is safer than skipping one).
    pub fn differs_from(&self, other: &PageImageInfo) -> (b: bool)
        ensures
            b == self.differs(*other),
    {
        match (&self.source, &other.source) {
            (Some(a), Some(b)) => !(*a == *b),
            _ => false,
        }
    }
}

/// What measuring one page gave.
#[derive(Debug, Clone, Copy, PartialEq, Eq, Structural)]
pub struct PageMetrics {
    /// Pixels per character (for vertical text, the median width of a body line).
    pub px_per_char: u32,
    /// How many characters could be read from the page.
    pub chars: u32,
}

} // verus!
