//! Character-level building blocks shared by the parsers and the message builders.
//!
//! Strings are reasoned about through their view, a `Seq<char>`.
use vstd::prelude::*;
use vstd::string::*;

verus! {

/// `c` is one of the ASCII digits `0`..`9`.
pub open spec fn is_digit(c: char) -> bool {
    '0' <= c && c <= '9'
}

/// `c` is an ASCII letter or digit.
pub open spec fn is_alnum(c: char) -> bool {
    is_digit(c) || ('a' <= c && c <= 'z') || ('A' <= c && c <= 'Z')
}

/// The ASCII upper-case form of `c`; every other character is kept.
pub open spec fn upper(c: char) -> char {
    if 'a' <= c && c <= 'z' {
        ((c as u32) - 32) as char
    } else {
        c
    }
}

/// The numeric value of an ASCII digit.
pub open spec fn digit_value(c: char) -> nat {
    ((c as u32) - ('0' as u32)) as nat
}

/// The character of the decimal digit `d` (`d < 10`).
pub open spec fn digit_char(d: nat) -> char {
    ((d + ('0' as u32)) as u32) as char
}

/// Every character of `s` is an ASCII digit.
pub open spec fn all_digits(s: Seq<char>) -> bool {
    forall|i: int| 0 <= i < s.len() ==> #[trigger] is_digit(s[i])
}

/// The number that a string of decimal digits denotes.
pub open spec fn decimal_value(s: Seq<char>) -> nat
    decreases s.len(),
{
    if s.len() == 0 {
        0
    } else {
        decimal_value(s.drop_last()) * 10 + digit_value(s.last())
    }
}

/// The shortest decimal notation of `n`, without sign or leading zeros.
pub open spec fn decimal(n: nat) -> Seq<char>
    decreases n,
{
    if n < 10 {
        seq![digit_char(n)]
    } else {
        decimal(n / 10).push(digit_char(n % 10))
    }
}

/// What Rust's `str::parse::<u32>` gives on a string made of ASCII digits only:
/// the value when the string is not empty and the value fits in a `u32`.
pub open spec fn parse_u32(s: Seq<char>) -> Option<u32> {
    if s.len() > 0 && all_digits(s) && decimal_value(s) <= u32::MAX {
        Some(decimal_value(s) as u32)
    } else {
        None
    }
}

/// `needle` occurs in `hay` at position `at`.
pub open spec fn occurs_at(hay: Seq<char>, needle: Seq<char>, at: int) -> bool {
    0 <= at && at + needle.len() <= hay.len() && hay.subrange(at, at + needle.len()) == needle
}

/// `needle` occurs somewhere in `hay`.
pub open spec fn contains_seq(hay: Seq<char>, needle: Seq<char>) -> bool {
    exists|at: int| occurs_at(hay, needle, at)
}

/// Builds a `String` out of characters.
///
/// Trusted: calls std's `FromIterator<char>` for `String`, whose documentation
/// says that the string holds the characters in the order given.
#[verifier::external_body]
pub fn string_from_chars(chars: &Vec<char>) -> (s: String)
    ensures
        s@ == chars@,
{
    chars.iter().collect()
}

/// The characters of `s`, in order.
pub fn chars_of(s: &str) -> (v: Vec<char>)
    ensures
        v@ == s@,
{
    let n = s.unicode_len();
    let mut v: Vec<char> = Vec::new();
    let mut i: usize = 0;
    while i < n
        invariant
            n == s@.len(),
            i <= n,
            v@ == s@.subrange(0, i as int),
        decreases n - i,
    {
        let c = s.get_char(i);
        v.push(c);
        i = i + 1;
        assert(v@ =~= s@.subrange(0, i as int));
    }
    assert(v@ =~= s@);
    v
}

/// Whether `c` is an ASCII digit.
pub fn char_is_digit(c: char) -> (b: bool)
    ensures
        b == is_digit(c),
{
    '0' <= c && c <= '9'
}

/// Whether `c` is an ASCII letter or digit.
pub fn char_is_alnum(c: char) -> (b: bool)
    ensures
        b == is_alnum(c),
{
    ('0' <= c && c <= '9') || ('a' <= c && c <= 'z') || ('A' <= c && c <= 'Z')
}

/// The ASCII upper-case form of `c`.
pub fn char_upper(c: char) -> (u: char)
    ensures
        u == upper(c),
{
    if 'a' <= c && c <= 'z' {
        let code: u32 = (c as u32) - 32;
        assert(0x41 <= code <= 0x5a);
        char_from_ascii(code)
    } else {
        c
    }
}

/// The character with an ASCII code.
fn char_from_ascii(code: u32) -> (c: char)
    requires
        code < 128,
    ensures
        c == code as char,
{
    let b: u8 = code as u8;
    b as char
}

/// Parses a string of ASCII digits as Rust's `str::parse::<u32>` does.
pub fn parse_u32_chars(s: &Vec<char>, from: usize, to: usize) -> (r: Option<u32>)
    requires
        from <= to <= s@.len(),
    ensures
        r == parse_u32(s@.subrange(from as int, to as int)),
{
    let ghost t = s@.subrange(from as int, to as int);
    if from == to {
        return None;
    }
    let mut acc: u64 = 0;
    let mut i: usize = from;
    while i < to
        invariant
            from <= i <= to <= s@.len(),
            t == s@.subrange(from as int, to as int),
            all_digits(s@.subrange(from as int, i as int)),
            acc == decimal_value(s@.subrange(from as int, i as int)),
            acc <= u32::MAX,
        decreases to - i,
    {
        let c = s[i];
        let ghost before = s@.subrange(from as int, i as int);
        let ghost after = s@.subrange(from as int, i + 1);
        assert(after.drop_last() =~= before);
        if !char_is_digit(c) {
            assert(!all_digits(t)) by {
                assert(t[i - from] == c);
            }
            return None;
        }
        let d: u64 = ((c as u32) - ('0' as u32)) as u64;
        let next: u64 = acc * 10 + d;
        assert(all_digits(after)) by {
            assert forall|k: int| 0 <= k < after.len() implies #[trigger] is_digit(after[k]) by {
                if k < before.len() {
                    assert(after[k] == before[k]);
                }
            }
        }
        if next > 0xffff_ffff {
            // Digits only add to the value, so the whole string is too large as well.
            proof {
                lemma_decimal_grows(s@, from as int, i + 1, to as int);
            }
            return None;
        }
        acc = next;
        i = i + 1;
    }
    Some(acc as u32)
}

/// A longer digit string never denotes a smaller number.
proof fn lemma_decimal_grows(s: Seq<char>, from: int, mid: int, to: int)
    requires
        0 <= from <= mid <= to <= s.len(),
    ensures
        all_digits(s.subrange(from, to)) ==> decimal_value(s.subrange(from, mid))
            <= decimal_value(s.subrange(from, to)),
    decreases to - mid,
{
    if mid < to && all_digits(s.subrange(from, to)) {
        lemma_decimal_grows(s, from, mid, to - 1);
        let a = s.subrange(from, to);
        assert(a.drop_last() =~= s.subrange(from, to - 1));
        assert(all_digits(s.subrange(from, to - 1))) by {
            assert forall|k: int| 0 <= k < to - 1 - from implies #[trigger] is_digit(
                s.subrange(from, to - 1)[k],
            ) by {
                assert(s.subrange(from, to - 1)[k] == a[k]);
            }
        }
    }
}

/// A decimal digit's character is a digit, and it stands for the digit.
proof fn lemma_digit_char(d: nat)
    requires
        d < 10,
    ensures
        is_digit(digit_char(d)),
        digit_value(digit_char(d)) == d,
{
    let code: u32 = (d + 48) as u32;
    assert(48 <= code <= 57);
    assert((code as char) as u32 == code);
}

/// The decimal notation of `n` is a non-empty string of digits that stands for `n`.
pub proof fn lemma_decimal(n: nat)
    ensures
        decimal(n).len() >= 1,
        all_digits(decimal(n)),
        decimal_value(decimal(n)) == n,
    decreases n,
{
    let s = decimal(n);
    if n < 10 {
        lemma_digit_char(n);
        assert(s.drop_last() =~= Seq::<char>::empty());
        assert(decimal_value(Seq::<char>::empty()) == 0);
    } else {
        lemma_decimal(n / 10);
        lemma_digit_char(n % 10);
        assert(s.drop_last() =~= decimal(n / 10));
        assert forall|k: int| 0 <= k < s.len() implies #[trigger] is_digit(s[k]) by {
            if k < s.len() - 1 {
                assert(s[k] == decimal(n / 10)[k]);
            }
        }
    }
}

/// Rust reads the decimal notation of a `u32` back as that number.
pub proof fn lemma_parse_decimal(n: u32)
    ensures
        parse_u32(decimal(n as nat)) == Some(n),
{
    lemma_decimal(n as nat);
}

/// The decimal notation of `n`, as characters.
pub fn decimal_chars(n: u64) -> (v: Vec<char>)
    ensures
        v@ == decimal(n as nat),
    decreases n,
{
    if n < 10 {
        let mut v: Vec<char> = Vec::new();
        v.push(digit_to_char(n));
        assert(v@ =~= seq![digit_char(n as nat)]);
        v
    } else {
        let mut v = decimal_chars(n / 10);
        v.push(digit_to_char(n % 10));
        v
    }
}

/// The character of a decimal digit.
fn digit_to_char(d: u64) -> (c: char)
    requires
        d < 10,
    ensures
        c == digit_char(d as nat),
{
    char_from_ascii((d as u32) + 0x30)
}

/// The decimal notation of `n`.
pub fn decimal_string(n: u64) -> (s: String)
    ensures
        s@ == decimal(n as nat),
{
    let v = decimal_chars(n);
    string_from_chars(&v)
}

/// `a + b` as a new string.
pub fn join2(a: &str, b: &str) -> (s: String)
    ensures
        s@ == a@ + b@,
{
    let mut s = String::from_str(a);
    s.append(b);
    s
}

/// `a + b + c` as a new string.
pub fn join3(a: &str, b: &str, c: &str) -> (s: String)
    ensures
        s@ == a@ + b@ + c@,
{
    let mut s = String::from_str(a);
    s.append(b);
    s.append(c);
    s
}

/// Whether `needle` occurs in `hay`.
pub fn chars_contain(hay: &Vec<char>, needle: &Vec<char>) -> (b: bool)
    ensures
        b == contains_seq(hay@, needle@),
{
    let n = needle.len();
    if n == 0 {
        assert(occurs_at(hay@, needle@, 0)) by {
            assert(hay@.subrange(0, 0) =~= needle@);
        }
        return true;
    }
    if n > hay.len() {
        assert(!contains_seq(hay@, needle@));
        return false;
    }
    let last = hay.len() - n;
    let mut at: usize = 0;
    while at <= last
        invariant
            n == needle@.len(),
            n > 0,
            last + n == hay@.len(),
            hay@.len() <= usize::MAX,
            at <= last + 1,
            forall|k: int| 0 <= k < at ==> !occurs_at(hay@, needle@, k),
        decreases last + 1 - at,
    {
        let mut j: usize = 0;
        let mut same = true;
        while j < n
            invariant
                n == needle@.len(),
                at <= last,
                last + n == hay@.len(),
                hay@.len() <= usize::MAX,
                j <= n,
                same == (forall|k: int| 0 <= k < j ==> hay@[at + k] == needle@[k]),
            decreases n - j,
        {
            if hay[at + j] != needle[j] {
                same = false;
            }
            j = j + 1;
        }
        if same {
            assert(hay@.subrange(at as int, at + n) =~= needle@);
            assert(occurs_at(hay@, needle@, at as int));
            return true;
        }
        assert(!occurs_at(hay@, needle@, at as int)) by {
            let k = choose|k: int| 0 <= k < n && hay@[at + k] != needle@[k];
            if hay@.subrange(at as int, at + n) == needle@ {
                assert(hay@.subrange(at as int, at + n)[k] == hay@[at + k]);
            }
        }
        at = at + 1;
    }
    assert(!contains_seq(hay@, needle@)) by {
        if contains_seq(hay@, needle@) {
            let k = choose|k: int| occurs_at(hay@, needle@, k);
            assert(k < at);
        }
    }
    false
}

/// The ASCII lower-case form of `c`; every other character is kept.
pub open spec fn lower(c: char) -> char {
    if 'A' <= c && c <= 'Z' {
        ((c as u32) + 32) as char
    } else {
        c
    }
}

/// The ASCII lower-case form of `c`.
pub fn char_lower(c: char) -> (l: char)
    ensures
        l == lower(c),
{
    if 'A' <= c && c <= 'Z' {
        let code: u32 = (c as u32) + 32;
        char_from_ascii(code)
    } else {
        c
    }
}

/// Whether `needle` occurs in `hay` at `at`.
pub fn matches_at(hay: &Vec<char>, needle: &Vec<char>, at: usize) -> (b: bool)
    ensures
        b == occurs_at(hay@, needle@, at as int),
{
    let n = needle.len();
    if at > hay.len() || n > hay.len() - at {
        return false;
    }
    let mut j: usize = 0;
    while j < n
        invariant
            n == needle@.len(),
            at + n <= hay@.len(),
            hay@.len() <= usize::MAX,
            j <= n,
            forall|k: int| 0 <= k < j ==> hay@[at + k] == needle@[k],
        decreases n - j,
    {
        if hay[at + j] != needle[j] {
            assert(hay@.subrange(at as int, at + n)[j as int] == hay@[at + j]);
            return false;
        }
        j = j + 1;
    }
    assert(hay@.subrange(at as int, at + n) =~= needle@);
    true
}

/// Whether two character sequences are equal.
pub fn same_chars(a: &Vec<char>, b: &Vec<char>) -> (r: bool)
    ensures
        r == (a@ == b@),
{
    if a.len() != b.len() {
        return false;
    }
    let mut i: usize = 0;
    while i < a.len()
        invariant
            a@.len() == b@.len(),
            i <= a@.len(),
            forall|k: int| 0 <= k < i ==> a@[k] == b@[k],
        decreases a.len() - i,
    {
        if a[i] != b[i] {
            return false;
        }
        i = i + 1;
    }
    assert(a@ =~= b@);
    true
}

/// `h` with every occurrence of `n`, from left to right and without overlap,
/// replaced by `r`.
pub open spec fn replace_all(h: Seq<char>, n: Seq<char>, r: Seq<char>) -> Seq<char>
    decreases h.len(),
{
    if n.len() == 0 || h.len() < n.len() {
        h
    } else if h.subrange(0, n.len() as int) == n {
        r + replace_all(h.subrange(n.len() as int, h.len() as int), n, r)
    } else {
        seq![h[0]] + replace_all(h.subrange(1, h.len() as int), n, r)
    }
}

/// Replaces every occurrence of `n` in `h` by `r`.
pub fn replace_all_chars(h: &Vec<char>, n: &Vec<char>, r: &Vec<char>) -> (out: Vec<char>)
    requires
        n@.len() > 0,
    ensures
        out@ == replace_all(h@, n@, r@),
{
    let mut out: Vec<char> = Vec::new();
    let mut i: usize = 0;
    assert(h@.subrange(0, h@.len() as int) =~= h@);
    assert(out@ + replace_all(h@, n@, r@) =~= replace_all(h@, n@, r@));
    while i < h.len()
        invariant
            n@.len() > 0,
            i <= h@.len(),
            out@ + replace_all(h@.subrange(i as int, h@.len() as int), n@, r@) == replace_all(
                h@,
                n@,
                r@,
            ),
        decreases h.len() - i,
    {
        let ghost rest = h@.subrange(i as int, h@.len() as int);
        if matches_at(h, n, i) {
            assert(rest.subrange(0, n@.len() as int) =~= h@.subrange(i as int, i + n@.len()));
            assert(rest.subrange(n@.len() as int, rest.len() as int) =~= h@.subrange(
                i + n@.len(),
                h@.len() as int,
            ));
            let ghost before = out@;
            let mut k: usize = 0;
            while k < r.len()
                invariant
                    k <= r@.len(),
                    out@ == before + r@.subrange(0, k as int),
                decreases r.len() - k,
            {
                out.push(r[k]);
                k = k + 1;
                assert(out@ =~= before + r@.subrange(0, k as int));
            }
            assert(r@.subrange(0, r@.len() as int) =~= r@);
            assert(out@ + replace_all(h@.subrange(i + n@.len(), h@.len() as int), n@, r@) =~= before
                + (r@ + replace_all(h@.subrange(i + n@.len(), h@.len() as int), n@, r@)));
            i = i + n.len();
        } else {
            proof {
                assert(rest.subrange(1, rest.len() as int) =~= h@.subrange(
                    i + 1,
                    h@.len() as int,
                ));
                if rest.len() >= n@.len() {
                    assert(rest.subrange(0, n@.len() as int) =~= h@.subrange(
                        i as int,
                        i + n@.len(),
                    ));
                } else {
                    assert(replace_all(rest.subrange(1, rest.len() as int), n@, r@)
                        == rest.subrange(1, rest.len() as int));
                    assert(rest =~= seq![rest[0]] + rest.subrange(1, rest.len() as int));
                }
            }
            let ghost before = out@;
            out.push(h[i]);
            assert(out@ + replace_all(h@.subrange(i + 1, h@.len() as int), n@, r@) =~= before + (
            seq![h@[i as int]] + replace_all(h@.subrange(i + 1, h@.len() as int), n@, r@)));
            i = i + 1;
        }
    }
    assert(replace_all(h@.subrange(h@.len() as int, h@.len() as int), n@, r@) =~= Seq::<
        char,
    >::empty());
    assert(out@ + Seq::<char>::empty() =~= out@);
    out
}

/// Whether two strings hold the same characters.
pub fn str_eq(a: &str, b: &str) -> (r: bool)
    ensures
        r == (a@ == b@),
{
    let x = chars_of(a);
    let y = chars_of(b);
    same_chars(&x, &y)
}


/// A character that `char::is_whitespace` accepts: the Unicode `White_Space` set.
pub open spec fn is_white_space(c: char) -> bool {
    ||| '\u{9}' <= c <= '\u{d}'
    ||| c == ' '
    ||| c == '\u{85}'
    ||| c == '\u{a0}'
    ||| c == '\u{1680}'
    ||| '\u{2000}' <= c <= '\u{200a}'
    ||| c == '\u{2028}'
    ||| c == '\u{2029}'
    ||| c == '\u{202f}'
    ||| c == '\u{205f}'
    ||| c == '\u{3000}'
}

/// Whether a character is white space, as `char::is_whitespace` says.
pub fn char_is_white_space(c: char) -> (b: bool)
    ensures
        b == is_white_space(c),
{
    ('\u{9}' <= c && c <= '\u{d}') || c == ' ' || c == '\u{85}' || c == '\u{a0}' || c
        == '\u{1680}' || ('\u{2000}' <= c && c <= '\u{200a}') || c == '\u{2028}' || c
        == '\u{2029}' || c == '\u{202f}' || c == '\u{205f}' || c == '\u{3000}'
}

/// A line that trimming leaves empty.
pub open spec fn is_blank(line: Seq<char>) -> bool {
    forall|i: int| 0 <= i < line.len() ==> #[trigger] is_white_space(line[i])
}

/// A line ended by a line feed, without a carriage return before it.
pub open spec fn without_cr(line: Seq<char>) -> Seq<char> {
    if line.len() > 0 && line.last() == '\r' {
        line.drop_last()
    } else {
        line
    }
}

/// The lines of `s` from position `i` on, the current one having begun at
/// `start`, as `BufRead::lines` gives them: split at each line feed, a carriage
/// return before it dropped, and no empty line after a final line feed.
pub open spec fn lines_scan(s: Seq<char>, start: int, i: int) -> Seq<Seq<char>>
    decreases s.len() - i,
{
    if i < 0 || i >= s.len() {
        if 0 <= start < s.len() {
            seq![s.subrange(start, s.len() as int)]
        } else {
            Seq::empty()
        }
    } else if s[i] == '\n' {
        seq![without_cr(s.subrange(start, i))] + lines_scan(s, i + 1, i + 1)
    } else {
        lines_scan(s, start, i + 1)
    }
}

/// The lines of a text.
pub open spec fn text_lines(s: Seq<char>) -> Seq<Seq<char>> {
    lines_scan(s, 0, 0)
}

/// The lines that are not blank, each with its number, counting from `n + 1`.
pub open spec fn numbered_content(lines: Seq<Seq<char>>, n: int) -> Seq<(int, Seq<char>)>
    decreases lines.len(),
{
    if lines.len() == 0 {
        Seq::empty()
    } else {
        let rest = numbered_content(lines.drop_first(), n + 1);
        if is_blank(lines[0]) {
            rest
        } else {
            seq![(n + 1, lines[0])] + rest
        }
    }
}

/// A line of a log, with its number from 1.
#[derive(Debug, PartialEq, Eq)]
pub struct LogLine {
    /// The number of the line, blank lines counted.
    pub number: usize,
    /// The line, without its line end.
    pub text: String,
}

/// The views of a list of log lines.
pub open spec fn log_line_views(lines: Seq<LogLine>) -> Seq<(int, Seq<char>)> {
    lines.map_values(|l: LogLine| (l.number as int, l.text@))
}

proof fn lemma_content_step(first: Seq<char>, rest: Seq<Seq<char>>, n: int)
    ensures
        numbered_content(seq![first] + rest, n) == if is_blank(first) {
            numbered_content(rest, n + 1)
        } else {
            seq![(n + 1, first)] + numbered_content(rest, n + 1)
        },
{
    let all = seq![first] + rest;
    assert(all.drop_first() =~= rest);
    assert(all[0] == first);
}

/// A copy of the characters from `from` up to `to`.
fn chars_between(v: &Vec<char>, from: usize, to: usize) -> (r: Vec<char>)
    requires
        from <= to <= v@.len(),
    ensures
        r@ == v@.subrange(from as int, to as int),
{
    let mut r: Vec<char> = Vec::new();
    let mut i = from;
    while i < to
        invariant
            from <= i <= to <= v@.len(),
            r@ == v@.subrange(from as int, i as int),
        decreases to - i,
    {
        r.push(v[i]);
        i = i + 1;
        assert(r@ =~= v@.subrange(from as int, i as int));
    }
    r
}

fn is_blank_chars(v: &Vec<char>) -> (b: bool)
    ensures
        b == is_blank(v@),
{
    let mut i: usize = 0;
    while i < v.len()
        invariant
            i <= v@.len(),
            forall|k: int| 0 <= k < i ==> #[trigger] is_white_space(v@[k]),
        decreases v.len() - i,
    {
        if !char_is_white_space(v[i]) {
            return false;
        }
        i = i + 1;
    }
    true
}

/// The lines of a log that are not blank, with their numbers: blank lines are
/// skipped but counted, so a message can name the line a reader sees.
pub fn log_lines(text: &str) -> (lines: Vec<LogLine>)
    ensures
        log_line_views(lines@) == numbered_content(text_lines(text@), 0),
{
    let c = chars_of(text);
    let ghost s = c@;
    let mut out: Vec<LogLine> = Vec::new();
    let mut start: usize = 0;
    let mut n: usize = 0;
    let mut i: usize = 0;
    while i < c.len()
        invariant
            c@ == s,
            s == text@,
            start <= i <= s.len(),
            n <= start,
            numbered_content(text_lines(s), 0) == log_line_views(out@) + numbered_content(
                lines_scan(s, start as int, i as int),
                n as int,
            ),
        decreases c.len() - i,
    {
        if c[i] == '\n' {
            let mut end = i;
            if end > start && c[end - 1] == '\r' {
                end = end - 1;
            }
            let line = chars_between(&c, start, end);
            proof {
                assert(line@ =~= without_cr(s.subrange(start as int, i as int)));
                lemma_content_step(line@, lines_scan(s, i + 1, i + 1), n as int);
            }
            let ghost before = out@;
            if !is_blank_chars(&line) {
                let t = string_from_chars(&line);
                out.push(LogLine { number: n + 1, text: t });
                assert(log_line_views(out@) =~= log_line_views(before) + seq![
                    ((n + 1) as int, line@),
                ]);
            }
            n = n + 1;
            start = i + 1;
        }
        i = i + 1;
    }
    if start < c.len() {
        let line = chars_between(&c, start, c.len());
        proof {
            assert(lines_scan(s, start as int, i as int) =~= seq![line@]);
            lemma_content_step(line@, Seq::empty(), n as int);
            assert(seq![line@] + Seq::<Seq<char>>::empty() =~= seq![line@]);
            assert(numbered_content(Seq::<Seq<char>>::empty(), n + 1) =~= Seq::empty());
        }
        let ghost before = out@;
        if !is_blank_chars(&line) {
            let t = string_from_chars(&line);
            out.push(LogLine { number: n + 1, text: t });
            assert(log_line_views(out@) =~= log_line_views(before) + seq![((n + 1) as int, line@)]);
        } else {
            assert(log_line_views(out@) =~= log_line_views(before));
        }
    } else {
        assert(numbered_content(lines_scan(s, start as int, i as int), n as int) =~= Seq::empty());
        assert(log_line_views(out@) + Seq::<(int, Seq<char>)>::empty() =~= log_line_views(out@));
    }
    out
}
} // verus!
