//! The scripts evaluated inside the reader, and how their answers are read.
//!
//! Every script runs in an isolated world: the reader replaces `window.fetch`
//! and other built-ins, and in the page's own context fetching the page image
//! through a canvas fails. Selectors come from the real DOM; ids and classes are
//! preferred, `aria-label` is used only where nothing else tells controls apart.
use vstd::prelude::*;
use vstd::string::*;
use crate::display::Theme;
use crate::text::{
    char_lower, chars_of, join3, lower, replace_all, replace_all_chars, same_chars, str_eq,
    string_from_chars,
};

verus! {

/// The button that closes the settings menu; independent of the display language.
pub const MENU_CLOSE: &'static str = ".side-menu-close-button";

/// The button that makes the font one step larger.
pub const FONT_BIGGER: &'static str = ".font-size-slider__label--end";

/// The button that makes the font one step smaller.
pub const FONT_SMALLER: &'static str = ".font-size-slider__label--start";

/// The `aria-label`s of the button that opens the settings menu. It shares its
/// class with the other toolbar buttons, so its label is the only clue.
pub fn settings_labels() -> (l: [&'static str; 3])
    ensures
        l@.map_values(|s: &str| s@) == settings_label_views(),
{
    let l = ["リーダー設定", "Reader settings", "Reader Settings"];
    proof {
        reveal_strlit("リーダー設定");
        reveal_strlit("Reader settings");
        reveal_strlit("Reader Settings");
        assert(l@[0]@ == settings_label_views()[0]);
        assert(l@[1]@ == settings_label_views()[1]);
        assert(l@[2]@ == settings_label_views()[2]);
        assert(l@.map_values(|s: &str| s@) =~= settings_label_views());
    }
    l
}

/// The texts of the `aria-label`s of the button that opens the settings menu.
pub open spec fn settings_label_views() -> Seq<Seq<char>> {
    seq![
        seq!['リ', 'ー', 'ダ', 'ー', '設', '定'],
        seq!['R', 'e', 'a', 'd', 'e', 'r', ' ', 's', 'e', 't', 't', 'i', 'n', 'g', 's'],
        seq!['R', 'e', 'a', 'd', 'e', 'r', ' ', 'S', 'e', 't', 't', 'i', 'n', 'g', 's'],
    ]
}

/// The `aria-label`s of the "next page" button. Never tell it by left or right:
/// in vertical books "next" is on the left.
pub fn next_labels() -> (l: [&'static str; 3])
    ensures
        l@.map_values(|s: &str| s@) == next_label_views(),
{
    let l = ["次のページ", "Next Page", "Next page"];
    proof {
        reveal_strlit("次のページ");
        reveal_strlit("Next Page");
        reveal_strlit("Next page");
        assert(l@[0]@ == next_label_views()[0]);
        assert(l@[1]@ == next_label_views()[1]);
        assert(l@[2]@ == next_label_views()[2]);
        assert(l@.map_values(|s: &str| s@) =~= next_label_views());
    }
    l
}

/// The texts of the `aria-label`s of the "next page" button.
pub open spec fn next_label_views() -> Seq<Seq<char>> {
    seq![
        seq!['次', 'の', 'ペ', 'ー', 'ジ'],
        seq!['N', 'e', 'x', 't', ' ', 'P', 'a', 'g', 'e'],
        seq!['N', 'e', 'x', 't', ' ', 'p', 'a', 'g', 'e'],
    ]
}

/// The texts of the `aria-label`s of the "previous page" button.
pub open spec fn prev_label_views() -> Seq<Seq<char>> {
    seq![
        seq!['前', 'の', 'ペ', 'ー', 'ジ'],
        seq!['P', 'r', 'e', 'v', 'i', 'o', 'u', 's', ' ', 'P', 'a', 'g', 'e'],
        seq!['P', 'r', 'e', 'v', 'i', 'o', 'u', 's', ' ', 'p', 'a', 'g', 'e'],
    ]
}

/// The `aria-label`s of the "previous page" button.
pub fn prev_labels() -> (l: [&'static str; 3])
    ensures
        l@.map_values(|s: &str| s@) == prev_label_views(),
{
    let l = ["前のページ", "Previous Page", "Previous page"];
    proof {
        reveal_strlit("前のページ");
        reveal_strlit("Previous Page");
        reveal_strlit("Previous page");
        assert(l@[0]@ == prev_label_views()[0]);
        assert(l@[1]@ == prev_label_views()[1]);
        assert(l@[2]@ == prev_label_views()[2]);
        assert(l@.map_values(|s: &str| s@) =~= prev_label_views());
    }
    l
}

/// Whether `a` is one of the labels of the "next page" button (`next`) or of
/// the "previous page" one.
pub fn is_direction_label(a: &str, next: bool) -> (b: bool)
    ensures
        b == (if next { next_label_views() } else { prev_label_views() }).contains(a@),
{
    proof {
        reveal_strlit("次のページ");
        reveal_strlit("Next Page");
        reveal_strlit("Next page");
        reveal_strlit("前のページ");
        reveal_strlit("Previous Page");
        reveal_strlit("Previous page");
    }
    let ghost labels = if next { next_label_views() } else { prev_label_views() };
    let r = if next {
        str_eq(a, "次のページ") || str_eq(a, "Next Page") || str_eq(a, "Next page")
    } else {
        str_eq(a, "前のページ") || str_eq(a, "Previous Page") || str_eq(a, "Previous page")
    };
    assert(labels.len() == 3);
    assert("次のページ"@ =~= next_label_views()[0]);
    assert("Next Page"@ =~= next_label_views()[1]);
    assert("Next page"@ =~= next_label_views()[2]);
    assert("前のページ"@ =~= prev_label_views()[0]);
    assert("Previous Page"@ =~= prev_label_views()[1]);
    assert("Previous page"@ =~= prev_label_views()[2]);
    if r {
        assert(labels[0] == a@ || labels[1] == a@ || labels[2] == a@);
    } else {
        assert(labels[0] != a@ && labels[1] != a@ && labels[2] != a@);
    }
    r
}

/// The CSS selector of the radio button of a colour theme.
pub open spec fn spec_theme_selector(theme: Theme) -> Seq<char> {
    match theme {
        Theme::White => "#theme-White"@,
        Theme::Dark => "#theme-Dark"@,
        Theme::Sepia => "#theme-Sepia"@,
        Theme::Green => "#theme-Green"@,
    }
}

/// The CSS selector of the radio button of a colour theme; its id does not
/// depend on the display language.
pub fn theme_selector(theme: Theme) -> (s: &'static str)
    ensures
        s@ == spec_theme_selector(theme),
{
    match theme {
        Theme::White => "#theme-White",
        Theme::Dark => "#theme-Dark",
        Theme::Sepia => "#theme-Sepia",
        Theme::Green => "#theme-Green",
    }
}

/// How serde_json writes a character inside a JSON string: `"` and `\` escaped,
/// the control characters below U+0020 as `\b`, `\t`, `\n`, `\f`, `\r` or
/// `\u00XX` (lower-case hex), everything else as it is.
pub open spec fn json_escape_char(c: char) -> Seq<char> {
    if c == '"' {
        seq!['\\', '"']
    } else if c == '\\' {
        seq!['\\', '\\']
    } else if c == '\u{8}' {
        seq!['\\', 'b']
    } else if c == '\t' {
        seq!['\\', 't']
    } else if c == '\n' {
        seq!['\\', 'n']
    } else if c == '\u{c}' {
        seq!['\\', 'f']
    } else if c == '\r' {
        seq!['\\', 'r']
    } else if (c as u32) < 0x20 {
        seq!['\\', 'u', '0', '0', hex_digit((c as u32) / 16), hex_digit((c as u32) % 16)]
    } else {
        seq![c]
    }
}

/// A lower-case hexadecimal digit.
pub open spec fn hex_digit(d: u32) -> char {
    if d < 10 {
        ((d + 0x30) as u32) as char
    } else {
        ((d - 10 + 0x61) as u32) as char
    }
}

/// The characters of `s` as they stand inside a JSON string.
pub open spec fn json_escape(s: Seq<char>) -> Seq<char>
    decreases s.len(),
{
    if s.len() == 0 {
        Seq::empty()
    } else {
        json_escape(s.drop_last()) + json_escape_char(s.last())
    }
}

/// `s` as a JSON string literal.
pub open spec fn json_quoted(s: Seq<char>) -> Seq<char> {
    seq!['"'] + json_escape(s) + seq!['"']
}

/// `s` as a JSON string literal.
///
/// Trusted: calls `serde_json::Value::String(..).to_string()`, which serde_json
/// writes with its compact formatter: a quote, each character escaped by its
/// escape table (as [`json_escape_char`] states), a quote.
#[verifier::external_body]
fn json_string(s: &str) -> (r: String)
    ensures
        r@ == json_quoted(s@),
{
    serde_json::Value::String(s.to_owned()).to_string()
}

/// The text before the selector in [`center_of`].
pub open spec fn center_prefix() -> Seq<char> {
    "(() => { const e = document.querySelector("@
}

/// The text after the selector in [`center_of`].
pub open spec fn center_suffix() -> Seq<char> {
    "); if (!e) return 'null'; const r = e.getBoundingClientRect(); if (!r.width || !r.height) return 'null'; return JSON.stringify([r.x + r.width / 2, r.y + r.height / 2]); })()"@
}

/// An expression that gives the centre of the element that `selector` picks, or
/// `null` when there is none or it is not shown.
///
/// The selector is put in as a JSON string, so quotes and backslashes in it
/// cannot break the expression.
pub fn center_of(selector: &str) -> (s: String)
    ensures
        s@ == center_prefix() + json_quoted(selector@) + center_suffix(),
{
    let quoted = json_string(selector);
    join3(
        "(() => { const e = document.querySelector(",
        quoted.as_str(),
        "); if (!e) return 'null'; const r = e.getBoundingClientRect(); if (!r.width || !r.height) return 'null'; return JSON.stringify([r.x + r.width / 2, r.y + r.height / 2]); })()",
    )
}

/// Everything that can be observed, in one evaluation. `FONT` stands for the
/// font probe ([`FONT`]) and is replaced by it in [`observe`].
pub const OBSERVE: &'static str = r##"
(() => {
  const q = (s) => document.querySelector(s);
  const menu = q('ion-menu');

  // The footer holds other .text-div too (reading speed and the like), so only
  // the one with "number/number" counts.
  const label = [...document.querySelectorAll('.text-div')]
    .map((e) => (e.textContent || '').trim())
    .find((t) => /[0-9]+\s*\/\s*[0-9]+/.test(t)) || null;

  const img = q('.kg-full-page-img img') || q('#kr-renderer img');
  const image = img ? {
    source: img.currentSrc || img.src || null,
    naturalWidth: img.naturalWidth || 0,
    naturalHeight: img.naturalHeight || 0,
    complete: !!img.complete,
  } : null;

  const theme = (() => {
    const on = [...document.querySelectorAll('.theme-selector [role="radio"]')]
      .find((e) => e.getAttribute('aria-checked') === 'true');
    if (on) return on.getAttribute('value');
    // With the menu closed: the light theme's class is --default, not --white.
    const m = /kg-client-theme--([A-Za-z]+)/.exec((q('#kr-renderer') || {}).className || '');
    return m ? m[1] : null;
  })();

  // At the end the "next page" button leaves the DOM, at the start the
  // "previous page" one. A button merely away from the pointer stays with an
  // empty box, so the ends are told by presence.
  const chevrons = [...document.querySelectorAll('button')]
    .filter((b) => (b.id || '').startsWith('kr-chevron'))
    .map((b) => b.getAttribute('aria-label'));

  return JSON.stringify({
    label,
    image,
    settingsMenuOpen: !!menu && menu.classList.contains('show-menu'),
    font: FONT,
    theme,
    chevrons,
  });
})()
"##;

/// The current and largest font step. `value` can only be read as an attribute.
/// The position bar is an `ion-range` too and is left out.
pub const FONT: &'static str = r##"
(() => {
  const menu = document.querySelector('ion-menu');
  if (!menu) return null;
  const range = menu.querySelector('ion-range.font-size-slider')
    || [...menu.querySelectorAll('ion-range')].find((e) => e.id !== 'kr-scrubber-bar');
  if (!range) return null;
  const index = parseInt(range.getAttribute('value'), 10);
  const max = parseInt(range.getAttribute('max'), 10);
  return Number.isInteger(index) && Number.isInteger(max) ? { index, max } : null;
})()
"##;

/// An expression that reads only the font step (for polling while it is set).
pub fn font_only() -> (s: String)
    ensures
        s@ == "(() => JSON.stringify("@ + FONT@ + "))()"@,
{
    join3("(() => JSON.stringify(", FONT, "))()")
}

/// The observation expression: [`OBSERVE`] with every `FONT` replaced by the font probe.
pub fn observe() -> (s: String)
    ensures
        s@ == replace_all(OBSERVE@, "FONT"@, FONT@),
{
    let h = chars_of(OBSERVE);
    let n = chars_of("FONT");
    let r = chars_of(FONT);
    proof {
        reveal_strlit("FONT");
    }
    let out = replace_all_chars(&h, &n, &r);
    string_from_chars(&out)
}

/// Fetches the page image at its natural size as a PNG data URL. The blob is
/// same-origin, so the canvas is not tainted.
pub const CAPTURE: &'static str = r##"
(async () => {
  const img = document.querySelector('.kg-full-page-img img')
    || document.querySelector('#kr-renderer img');
  if (!img) return JSON.stringify({ error: 'ページ画像の <img> がありません' });
  if (!img.complete || !img.naturalWidth) {
    await new Promise((r) => { img.onload = r; setTimeout(r, 5000); });
  }
  if (!img.complete || !img.naturalWidth) {
    return JSON.stringify({ error: 'ページ画像が読み込み中のままです' });
  }
  const c = document.createElement('canvas');
  c.width = img.naturalWidth;
  c.height = img.naturalHeight;
  c.getContext('2d').drawImage(img, 0, 0);
  let dataUrl = null;
  try {
    dataUrl = c.toDataURL('image/png');
  } catch (e) {
    return JSON.stringify({ error: 'canvas が汚染されています: ' + String(e) });
  }
  return JSON.stringify({
    dataUrl,
    width: img.naturalWidth,
    height: img.naturalHeight,
    source: img.currentSrc || img.src || null,
  });
})()
"##;

/// The page-turn buttons, with presence and box. A present button may have an
/// empty box: only the one on the pointer's side is drawn.
pub const CHEVRONS: &'static str = r##"
(() => {
  const list = [...document.querySelectorAll('button')]
    .filter((b) => (b.id || '').startsWith('kr-chevron'))
    .map((b) => {
      const r = b.getBoundingClientRect();
      return { aria: b.getAttribute('aria-label'), x: r.x + r.width / 2, y: r.y + r.height / 2,
               visible: r.width > 0 && r.height > 0 };
    });
  return JSON.stringify({ list, viewport: [innerWidth, innerHeight] });
})()
"##;

/// The shown buttons that have an `aria-label`, with their centres, so that a
/// missing control can be reported with what was there instead.
pub const LABELLED_BUTTONS: &'static str = r##"
(() => JSON.stringify([...document.querySelectorAll('ion-button, button')]
  .map((b) => {
    const r = b.getBoundingClientRect();
    return { aria: b.getAttribute('aria-label'), x: r.x + r.width / 2, y: r.y + r.height / 2,
             visible: r.width > 0 && r.height > 0 };
  })
  .filter((b) => b.aria && b.visible)))()
"##;

/// What a theme name that the reader gives means. The radio buttons say
/// `White`, `Dark`, `Sepia` or `Green`; the renderer's class calls the light
/// theme `default`. Case does not matter.
pub open spec fn spec_parse_theme(name: Seq<char>) -> Option<Theme> {
    let l = name.map_values(|c: char| lower(c));
    if l == "white"@ || l == "default"@ {
        Some(Theme::White)
    } else if l == "dark"@ {
        Some(Theme::Dark)
    } else if l == "sepia"@ {
        Some(Theme::Sepia)
    } else if l == "green"@ {
        Some(Theme::Green)
    } else {
        None
    }
}

/// Reads a theme name that the reader gives.
pub fn parse_theme(name: &str) -> (t: Option<Theme>)
    ensures
        t == spec_parse_theme(name@),
{
    let c = chars_of(name);
    let mut l: Vec<char> = Vec::new();
    let mut i: usize = 0;
    while i < c.len()
        invariant
            i <= c@.len(),
            c@ == name@,
            l@ == c@.subrange(0, i as int).map_values(|c: char| lower(c)),
        decreases c.len() - i,
    {
        l.push(char_lower(c[i]));
        i = i + 1;
        assert(l@ =~= c@.subrange(0, i as int).map_values(|c: char| lower(c)));
    }
    assert(c@.subrange(0, c@.len() as int) =~= c@);
    let white = chars_of("white");
    let default = chars_of("default");
    let dark = chars_of("dark");
    let sepia = chars_of("sepia");
    let green = chars_of("green");
    if same_chars(&l, &white) || same_chars(&l, &default) {
        Some(Theme::White)
    } else if same_chars(&l, &dark) {
        Some(Theme::Dark)
    } else if same_chars(&l, &sepia) {
        Some(Theme::Sepia)
    } else if same_chars(&l, &green) {
        Some(Theme::Green)
    } else {
        None
    }
}

} // verus!
