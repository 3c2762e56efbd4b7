//! The identifier of a book, and what it takes to process one.
use vstd::prelude::*;
use vstd::string::*;
use crate::display::{spec_balanced, DisplayTarget};
use crate::text::{
    char_is_alnum, char_upper, chars_of, decimal, decimal_string, is_alnum, join2, join3,
    string_from_chars, upper,
};

verus! {

/// A character that may stand in a checked identifier: an ASCII digit or upper-case letter.
pub open spec fn is_id_char(c: char) -> bool {
    ('0' <= c && c <= '9') || ('A' <= c && c <= 'Z')
}

/// The length of every identifier.
pub open spec fn asin_len() -> nat {
    10
}

/// Amazon's identifier of a book.
///
/// It is checked when it is made, so holding one shows that the string is safe to
/// put in a URL: ten ASCII digits or upper-case letters.
#[derive(Debug, PartialEq, Eq, Hash)]
pub struct Asin(String);

/// Why an [`Asin`] could not be made.
#[derive(Debug, Clone, Copy, PartialEq, Eq, Structural)]
pub enum AsinError {
    /// The string was empty.
    Empty,
    /// It held a character that is not an ASCII letter or digit.
    NotAlphanumeric,
    /// It did not have ten characters; the value is its length.
    BadLength(usize),
}

/// What [`Asin::new`] makes of a string.
pub open spec fn spec_asin_check(s: Seq<char>) -> Result<Seq<char>, AsinError> {
    if s.len() == 0 {
        Err(AsinError::Empty)
    } else if !(forall|i: int| 0 <= i < s.len() ==> #[trigger] is_alnum(s[i])) {
        Err(AsinError::NotAlphanumeric)
    } else if s.len() != asin_len() {
        Err(AsinError::BadLength(s.len() as usize))
    } else {
        Ok(s.map_values(|c: char| upper(c)))
    }
}

/// The start of every reader URL.
pub open spec fn reader_url_prefix() -> Seq<char> {
    "https://read.amazon.co.jp/?asin="@
}

impl Asin {
    /// Ten ASCII digits or upper-case letters.
    #[verifier::type_invariant]
    spec fn well_formed(self) -> bool {
        &&& self.0@.len() == asin_len()
        &&& forall|i: int| 0 <= i < self.0@.len() ==> #[trigger] is_id_char(self.0@[i])
    }

    /// The characters of the identifier.
    pub closed spec fn chars(self) -> Seq<char> {
        self.0@
    }

    /// Checks a string and makes an identifier of it: only ten ASCII letters or
    /// digits are accepted, and letters are made upper case.
    pub fn new(s: &str) -> (r: Result<Asin, AsinError>)
        ensures
            match spec_asin_check(s@) {
                Ok(chars) => r matches Ok(a) && a.chars() == chars && chars.len() == asin_len()
                    && forall|i: int| 0 <= i < chars.len() ==> #[trigger] is_id_char(chars[i]),
                Err(e) => r == Err::<Asin, AsinError>(e),
            },
    {
        let t = chars_of(s);
        if t.len() == 0 {
            return Err(AsinError::Empty);
        }
        let mut up: Vec<char> = Vec::new();
        let mut i: usize = 0;
        while i < t.len()
            invariant
                i <= t@.len(),
                t@ == s@,
                forall|k: int| 0 <= k < i ==> #[trigger] is_alnum(t@[k]),
                up@ == t@.subrange(0, i as int).map_values(|c: char| upper(c)),
            decreases t.len() - i,
        {
            let c = t[i];
            if !char_is_alnum(c) {
                return Err(AsinError::NotAlphanumeric);
            }
            up.push(char_upper(c));
            i = i + 1;
            assert(up@ =~= t@.subrange(0, i as int).map_values(|c: char| upper(c)));
        }
        if t.len() != 10 {
            return Err(AsinError::BadLength(t.len()));
        }
        assert(t@.subrange(0, t@.len() as int) =~= t@);
        let text = string_from_chars(&up);
        proof {
            assert forall|k: int| 0 <= k < text@.len() implies #[trigger] is_id_char(text@[k]) by {
                assert(is_alnum(t@[k]));
                assert(text@[k] == upper(t@[k]));
            }
        }
        Ok(Asin(text))
    }

    /// The identifier as a string.
    ///
    /// Every identifier is ten ASCII digits or upper-case letters, so nothing in
    /// it can change the meaning of a URL it is put in.
    ///
    /// Checked again, the text gives the same identifier: an identifier read
    /// back from a file is the one written.
    pub fn as_str(&self) -> (s: &str)
        ensures
            s@ == self.chars(),
            s@.len() == asin_len(),
            forall|i: int| 0 <= i < s@.len() ==> #[trigger] is_id_char(s@[i]),
            spec_asin_check(s@) == Ok::<Seq<char>, AsinError>(s@),
    {
        proof {
            use_type_invariant(self);
            lemma_checked_text_checks_again(self.0@);
        }
        self.0.as_str()
    }

    /// The cloud reader URL that opens this book.
    pub fn reader_url(&self) -> (url: String)
        ensures
            url@ == reader_url_prefix() + self.chars(),
    {
        join2("https://read.amazon.co.jp/?asin=", self.0.as_str())
    }
}

/// The text of a checked identifier passes the check unchanged.
proof fn lemma_checked_text_checks_again(t: Seq<char>)
    requires
        t.len() == asin_len(),
        forall|i: int| 0 <= i < t.len() ==> #[trigger] is_id_char(t[i]),
    ensures
        spec_asin_check(t) == Ok::<Seq<char>, AsinError>(t),
{
    assert forall|i: int| 0 <= i < t.len() implies #[trigger] is_alnum(t[i]) by {
        assert(is_id_char(t[i]));
    }
    assert(t.map_values(|c: char| upper(c)) =~= t) by {
        assert forall|i: int| 0 <= i < t.len() implies #[trigger] upper(t[i]) == t[i] by {
            assert(is_id_char(t[i]));
        }
    }
}

impl Clone for Asin {
    fn clone(&self) -> (r: Asin)
        ensures
            r == *self,
    {
        proof {
            use_type_invariant(self);
        }
        Asin(self.0.clone())
    }
}

impl AsinError {
    /// The message that explains the error.
    pub fn message(&self) -> (s: String)
        ensures
            s@ == match self {
                AsinError::Empty => "ASIN が空です"@,
                AsinError::NotAlphanumeric => "ASIN に英数字以外が含まれています"@,
                AsinError::BadLength(n) => "ASIN は 10 文字である必要があります（"@ + decimal(
                    *n as nat,
                ) + " 文字）"@,
            },
    {
        match self {
            AsinError::Empty => String::from_str("ASIN が空です"),
            AsinError::NotAlphanumeric => String::from_str("ASIN に英数字以外が含まれています"),
            AsinError::BadLength(n) => {
                let digits = decimal_string(*n as u64);
                join3("ASIN は 10 文字である必要があります（", digits.as_str(), " 文字）")
            },
        }
    }
}

/// What it takes to process one book; kept beside its event log.
#[derive(Debug, PartialEq)]
pub struct BookSpec {
    /// The book.
    pub asin: Asin,
    /// The name used for output files and the layout of the artifacts.
    pub title: String,
    /// The display settings for capturing.
    pub display: DisplayTarget,
}

impl Clone for BookSpec {
    fn clone(&self) -> (r: BookSpec)
        ensures
            r == *self,
    {
        BookSpec { asin: self.asin.clone(), title: self.title.clone(), display: self.display }
    }
}

impl BookSpec {
    /// A book with the default display settings.
    pub fn new(asin: Asin, title: &str) -> (b: BookSpec)
        ensures
            b.asin == asin,
            b.title@ == title@,
            b.display == spec_balanced(),
    {
        BookSpec { asin, title: String::from_str(title), display: DisplayTarget::balanced() }
    }
}

} // verus!
