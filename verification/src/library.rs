//! Which books a library holds.
//!
//! A book is registered by a directory that is named by its identifier and holds
//! its spec. Reading the directory is left to the caller; what is decided here is
//! which of its entries are books and in which order they are listed.
use vstd::prelude::*;
use crate::book::{spec_asin_check, Asin};
use crate::text::chars_of;

verus! {

/// Text order: character by character, by code point, a prefix first. It is the
/// order of `str`, since UTF-8 keeps the order of code points.
pub open spec fn text_le(a: Seq<char>, b: Seq<char>) -> bool
    decreases a.len(),
{
    if a.len() == 0 {
        true
    } else if b.len() == 0 {
        false
    } else if a[0] != b[0] {
        (a[0] as u32) < (b[0] as u32)
    } else {
        text_le(a.drop_first(), b.drop_first())
    }
}

/// Of two texts, one comes first.
pub proof fn lemma_text_le_total(a: Seq<char>, b: Seq<char>)
    ensures
        text_le(a, b) || text_le(b, a),
    decreases a.len(),
{
    if a.len() > 0 && b.len() > 0 {
        if a[0] == b[0] {
            lemma_text_le_total(a.drop_first(), b.drop_first());
        } else {
            // Distinct characters have distinct code points.
            vstd::utf8::char_u32_cast(a[0], a[0] as u32);
            vstd::utf8::char_u32_cast(b[0], b[0] as u32);
        }
    }
}

/// Text order is transitive.
pub proof fn lemma_text_le_transitive(a: Seq<char>, b: Seq<char>, c: Seq<char>)
    requires
        text_le(a, b),
        text_le(b, c),
    ensures
        text_le(a, c),
    decreases a.len(),
{
    if a.len() > 0 && b.len() > 0 && c.len() > 0 && a[0] == b[0] && b[0] == c[0] {
        lemma_text_le_transitive(a.drop_first(), b.drop_first(), c.drop_first());
    }
}

/// Whether `a` comes no later than `b` in text order.
pub fn text_le_exec(a: &str, b: &str) -> (r: bool)
    ensures
        r == text_le(a@, b@),
{
    let x = chars_of(a);
    let y = chars_of(b);
    let mut i: usize = 0;
    assert(a@.skip(0) =~= a@ && b@.skip(0) =~= b@);
    while i < x.len() && i < y.len()
        invariant
            x@ == a@,
            y@ == b@,
            i <= x@.len(),
            i <= y@.len(),
            text_le(a@, b@) == text_le(a@.skip(i as int), b@.skip(i as int)),
        decreases x.len() - i,
    {
        let p = x[i];
        let q = y[i];
        assert(a@.skip(i as int)[0] == p && b@.skip(i as int)[0] == q);
        if p != q {
            return (p as u32) < (q as u32);
        }
        assert(a@.skip(i as int).drop_first() =~= a@.skip(i + 1));
        assert(b@.skip(i as int).drop_first() =~= b@.skip(i + 1));
        i = i + 1;
    }
    i == x.len()
}

/// The identifiers of the books among `entries`, in the order of the entries:
/// each entry is a name and whether it holds a book spec, and a book is an entry
/// with a spec whose name passes as an identifier.
pub open spec fn registered(entries: Seq<(String, bool)>) -> Seq<Seq<char>>
    decreases entries.len(),
{
    if entries.len() == 0 {
        Seq::empty()
    } else {
        let rest = registered(entries.drop_last());
        let (name, has_spec) = entries.last();
        match spec_asin_check(name@) {
            Ok(id) => if has_spec {
                rest.push(id)
            } else {
                rest
            },
            Err(_) => rest,
        }
    }
}

/// Whether `ids` is in text order.
pub open spec fn in_text_order(ids: Seq<Seq<char>>) -> bool {
    forall|i: int, j: int| 0 <= i < j < ids.len() ==> text_le(#[trigger] ids[i], #[trigger] ids[j])
}

/// The identifiers of some books.
pub open spec fn ids_of(books: Seq<Asin>) -> Seq<Seq<char>> {
    books.map_values(|a: Asin| a.chars())
}

/// Puts `book` into `books`, which are in text order, before the first one that
/// comes after it.
fn insert_in_order(books: &mut Vec<Asin>, book: Asin)
    requires
        in_text_order(ids_of(old(books)@)),
    ensures
        in_text_order(ids_of(final(books)@)),
        ids_of(final(books)@).to_multiset() == ids_of(old(books)@).to_multiset().insert(
            book.chars(),
        ),
{
    let ghost before = ids_of(books@);
    let mut p: usize = 0;
    while p < books.len()
        invariant
            p <= books@.len(),
            ids_of(books@) == before,
            forall|k: int| 0 <= k < p ==> text_le(#[trigger] before[k], book.chars()),
        ensures
            p <= before.len(),
            forall|k: int| 0 <= k < p ==> text_le(#[trigger] before[k], book.chars()),
            p < before.len() ==> !text_le(before[p as int], book.chars()),
        decreases books.len() - p,
    {
        let here = books[p].as_str();
        assert(before[p as int] == books@[p as int].chars());
        if !text_le_exec(here, book.as_str()) {
            break;
        }
        p = p + 1;
    }
    let ghost x = book.chars();
    proof {
        // Everything from `p` on comes after the new book.
        if p < before.len() {
            assert(!text_le(before[p as int], x));
            lemma_text_le_total(before[p as int], x);
            assert forall|k: int| p <= k < before.len() implies text_le(x, #[trigger] before[k]) by {
                if k > p {
                    lemma_text_le_transitive(x, before[p as int], before[k]);
                }
            }
        }
    }
    books.insert(p, book);
    let ghost after = ids_of(books@);
    proof {
        assert(after =~= before.insert(p as int, x));
        assert forall|i: int, j: int| 0 <= i < j < after.len() implies text_le(
            #[trigger] after[i],
            #[trigger] after[j],
        ) by {
            if j < p {
            } else if j == p {
            } else if i < p {
                assert(after[j] == before[j - 1]);
                lemma_text_le_transitive(after[i], x, after[j]);
            } else if i == p {
                assert(after[j] == before[j - 1]);
            } else {
                assert(after[i] == before[i - 1] && after[j] == before[j - 1]);
            }
        }
        vstd::seq_lib::to_multiset_insert(before, p as int, x);
        assert(after.to_multiset() == before.to_multiset().insert(x));
    }
}

/// The registered books among the entries of a library's directory, each given
/// by its name and whether it holds a book spec: the entries with a spec whose
/// name passes as an identifier, listed by their identifiers in text order.
pub fn registered_books(entries: &Vec<(String, bool)>) -> (books: Vec<Asin>)
    ensures
        in_text_order(ids_of(books@)),
        ids_of(books@).to_multiset() == registered(entries@).to_multiset(),
{
    let mut books: Vec<Asin> = Vec::new();
    let mut i: usize = 0;
    assert(ids_of(books@) =~= Seq::empty());
    assert(entries@.subrange(0, 0) =~= Seq::empty());
    while i < entries.len()
        invariant
            i <= entries@.len(),
            in_text_order(ids_of(books@)),
            ids_of(books@).to_multiset() == registered(entries@.subrange(0, i as int)).to_multiset(),
        decreases entries.len() - i,
    {
        let ghost seen = entries@.subrange(0, i + 1);
        assert(seen.drop_last() =~= entries@.subrange(0, i as int));
        assert(seen.last() == entries@[i as int]);
        let (name, has_spec) = &entries[i];
        if *has_spec {
            match Asin::new(name.as_str()) {
                Ok(book) => {
                    insert_in_order(&mut books, book);
                    proof {
                        registered(entries@.subrange(0, i as int)).to_multiset_ensures();
                    }
                },
                Err(_) => {},
            }
        }
        i = i + 1;
    }
    assert(entries@.subrange(0, entries@.len() as int) =~= entries@);
    books
}

} // verus!
