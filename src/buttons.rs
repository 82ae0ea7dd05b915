//! The buttons under a document's first message, and the proof that each of
//! them picks the part it stands for.
use vstd::prelude::*;
use crate::document::{CrateDocument, DocumentModel, ListingKind, SubDocumentModel, listing_heading, listing_key};
use crate::render::{Selection, index_value, is_index, listing_index, selection_of};
use crate::text::{decimal, decimal_text, digit_char};

verus! {

/// The label and the selector of a document's `i`-th button: one for each
/// headed section, whose selector is its index, then one for each listing,
/// whose selector is its key.
pub open spec fn button_of(d: DocumentModel, i: int) -> (Seq<char>, Seq<char>) {
    if i < d.sections.len() {
        (d.sections[i].0, decimal(i as nat))
    } else {
        let k = d.listings[i - d.sections.len()].0;
        (listing_heading(k), listing_key(k))
    }
}

/// The buttons under a document's first message, as (label, selector).
pub fn buttons(d: &CrateDocument) -> (r: Vec<(String, String)>)
    ensures
        r.deep_view() == Seq::new(
            (d.sections@.len() + d.listings@.len()) as nat,
            |i: int| button_of(d.deep_view(), i),
        ),
{
    let ghost dm = d.deep_view();
    let ghost n = d.sections@.len();
    let mut r: Vec<(String, String)> = Vec::new();
    let mut i: usize = 0;
    while i < d.sections.len()
        invariant
            i <= d.sections@.len(),
            n == d.sections@.len(),
            dm == d.deep_view(),
            r.deep_view() == Seq::new(i as nat, |j: int| button_of(dm, j)),
        decreases d.sections@.len() - i,
    {
        let label = d.sections[i].0.clone();
        let data = decimal_text(i);
        assert(dm.sections[i as int].0 == d.sections[i as int].0@);
        let ghost before = r.deep_view();
        r.push((label, data));
        assert(r.deep_view() =~= Seq::new(i as nat + 1, |j: int| button_of(dm, j))) by {
            assert(r.deep_view() == before.push((label@, data@)));
        }
        i = i + 1;
    }
    let mut k: usize = 0;
    while k < d.listings.len()
        invariant
            k <= d.listings@.len(),
            n == d.sections@.len(),
            dm == d.deep_view(),
            r.deep_view() == Seq::new((n + k) as nat, |j: int| button_of(dm, j)),
        decreases d.listings@.len() - k,
    {
        let kind = d.listings[k].kind;
        assert(dm.listings[k as int].0 == kind);
        let ghost before = r.deep_view();
        r.push((kind.heading(), kind.key()));
        assert(r.deep_view() =~= Seq::new((n + k + 1) as nat, |j: int| button_of(dm, j))) by {
            assert(r.deep_view() == before.push((listing_heading(kind), listing_key(kind))));
            assert(button_of(dm, n + k) == (listing_heading(kind), listing_key(kind)));
        }
        k = k + 1;
    }
    r
}

proof fn lemma_decimal_reads_back(n: nat)
    ensures
        is_index(decimal(n)),
        index_value(decimal(n)) == n,
    decreases n,
{
    let d = n % 10;
    assert(digit_char(d) as nat - '0' as nat == d && '0' <= digit_char(d) <= '9') by {
        if d == 0 {} else if d == 1 {} else if d == 2 {} else if d == 3 {} else if d == 4 {}
        else if d == 5 {} else if d == 6 {} else if d == 7 {} else if d == 8 {} else {}
    }
    if n >= 10 {
        lemma_decimal_reads_back(n / 10);
        let s = decimal(n / 10).push(digit_char(d));
        assert(s == decimal(n));
        assert(s.drop_last() == decimal(n / 10));
        assert(s.last() == digit_char(d));
        assert(index_value(s) == index_value(decimal(n / 10)) * 10 + d);
        assert((n / 10) * 10 + n % 10 == n);
        assert forall|i: int| 0 <= i < s.len() implies '0' <= #[trigger] s[i] <= '9' by {
            if i < s.len() - 1 {
                assert(s[i] == decimal(n / 10)[i]);
            }
        }
    } else {
        assert(decimal(n).drop_last() =~= Seq::<char>::empty());
        assert(n % 10 == n);
        assert(index_value(decimal(n)) == index_value(Seq::<char>::empty()) * 10 + d);
    }
}

proof fn lemma_key_not_index(k: ListingKind)
    ensures
        !is_index(listing_key(k)),
{
    reveal_strlit("modules");
    reveal_strlit("structs");
    reveal_strlit("traits");
    reveal_strlit("enums");
    reveal_strlit("macros");
    reveal_strlit("functions");
    reveal_strlit("attributes");
    reveal_strlit("constants");
    reveal_strlit("methods");
    reveal_strlit("implementations");
    reveal_strlit("required_methods");
    reveal_strlit("provided_methods");
    reveal_strlit("foreign_implementations");
    reveal_strlit("implementors");
    let s = listing_key(k);
    assert(!('0' <= s[0] <= '9'));
}

/// The kind whose key has this length and these first two characters.
spec fn kind_of_signature(len: nat, c0: char, c1: char) -> ListingKind {
    if len == 7 && c0 == 'm' && c1 == 'o' {
        ListingKind::Modules
    } else if len == 7 && c0 == 's' && c1 == 't' {
        ListingKind::Structs
    } else if len == 6 && c0 == 't' && c1 == 'r' {
        ListingKind::Traits
    } else if len == 5 && c0 == 'e' && c1 == 'n' {
        ListingKind::Enums
    } else if len == 6 && c0 == 'm' && c1 == 'a' {
        ListingKind::Macros
    } else if len == 9 && c0 == 'f' && c1 == 'u' {
        ListingKind::Functions
    } else if len == 10 && c0 == 'a' && c1 == 't' {
        ListingKind::Attributes
    } else if len == 9 && c0 == 'c' && c1 == 'o' {
        ListingKind::Constants
    } else if len == 7 && c0 == 'm' && c1 == 'e' {
        ListingKind::Methods
    } else if len == 15 && c0 == 'i' && c1 == 'm' {
        ListingKind::TraitImplementations
    } else if len == 16 && c0 == 'r' && c1 == 'e' {
        ListingKind::RequiredMethods
    } else if len == 16 && c0 == 'p' && c1 == 'r' {
        ListingKind::ProvidedMethods
    } else if len == 23 && c0 == 'f' && c1 == 'o' {
        ListingKind::ForeignImplementations
    } else {
        ListingKind::Implementors
    }
}

proof fn lemma_key_signature(k: ListingKind)
    ensures
        kind_of_signature(listing_key(k).len(), listing_key(k)[0], listing_key(k)[1]) == k,
{
    match k {
        ListingKind::Modules => {
            reveal_strlit("modules");
        },
        ListingKind::Structs => {
            reveal_strlit("structs");
        },
        ListingKind::Traits => {
            reveal_strlit("traits");
        },
        ListingKind::Enums => {
            reveal_strlit("enums");
        },
        ListingKind::Macros => {
            reveal_strlit("macros");
        },
        ListingKind::Functions => {
            reveal_strlit("functions");
        },
        ListingKind::Attributes => {
            reveal_strlit("attributes");
        },
        ListingKind::Constants => {
            reveal_strlit("constants");
        },
        ListingKind::Methods => {
            reveal_strlit("methods");
        },
        ListingKind::TraitImplementations => {
            reveal_strlit("implementations");
        },
        ListingKind::RequiredMethods => {
            reveal_strlit("required_methods");
        },
        ListingKind::ProvidedMethods => {
            reveal_strlit("provided_methods");
        },
        ListingKind::ForeignImplementations => {
            reveal_strlit("foreign_implementations");
        },
        ListingKind::Implementors => {
            reveal_strlit("implementors");
        },
    }
}

proof fn lemma_listing_key_injective(k1: ListingKind, k2: ListingKind)
    requires
        listing_key(k1) == listing_key(k2),
    ensures
        k1 == k2,
{
    lemma_key_signature(k1);
    lemma_key_signature(k2);
}

proof fn lemma_listing_index_finds(ls: Seq<(ListingKind, Seq<SubDocumentModel>)>, i: int, j: int)
    requires
        0 <= i <= j < ls.len(),
        forall|a: int, b: int| 0 <= a < b < ls.len() ==> ls[a].0 != ls[b].0,
    ensures
        listing_index(ls, listing_key(ls[j].0), i) == Some(j),
    decreases j - i,
{
    if i < j {
        if listing_key(ls[i].0) == listing_key(ls[j].0) {
            lemma_listing_key_injective(ls[i].0, ls[j].0);
        }
        lemma_listing_index_finds(ls, i + 1, j);
    }
}

/// Each button under a document's first message picks, when pressed, the
/// part it stands for: its headed section, or its listing, where no two
/// listings are of the same kind (as extraction makes them).
pub proof fn lemma_buttons_pick_their_parts(d: DocumentModel, i: int)
    requires
        0 <= i < d.sections.len() + d.listings.len(),
        forall|a: int, b: int| 0 <= a < b < d.listings.len() ==> d.listings[a].0 != d.listings[b].0,
    ensures
        selection_of(d, button_of(d, i).1) == if i < d.sections.len() {
            Some(Selection::Section(i as usize))
        } else {
            Some(Selection::Listing((i - d.sections.len()) as usize))
        },
{
    if i < d.sections.len() {
        lemma_decimal_reads_back(i as nat);
    } else {
        let j = i - d.sections.len();
        lemma_key_not_index(d.listings[j].0);
        lemma_listing_index_finds(d.listings, 0, j);
    }
}

} // verus!
