//! The text of a document's messages, and the choice of the part of a stored
//! document that a follow-up selector asks for.
use vstd::prelude::*;
use crate::document::{
    Article, ArticleModel, CrateDocument, DocumentModel, ListingKind, SubDocument,
    SubDocumentModel, listing_heading, listing_key,
};
use crate::text::{chars_of, same_text};

verus! {

/// A note on a line of its own, in italics; nothing where there is no note.
pub open spec fn note_line(n: Option<Seq<char>>) -> Seq<char> {
    match n {
        Some(t) => "\n<i>"@ + t + "</i>"@,
        None => Seq::empty(),
    }
}

/// The deprecation mark.
pub open spec fn deprecated_mark(d: bool) -> Seq<char> {
    if d {
        "<b>Deprecated</b>"@
    } else {
        Seq::empty()
    }
}

/// The text of one entry of a listing.
pub open spec fn entry_text(e: SubDocumentModel) -> Seq<char> {
    "<code>"@ + e.name + "</code> "@ + deprecated_mark(e.deprecated) + note_line(e.portability_note)
        + note_line(e.stability_note) + match e.summary {
        Some(s) => "\n"@ + s,
        None => Seq::empty(),
    } + "\n"@
}

/// The text of a listing: its entries one after another.
pub open spec fn entries_text(es: Seq<SubDocumentModel>) -> Seq<char>
    decreases es.len(),
{
    if es.len() == 0 {
        Seq::empty()
    } else {
        entries_text(es.drop_last()) + entry_text(es.last())
    }
}

/// The text of a section's body.
pub open spec fn article_text(a: ArticleModel) -> Seq<char> {
    match a {
        ArticleModel::Text(t) => t,
        ArticleModel::SubDocuments(es) => entries_text(es),
    }
}

/// The lines that head every message about a document.
pub open spec fn header_text(d: DocumentModel) -> Seq<char> {
    d.title + " "@ + deprecated_mark(d.deprecated) + note_line(d.portability_note) + note_line(
        d.stability_note,
    ) + match d.definition {
        Some(x) => "\n"@ + x,
        None => Seq::empty(),
    }
}

/// The first message about a document: its header and description.
pub open spec fn document_text(d: DocumentModel) -> Seq<char> {
    header_text(d) + "\n\n"@ + d.description
}

/// The message that shows one part of a document.
pub open spec fn section_text(d: DocumentModel, heading: Seq<char>, body: Seq<char>) -> Seq<char> {
    header_text(d) + "\n\n<b>"@ + heading + "</b>\n"@ + body + "\n"@
}

fn push_note(out: &mut String, n: &Option<String>)
    ensures
        final(out)@ == old(out)@ + note_line(n.deep_view()),
{
    match n {
        Some(t) => {
            out.append("\n<i>");
            out.append(t.as_str());
            out.append("</i>");
        },
        None => {
            assert(old(out)@ + Seq::<char>::empty() == old(out)@);
        },
    }
}

fn push_deprecated(out: &mut String, d: bool)
    ensures
        final(out)@ == old(out)@ + deprecated_mark(d),
{
    if d {
        out.append("<b>Deprecated</b>");
    } else {
        assert(old(out)@ + Seq::<char>::empty() == old(out)@);
    }
}

fn push_entries(out: &mut String, es: &Vec<SubDocument>)
    ensures
        final(out)@ == old(out)@ + entries_text(es.deep_view()),
{
    let mut i: usize = 0;
    assert(es.deep_view().take(0) =~= Seq::empty());
    assert(old(out)@ + Seq::<char>::empty() == old(out)@);
    while i < es.len()
        invariant
            i <= es@.len(),
            out@ == old(out)@ + entries_text(es.deep_view().take(i as int)),
        decreases es@.len() - i,
    {
        let ghost before = out@;
        let e = &es[i];
        out.append("<code>");
        out.append(e.name.as_str());
        out.append("</code> ");
        push_deprecated(out, e.deprecated);
        push_note(out, &e.portability_note);
        push_note(out, &e.stability_note);
        let ghost mid = out@;
        match &e.summary {
            Some(s) => {
                out.append("\n");
                out.append(s.as_str());
            },
            None => {
                assert(mid + Seq::<char>::empty() == mid);
            },
        }
        out.append("\n");
        assert(es.deep_view().take(i as int + 1).drop_last() == es.deep_view().take(i as int));
        assert(es.deep_view()[i as int] == e.deep_view());
        assert(out@ == before + entry_text(e.deep_view()));
        i = i + 1;
    }
    assert(es.deep_view().take(es@.len() as int) == es.deep_view());
}

/// The text of a section's body: prose as it is, a listing as its entries.
pub fn article_to_text(item: &Article) -> (r: String)
    ensures
        r@ == article_text(item.deep_view()),
{
    match item {
        Article::Text(t) => t.clone(),
        Article::SubDocuments(es) => {
            let mut out = String::new();
            push_entries(&mut out, es);
            out
        },
    }
}

fn header(d: &CrateDocument) -> (r: String)
    ensures
        r@ == header_text(d.deep_view()),
{
    let mut out = d.title.clone();
    out.append(" ");
    push_deprecated(&mut out, d.deprecated);
    push_note(&mut out, &d.portability_note);
    push_note(&mut out, &d.stability_note);
    let ghost mid = out@;
    match &d.definition {
        Some(x) => {
            out.append("\n");
            out.append(x.as_str());
        },
        None => {
            assert(mid + Seq::<char>::empty() == mid);
        },
    }
    out
}

/// The first message about a document: its header, then its description.
pub fn render_document(d: &CrateDocument) -> (r: String)
    ensures
        r@ == document_text(d.deep_view()),
{
    let mut out = header(d);
    out.append("\n\n");
    out.append(d.description.as_str());
    out
}

/// A part of a stored document that a follow-up asks for.
#[derive(Clone, Copy, Debug, PartialEq, Eq, Structural)]
pub enum Selection {
    /// A headed section, by its index.
    Section(usize),
    /// A promoted listing, by its index among the document's listings.
    Listing(usize),
}

/// Whether `s` is a decimal number.
pub open spec fn is_index(s: Seq<char>) -> bool {
    s.len() > 0 && forall|i: int| 0 <= i < s.len() ==> '0' <= #[trigger] s[i] <= '9'
}

/// The value of a decimal number.
pub open spec fn index_value(s: Seq<char>) -> nat
    decreases s.len(),
{
    if s.len() == 0 {
        0
    } else {
        index_value(s.drop_last()) * 10 + (s.last() as nat - '0' as nat) as nat
    }
}

/// The index of the first listing of `ls` whose key is `key`, from `i` on.
pub open spec fn listing_index(ls: Seq<(ListingKind, Seq<SubDocumentModel>)>, key: Seq<char>, i: int) -> Option<int>
    decreases ls.len() - i,
{
    if i < 0 || i >= ls.len() {
        None
    } else if listing_key(ls[i].0) == key {
        Some(i)
    } else {
        listing_index(ls, key, i + 1)
    }
}

/// What a follow-up selector picks in a document: a decimal index picks a
/// headed section; a listing's key picks that listing; anything else picks
/// nothing.
pub open spec fn selection_of(d: DocumentModel, selector: Seq<char>) -> Option<Selection> {
    if is_index(selector) && index_value(selector) < d.sections.len() {
        Some(Selection::Section(index_value(selector) as usize))
    } else if !is_index(selector) && listing_index(d.listings, selector, 0) is Some {
        Some(Selection::Listing(listing_index(d.listings, selector, 0).unwrap() as usize))
    } else {
        None
    }
}

proof fn lemma_index_grows(s: Seq<char>, i: int)
    requires
        0 <= i <= s.len(),
        forall|j: int| 0 <= j < s.len() ==> '0' <= #[trigger] s[j] <= '9',
    ensures
        index_value(s.take(i)) <= index_value(s),
    decreases s.len() - i,
{
    if i < s.len() {
        lemma_index_grows(s, i + 1);
        assert(s.take(i + 1).drop_last() == s.take(i));
    } else {
        assert(s.take(i) == s);
    }
}

/// The section index that `s` names, if it is a decimal number below `bound`.
fn parse_index(s: &str, bound: usize) -> (r: Option<usize>)
    ensures
        r is Some <==> is_index(s@) && index_value(s@) < bound,
        r matches Some(v) ==> v == index_value(s@),
{
    let cs = chars_of(s);
    if cs.len() == 0 {
        return None;
    }
    let mut acc: u128 = 0;
    let mut i: usize = 0;
    while i < cs.len()
        invariant
            i <= cs@.len(),
            cs@ == s@,
            forall|j: int| 0 <= j < i ==> '0' <= #[trigger] cs@[j] <= '9',
            acc == index_value(cs@.take(i as int)),
            acc <= bound,
        decreases cs@.len() - i,
    {
        let c = cs[i];
        if c < '0' || c > '9' {
            return None;
        }
        let d = (c as u32 - '0' as u32) as u128;
        assert(cs@.take(i as int + 1).drop_last() == cs@.take(i as int));
        acc = acc * 10 + d;
        i = i + 1;
        if acc > bound as u128 {
            proof {
                if is_index(cs@) {
                    lemma_index_grows(cs@, i as int);
                }
            }
            return None;
        }
    }
    assert(cs@.take(cs@.len() as int) == cs@);
    if acc < bound as u128 {
        Some(acc as usize)
    } else {
        None
    }
}

fn is_decimal(s: &str) -> (r: bool)
    ensures
        r == is_index(s@),
{
    let cs = chars_of(s);
    let mut i: usize = 0;
    while i < cs.len()
        invariant
            i <= cs@.len(),
            cs@ == s@,
            forall|j: int| 0 <= j < i ==> '0' <= #[trigger] cs@[j] <= '9',
        decreases cs@.len() - i,
    {
        if cs[i] < '0' || cs[i] > '9' {
            return false;
        }
        i = i + 1;
    }
    cs.len() > 0
}

/// The part of a stored document that a follow-up selector picks, if any.
pub fn select_part(d: &CrateDocument, selector: &str) -> (r: Option<Selection>)
    ensures
        r == selection_of(d.deep_view(), selector@),
{
    if is_decimal(selector) {
        return match parse_index(selector, d.sections.len()) {
            Some(v) => Some(Selection::Section(v)),
            None => None,
        };
    }
    let ghost ls = d.deep_view().listings;
    let mut i: usize = 0;
    while i < d.listings.len()
        invariant
            i <= d.listings@.len(),
            ls == d.listings.deep_view(),
            !is_index(selector@),
            listing_index(ls, selector@, 0) == listing_index(ls, selector@, i as int),
        decreases d.listings@.len() - i,
    {
        let key = d.listings[i].kind.key();
        assert(ls[i as int].0 == d.listings[i as int].kind);
        if same_text(key.as_str(), selector) {
            return Some(Selection::Listing(i));
        }
        i = i + 1;
    }
    None
}

/// The message that shows the part of a stored document that a follow-up
/// selector picks; `None` where it picks nothing, so that the message stays
/// as it is.
pub fn render_selection(d: &CrateDocument, selector: &str) -> (r: Option<String>)
    ensures
        r.deep_view() == match selection_of(d.deep_view(), selector@) {
            None => None,
            Some(Selection::Section(i)) => Some(
                section_text(
                    d.deep_view(),
                    d.deep_view().sections[i as int].0,
                    article_text(d.deep_view().sections[i as int].1),
                ),
            ),
            Some(Selection::Listing(i)) => Some(
                section_text(
                    d.deep_view(),
                    listing_heading(d.deep_view().listings[i as int].0),
                    entries_text(d.deep_view().listings[i as int].1),
                ),
            ),
        },
{
    let (heading, body) = match select_part(d, selector) {
        None => {
            return None;
        },
        Some(Selection::Section(i)) => {
            assert(d.sections.deep_view()[i as int] == (d.sections[i as int].0@, d.sections[i as int].1.deep_view()));
            (d.sections[i].0.clone(), article_to_text(&d.sections[i].1))
        },
        Some(Selection::Listing(i)) => {
            proof {
                lemma_listing_index_bound(d.deep_view().listings, selector@, 0);
            }
            assert(d.listings.deep_view()[i as int] == d.listings[i as int].deep_view());
            let mut body = String::new();
            push_entries(&mut body, &d.listings[i].entries);
            assert(Seq::<char>::empty() + entries_text(d.listings[i as int].entries.deep_view())
                == entries_text(d.listings[i as int].entries.deep_view()));
            (d.listings[i].kind.heading(), body)
        },
    };
    let mut out = header(d);
    out.append("\n\n<b>");
    out.append(heading.as_str());
    out.append("</b>\n");
    out.append(body.as_str());
    out.append("\n");
    Some(out)
}

proof fn lemma_listing_index_bound(ls: Seq<(ListingKind, Seq<SubDocumentModel>)>, key: Seq<char>, i: int)
    ensures
        listing_index(ls, key, i) matches Some(k) ==> i <= k < ls.len(),
    decreases ls.len() - i,
{
    if 0 <= i < ls.len() && listing_key(ls[i].0) != key {
        lemma_listing_index_bound(ls, key, i + 1);
    }
}

/// The selector `methods` picks a document's promoted listing of methods,
/// where that listing comes first (as on a struct's page), whatever the
/// headed sections are called.
pub proof fn lemma_methods_picks_listing(d: DocumentModel)
    requires
        d.listings.len() > 0,
        d.listings[0].0 == ListingKind::Methods,
    ensures
        selection_of(d, "methods"@) == Some(Selection::Listing(0)),
{
    reveal_strlit("methods");
    assert(!('0' <= "methods"@[0] <= '9'));
}

} // verus!
