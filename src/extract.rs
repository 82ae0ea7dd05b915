//! Extraction of a documentation page into a [`CrateDocument`], per shape.
use vstd::prelude::*;
use crate::candidate::{CrateStructure, StructureType};
use crate::document::{CrateDocument, DocumentModel, Listing, ListingKind, SubDocument, SubDocumentModel};
use crate::page::{
    Element, ElementModel, Page, selected, selected_children, selected_following, selected_within,
};
use crate::sections::{
    code_block, code_node_text, description_of, element_text, reflowed, sections_of, split_sections,
    text_of,
};
use crate::text::same_text;

verus! {

/// The text of the first of `found`, if there is one.
pub open spec fn first_text(found: Seq<ElementModel>) -> Option<Seq<char>> {
    if found.len() > 0 {
        Some(text_of(found[0]))
    } else {
        None
    }
}

/// The text of the first match of a page query, if there is one.
pub open spec fn first_found_text(found: Option<Seq<ElementModel>>) -> Option<Seq<char>> {
    match found {
        Some(v) => first_text(v),
        None => None,
    }
}

/// Whether a page query found anything.
pub open spec fn found_any(found: Option<Seq<ElementModel>>) -> bool {
    match found {
        Some(v) => v.len() > 0,
        None => false,
    }
}

/// The first of `found` as a definition's code block, if there is one.
pub open spec fn first_definition(found: Seq<ElementModel>) -> Option<Seq<char>> {
    if found.len() > 0 {
        Some(code_block(reflowed(found[0].pieces)))
    } else {
        None
    }
}

/// What a nested query found below the `i`-th outer match; nothing where
/// there is no such match.
pub open spec fn nth_or_empty(found: Option<Seq<Seq<ElementModel>>>, i: int) -> Seq<ElementModel> {
    match found {
        Some(v) => if 0 <= i < v.len() {
            v[i]
        } else {
            Seq::empty()
        },
        None => Seq::empty(),
    }
}

/// Whether a listing is one of the tables of a module's index.
pub open spec fn is_module_listing(kind: ListingKind) -> bool {
    match kind {
        ListingKind::Modules | ListingKind::Structs | ListingKind::Traits | ListingKind::Enums
        | ListingKind::Macros | ListingKind::Functions | ListingKind::Attributes
        | ListingKind::Constants => true,
        _ => false,
    }
}

/// Where the rows of a listing stand on its page.
pub open spec fn listing_selector(kind: ListingKind) -> Seq<char> {
    match kind {
        ListingKind::Modules => "#modules + table tr"@,
        ListingKind::Structs => "#structs + table tr"@,
        ListingKind::Traits => "#traits + table tr"@,
        ListingKind::Enums => "#enums + table tr"@,
        ListingKind::Macros => "#macros + table tr"@,
        ListingKind::Functions => "#functions + table tr"@,
        ListingKind::Attributes => "#attributes + table tr"@,
        ListingKind::Constants => "#consts + table tr"@,
        ListingKind::Methods => "#impl + .impl-items h4 > code"@,
        ListingKind::TraitImplementations => "#implementations-list .in-band"@,
        ListingKind::RequiredMethods => "#required-methods + .methods .method > code"@,
        ListingKind::ProvidedMethods => "#provided-methods + .methods .method > code"@,
        ListingKind::ForeignImplementations => "#main > .impl .in-band"@,
        ListingKind::Implementors => "#implementors-list .in-band"@,
    }
}

fn listing_selector_of(kind: ListingKind) -> (r: &'static str)
    ensures
        r@ == listing_selector(kind),
{
    match kind {
        ListingKind::Modules => "#modules + table tr",
        ListingKind::Structs => "#structs + table tr",
        ListingKind::Traits => "#traits + table tr",
        ListingKind::Enums => "#enums + table tr",
        ListingKind::Macros => "#macros + table tr",
        ListingKind::Functions => "#functions + table tr",
        ListingKind::Attributes => "#attributes + table tr",
        ListingKind::Constants => "#consts + table tr",
        ListingKind::Methods => "#impl + .impl-items h4 > code",
        ListingKind::TraitImplementations => "#implementations-list .in-band",
        ListingKind::RequiredMethods => "#required-methods + .methods .method > code",
        ListingKind::ProvidedMethods => "#provided-methods + .methods .method > code",
        ListingKind::ForeignImplementations => "#main > .impl .in-band",
        ListingKind::Implementors => "#implementors-list .in-band",
    }
}

/// What `inner` finds in the `i`-th row of a listing.
pub open spec fn in_row(page: Seq<char>, kind: ListingKind, inner: Seq<char>, i: int) -> Seq<ElementModel> {
    nth_or_empty(selected_within(page, listing_selector(kind), inner), i)
}

/// The entry that the `i`-th row of a listing gives. A row of a module's
/// table is named by its first cell and carries its one-line summary; any
/// other row is named by its own text, as a code block.
pub open spec fn entry_of(page: Seq<char>, kind: ListingKind, rows: Seq<ElementModel>, i: int) -> SubDocumentModel {
    SubDocumentModel {
        name: if is_module_listing(kind) {
            match first_text(in_row(page, kind, "td"@, i)) {
                Some(t) => t,
                None => Seq::empty(),
            }
        } else {
            code_block(reflowed(rows[i].pieces))
        },
        portability_note: first_text(in_row(page, kind, ".portability"@, i)),
        stability_note: first_text(in_row(page, kind, ".unstable"@, i)),
        deprecated: in_row(page, kind, ".deprecated"@, i).len() > 0,
        summary: if is_module_listing(kind) && in_row(page, kind, ".docblock-short > p"@, i).len() > 0 {
            Some(in_row(page, kind, ".docblock-short > p"@, i)[0].inner_html)
        } else {
            None
        },
    }
}

/// The entries of a listing, one per row, in page order.
pub open spec fn entries_of(page: Seq<char>, kind: ListingKind) -> Seq<SubDocumentModel> {
    match selected(page, listing_selector(kind)) {
        Some(rows) => Seq::new(rows.len(), |i: int| entry_of(page, kind, rows, i)),
        None => Seq::empty(),
    }
}

/// The listings that a page of each shape offers, in order.
pub open spec fn listing_kinds(shape: StructureType) -> Seq<ListingKind> {
    match shape {
        StructureType::Module => seq![
            ListingKind::Modules,
            ListingKind::Structs,
            ListingKind::Traits,
            ListingKind::Enums,
            ListingKind::Macros,
            ListingKind::Functions,
            ListingKind::Attributes,
            ListingKind::Constants,
        ],
        StructureType::Struct => seq![ListingKind::Methods, ListingKind::TraitImplementations],
        StructureType::Trait => seq![
            ListingKind::RequiredMethods,
            ListingKind::ProvidedMethods,
            ListingKind::ForeignImplementations,
            ListingKind::Implementors,
        ],
        _ => Seq::empty(),
    }
}

/// The listings of `kinds` that are not empty on the page, in the order of `kinds`.
pub open spec fn listings_from(page: Seq<char>, kinds: Seq<ListingKind>) -> Seq<(ListingKind, Seq<SubDocumentModel>)>
    decreases kinds.len(),
{
    if kinds.len() == 0 {
        Seq::empty()
    } else {
        let rest = listings_from(page, kinds.drop_last());
        let entries = entries_of(page, kinds.last());
        if entries.len() > 0 {
            rest.push((kinds.last(), entries))
        } else {
            rest
        }
    }
}

fn listing_kinds_of(shape: StructureType) -> (r: Vec<ListingKind>)
    ensures
        r@ == listing_kinds(shape),
{
    let mut r: Vec<ListingKind> = Vec::new();
    match shape {
        StructureType::Module => {
            r.push(ListingKind::Modules);
            r.push(ListingKind::Structs);
            r.push(ListingKind::Traits);
            r.push(ListingKind::Enums);
            r.push(ListingKind::Macros);
            r.push(ListingKind::Functions);
            r.push(ListingKind::Attributes);
            r.push(ListingKind::Constants);
        },
        StructureType::Struct => {
            r.push(ListingKind::Methods);
            r.push(ListingKind::TraitImplementations);
        },
        StructureType::Trait => {
            r.push(ListingKind::RequiredMethods);
            r.push(ListingKind::ProvidedMethods);
            r.push(ListingKind::ForeignImplementations);
            r.push(ListingKind::Implementors);
        },
        _ => {},
    }
    assert(r@ =~= listing_kinds(shape));
    r
}

fn nth_first_text(found: &Option<Vec<Vec<Element>>>, i: usize) -> (r: Option<String>)
    ensures
        r.deep_view() == first_text(nth_or_empty(found.deep_view(), i as int)),
{
    match found {
        Some(v) => {
            if i < v.len() && v[i].len() > 0 {
                assert(v.deep_view()[i as int] == v[i as int].deep_view());
                Some(element_text(&v[i][0]))
            } else {
                None
            }
        },
        None => None,
    }
}

fn nth_found_any(found: &Option<Vec<Vec<Element>>>, i: usize) -> (r: bool)
    ensures
        r == (nth_or_empty(found.deep_view(), i as int).len() > 0),
{
    match found {
        Some(v) => {
            if i < v.len() {
                assert(v.deep_view()[i as int] == v[i as int].deep_view());
            }
            i < v.len() && v[i].len() > 0
        },
        None => false,
    }
}

fn nth_first_inner_html(found: &Option<Vec<Vec<Element>>>, i: usize) -> (r: Option<String>)
    ensures
        r.deep_view() == (if nth_or_empty(found.deep_view(), i as int).len() > 0 {
            Some(nth_or_empty(found.deep_view(), i as int)[0].inner_html)
        } else {
            None::<Seq<char>>
        }),
{
    match found {
        Some(v) => {
            if i < v.len() && v[i].len() > 0 {
                assert(v.deep_view()[i as int] == v[i as int].deep_view());
                Some(v[i][0].inner_html.clone())
            } else {
                None
            }
        },
        None => None,
    }
}

fn nth_first_definition(found: &Option<Vec<Vec<Element>>>, i: usize) -> (r: Option<String>)
    ensures
        r.deep_view() == first_definition(nth_or_empty(found.deep_view(), i as int)),
{
    match found {
        Some(v) => {
            if i < v.len() && v[i].len() > 0 {
                assert(v.deep_view()[i as int] == v[i as int].deep_view());
                Some(code_node_text(&v[i][0].pieces))
            } else {
                None
            }
        },
        None => None,
    }
}

/// The entries of one listing of a page.
pub(crate) fn listing_entries(page: &Page, kind: ListingKind) -> (r: Vec<SubDocument>)
    ensures
        r.deep_view() == entries_of(page.source(), kind),
{
    let sel = listing_selector_of(kind);
    let module_table = match kind {
        ListingKind::Modules | ListingKind::Structs | ListingKind::Traits | ListingKind::Enums
        | ListingKind::Macros | ListingKind::Functions | ListingKind::Attributes
        | ListingKind::Constants => true,
        _ => false,
    };
    let rows = match page.select(sel) {
        Some(rows) => rows,
        None => {
            return Vec::new();
        },
    };
    let ghost p = page.source();
    let ghost rows_m = rows.deep_view();
    let names = page.select_within(sel, "td");
    let summaries = page.select_within(sel, ".docblock-short > p");
    let portability = page.select_within(sel, ".portability");
    let stability = page.select_within(sel, ".unstable");
    let deprecation = page.select_within(sel, ".deprecated");
    let mut r: Vec<SubDocument> = Vec::new();
    let mut i: usize = 0;
    while i < rows.len()
        invariant
            i <= rows@.len(),
            rows_m == rows.deep_view(),
            selected(p, listing_selector(kind)) == Some(rows_m),
            p == page.source(),
            module_table == is_module_listing(kind),
            names.deep_view() == selected_within(p, listing_selector(kind), "td"@),
            summaries.deep_view() == selected_within(p, listing_selector(kind), ".docblock-short > p"@),
            portability.deep_view() == selected_within(p, listing_selector(kind), ".portability"@),
            stability.deep_view() == selected_within(p, listing_selector(kind), ".unstable"@),
            deprecation.deep_view() == selected_within(p, listing_selector(kind), ".deprecated"@),
            r.deep_view() == Seq::new(i as nat, |j: int| entry_of(p, kind, rows_m, j)),
        decreases rows@.len() - i,
    {
        let name = if module_table {
            match nth_first_text(&names, i) {
                Some(t) => t,
                None => String::new(),
            }
        } else {
            code_node_text(&rows[i].pieces)
        };
        let summary = if module_table {
            nth_first_inner_html(&summaries, i)
        } else {
            None
        };
        let entry = SubDocument {
            name,
            portability_note: nth_first_text(&portability, i),
            stability_note: nth_first_text(&stability, i),
            deprecated: nth_found_any(&deprecation, i),
            summary,
        };
        assert(rows_m[i as int] == rows[i as int].deep_view());
        let ghost before = r.deep_view();
        r.push(entry);
        assert(r.deep_view() =~= Seq::new(i as nat + 1, |j: int| entry_of(p, kind, rows_m, j))) by {
            assert(r.deep_view() == before.push(entry.deep_view()));
            assert(entry.deep_view() == entry_of(p, kind, rows_m, i as int));
        }
        i = i + 1;
    }
    assert(r.deep_view() =~= entries_of(p, kind));
    r
}

/// The listings that a page of the given shape offers and that are not empty.
pub(crate) fn listings(page: &Page, shape: StructureType) -> (r: Vec<Listing>)
    ensures
        r.deep_view() == listings_from(page.source(), listing_kinds(shape)),
{
    let kinds = listing_kinds_of(shape);
    let mut r: Vec<Listing> = Vec::new();
    let mut i: usize = 0;
    while i < kinds.len()
        invariant
            i <= kinds@.len(),
            kinds@ == listing_kinds(shape),
            r.deep_view() == listings_from(page.source(), kinds@.take(i as int)),
        decreases kinds@.len() - i,
    {
        let entries = listing_entries(page, kinds[i]);
        assert(kinds@.take(i as int + 1).drop_last() == kinds@.take(i as int));
        if entries.len() > 0 {
            let ghost before = r.deep_view();
            r.push(Listing { kind: kinds[i], entries });
            assert(r.deep_view() == before.push((kinds@[i as int], entries.deep_view())));
        }
        i = i + 1;
    }
    assert(kinds@.take(kinds@.len() as int) == kinds@);
    r
}

/// The page of a module, function, struct or trait: the title, the item's
/// definition, notes and description read from their fixed places, then the
/// listings of its shape. `None` where the page has no title or no
/// description block.
pub open spec fn item_document(page: Seq<char>, shape: StructureType) -> Option<DocumentModel> {
    let title = first_found_text(selected(page, ".fqn > .in-band"@));
    let docblocks = selected_children(page, "#main > div.docblock:not(.type-decl)"@);
    if title is Some && docblocks is Some && docblocks.unwrap().len() > 0 {
        let blocks = docblocks.unwrap()[0];
        Some(
            DocumentModel {
                title: title.unwrap(),
                definition: match selected(page, "#main > .type_decl > pre"@) {
                    Some(v) => first_definition(v),
                    None => None,
                },
                portability_note: first_found_text(selected(page, "#main > .stability > .portability"@)),
                stability_note: first_found_text(selected(page, "#main > .stability > .unstable"@)),
                deprecated: found_any(selected(page, "#main > .stability > .deprecated"@)),
                description: description_of(blocks),
                sections: sections_of(blocks),
                listings: listings_from(page, listing_kinds(shape)),
            },
        )
    } else {
        None
    }
}

/// The selector of a trait's anchor for its required method `name`.
pub open spec fn required_anchor(name: Seq<char>) -> Seq<char> {
    "#tymethod\\."@ + name
}

/// The selector of the anchor for a provided or inherent method `name`.
pub open spec fn provided_anchor(name: Seq<char>) -> Seq<char> {
    "#method\\."@ + name
}

/// The anchor that defines method `name` on a page: the required method's
/// where the page has one, else the provided or inherent method's.
pub open spec fn method_anchor(page: Seq<char>, name: Seq<char>) -> Seq<char> {
    if found_any(selected(page, required_anchor(name))) {
        required_anchor(name)
    } else {
        provided_anchor(name)
    }
}

/// How many of `s` are `div` elements before the first element that is not.
pub open spec fn div_run(s: Seq<ElementModel>) -> nat
    decreases s.len(),
{
    if s.len() > 0 && s[0].name == "div"@ {
        1 + div_run(s.skip(1))
    } else {
        0
    }
}

/// Whether an element of the leading run of `div`s in `s` has class `c`.
pub open spec fn run_has_class(s: Seq<ElementModel>, c: Seq<char>) -> bool {
    exists|j: int| 0 <= j < div_run(s) && #[trigger] s[j].classes.contains(c)
}

/// The documentation of one method on its owner's page: the definition in
/// its anchor, and the stability block and description block among the
/// `div`s that directly follow the anchor; either may be missing. `None`
/// where the page has no title or no anchor for `name`.
pub open spec fn method_document(page: Seq<char>, name: Seq<char>) -> Option<DocumentModel> {
    let title = first_found_text(selected(page, ".fqn > .in-band"@));
    let anchor = method_anchor(page, name);
    if title is Some && found_any(selected(page, anchor)) {
        let siblings = nth_or_empty(selected_following(page, anchor), 0);
        let stab = anchor + " ~ div.stability"@;
        let has_stab = run_has_class(siblings, "stability"@);
        let blocks = if run_has_class(siblings, "docblock"@) {
            nth_or_empty(selected_children(page, anchor + " ~ div.docblock"@), 0)
        } else {
            Seq::empty()
        };
        Some(
            DocumentModel {
                title: title.unwrap(),
                definition: first_definition(nth_or_empty(selected_within(page, anchor, "code"@), 0)),
                portability_note: if has_stab {
                    first_text(nth_or_empty(selected_within(page, stab, ".portability"@), 0))
                } else {
                    None
                },
                stability_note: if has_stab {
                    first_text(nth_or_empty(selected_within(page, stab, ".unstable"@), 0))
                } else {
                    None
                },
                deprecated: has_stab && nth_or_empty(selected_within(page, stab, ".deprecated"@), 0).len() > 0,
                description: description_of(blocks),
                sections: sections_of(blocks),
                listings: Seq::empty(),
            },
        )
    } else {
        None
    }
}

/// The document that a candidate's page yields, or `None` where the page
/// does not hold that candidate.
pub open spec fn document_of(page: Seq<char>, c: CrateStructure) -> Option<DocumentModel> {
    if c.structure_type == StructureType::Method || c.structure_type == StructureType::TraitMethod {
        method_document(page, c.name@)
    } else {
        item_document(page, c.structure_type)
    }
}

fn first_found_text_of(found: &Option<Vec<Element>>) -> (r: Option<String>)
    ensures
        r.deep_view() == first_found_text(found.deep_view()),
{
    match found {
        Some(v) => if v.len() > 0 {
            Some(element_text(&v[0]))
        } else {
            None
        },
        None => None,
    }
}

fn found_any_of(found: &Option<Vec<Element>>) -> (r: bool)
    ensures
        r == found_any(found.deep_view()),
{
    match found {
        Some(v) => v.len() > 0,
        None => false,
    }
}

fn has_class(e: &Element, c: &str) -> (r: bool)
    ensures
        r == e.deep_view().classes.contains(c@),
{
    let mut i: usize = 0;
    while i < e.classes.len()
        invariant
            i <= e.classes@.len(),
            forall|j: int| 0 <= j < i ==> e.classes.deep_view()[j] != c@,
        decreases e.classes@.len() - i,
    {
        if same_text(e.classes[i].as_str(), c) {
            assert(e.classes.deep_view()[i as int] == c@);
            return true;
        }
        i = i + 1;
    }
    false
}

proof fn lemma_div_run(s: Seq<ElementModel>, i: int)
    requires
        0 <= i <= s.len(),
        forall|j: int| 0 <= j < i ==> #[trigger] s[j].name == "div"@,
        i == s.len() || s[i].name != "div"@,
    ensures
        div_run(s) == i,
    decreases i,
{
    if i > 0 {
        lemma_div_run(s.skip(1), i - 1);
    }
}

/// The stability and description classes found among the `div`s that
/// directly follow the first match, as (stability, description).
fn scan_siblings(following: &Option<Vec<Vec<Element>>>) -> (r: (bool, bool))
    ensures
        r.0 == run_has_class(nth_or_empty(following.deep_view(), 0), "stability"@),
        r.1 == run_has_class(nth_or_empty(following.deep_view(), 0), "docblock"@),
{
    let ghost s = nth_or_empty(following.deep_view(), 0);
    let empty: Vec<Element> = Vec::new();
    let siblings = match following {
        Some(v) => if v.len() > 0 {
            assert(v.deep_view()[0] == v[0].deep_view());
            &v[0]
        } else {
            &empty
        },
        None => &empty,
    };
    assert(siblings.deep_view() == s);
    let mut stab = false;
    let mut doc = false;
    let mut i: usize = 0;
    while i < siblings.len() && same_text(siblings[i].name.as_str(), "div")
        invariant
            i <= siblings@.len(),
            siblings.deep_view() == s,
            forall|j: int| 0 <= j < i ==> #[trigger] s[j].name == "div"@,
            stab == exists|j: int| 0 <= j < i && #[trigger] s[j].classes.contains("stability"@),
            doc == exists|j: int| 0 <= j < i && #[trigger] s[j].classes.contains("docblock"@),
        decreases siblings@.len() - i,
    {
        assert(s[i as int] == siblings[i as int].deep_view());
        if has_class(&siblings[i], "stability") {
            stab = true;
        }
        if has_class(&siblings[i], "docblock") {
            doc = true;
        }
        i = i + 1;
    }
    proof {
        if i < siblings@.len() {
            assert(s[i as int] == siblings[i as int].deep_view());
        }
        lemma_div_run(s, i as int);
    }
    (stab, doc)
}

/// Extracts the page of a module, function, struct or trait.
fn item_page(page: &Page, shape: StructureType) -> (r: Option<CrateDocument>)
    requires
        shape != StructureType::Method && shape != StructureType::TraitMethod,
    ensures
        r.deep_view() == item_document(page.source(), shape),
{
    let title = first_found_text_of(&page.select(".fqn > .in-band"));
    let docblocks = page.select_children("#main > div.docblock:not(.type-decl)");
    let title = match title {
        Some(t) => t,
        None => {
            return None;
        },
    };
    let docblocks = match docblocks {
        Some(d) => d,
        None => {
            return None;
        },
    };
    if docblocks.len() == 0 {
        return None;
    }
    assert(docblocks.deep_view()[0] == docblocks[0].deep_view());
    let (description, sections) = split_sections(&docblocks[0]);
    let definition = match page.select("#main > .type_decl > pre") {
        Some(v) => if v.len() > 0 {
            Some(code_node_text(&v[0].pieces))
        } else {
            None
        },
        None => None,
    };
    Some(
        CrateDocument {
            title,
            definition,
            portability_note: first_found_text_of(&page.select("#main > .stability > .portability")),
            stability_note: first_found_text_of(&page.select("#main > .stability > .unstable")),
            deprecated: found_any_of(&page.select("#main > .stability > .deprecated")),
            description,
            sections,
            listings: listings(page, shape),
        },
    )
}

/// `prefix` followed by `rest`.
fn joined_selector(prefix: &str, rest: &str) -> (r: String)
    ensures
        r@ == prefix@ + rest@,
{
    let mut s = String::new();
    s.append(prefix);
    s.append(rest);
    s
}

/// Extracts the documentation of method `name` from its owner's page.
fn method_page(page: &Page, name: &str) -> (r: Option<CrateDocument>)
    ensures
        r.deep_view() == method_document(page.source(), name@),
{
    let title = match first_found_text_of(&page.select(".fqn > .in-band")) {
        Some(t) => t,
        None => {
            return None;
        },
    };
    let required = joined_selector("#tymethod\\.", name);
    let anchor = if found_any_of(&page.select(required.as_str())) {
        required
    } else {
        joined_selector("#method\\.", name)
    };
    assert(anchor@ == method_anchor(page.source(), name@));
    if !found_any_of(&page.select(anchor.as_str())) {
        return None;
    }
    let (has_stab, has_doc) = scan_siblings(&page.select_following(anchor.as_str()));
    let stab = joined_selector(anchor.as_str(), " ~ div.stability");
    let empty: Vec<Element> = Vec::new();
    let children = if has_doc {
        page.select_children(joined_selector(anchor.as_str(), " ~ div.docblock").as_str())
    } else {
        None
    };
    let blocks = match &children {
        Some(v) => if has_doc && v.len() > 0 {
            assert(v.deep_view()[0] == v[0].deep_view());
            &v[0]
        } else {
            &empty
        },
        None => &empty,
    };
    let (description, sections) = split_sections(blocks);
    let (portability_note, stability_note, deprecated) = if has_stab {
        (
            nth_first_text(&page.select_within(stab.as_str(), ".portability"), 0),
            nth_first_text(&page.select_within(stab.as_str(), ".unstable"), 0),
            nth_found_any(&page.select_within(stab.as_str(), ".deprecated"), 0),
        )
    } else {
        (None, None, false)
    };
    let doc = CrateDocument {
        title,
        definition: nth_first_definition(&page.select_within(anchor.as_str(), "code"), 0),
        portability_note,
        stability_note,
        deprecated,
        description,
        sections,
        listings: Vec::new(),
    };
    assert(doc.listings.deep_view() =~= Seq::empty());
    Some(doc)
}

/// Extracts the document that a candidate's page holds, or `None` where the
/// page does not hold that candidate (the parts that define the shape are
/// missing, as a method's anchor).
pub(crate) fn extract_document(page: &Page, c: &CrateStructure) -> (r: Option<CrateDocument>)
    ensures
        r.deep_view() == document_of(page.source(), *c),
{
    match c.structure_type {
        StructureType::Method | StructureType::TraitMethod => method_page(page, c.name.as_str()),
        _ => item_page(page, c.structure_type),
    }
}

proof fn lemma_listings_from_distinct(page: Seq<char>, kinds: Seq<ListingKind>)
    requires
        forall|a: int, b: int| 0 <= a < b < kinds.len() ==> kinds[a] != kinds[b],
    ensures
        forall|a: int, b: int|
            0 <= a < b < listings_from(page, kinds).len() ==> listings_from(page, kinds)[a].0
                != listings_from(page, kinds)[b].0,
        forall|a: int|
            0 <= a < listings_from(page, kinds).len() ==> kinds.contains(
                #[trigger] listings_from(page, kinds)[a].0,
            ),
    decreases kinds.len(),
{
    if kinds.len() > 0 {
        let init = kinds.drop_last();
        lemma_listings_from_distinct(page, init);
        let rest = listings_from(page, init);
        assert forall|a: int| 0 <= a < rest.len() implies rest[a].0 != kinds.last() by {
            let j = choose|j: int| 0 <= j < init.len() && init[j] == rest[a].0;
            assert(kinds[j] == init[j]);
        }
        assert forall|a: int| 0 <= a < rest.len() implies kinds.contains(#[trigger] rest[a].0) by {
            let j = choose|j: int| 0 <= j < init.len() && init[j] == rest[a].0;
            assert(kinds[j] == init[j]);
        }
        assert(kinds[kinds.len() - 1] == kinds.last());
    }
}

/// An extracted document never holds two listings of the same kind.
pub proof fn lemma_listing_kinds_distinct(page: Seq<char>, c: CrateStructure)
    requires
        document_of(page, c) is Some,
    ensures
        forall|a: int, b: int|
            0 <= a < b < document_of(page, c).unwrap().listings.len() ==> document_of(page, c).unwrap().listings[a].0
                != document_of(page, c).unwrap().listings[b].0,
{
    let ks = listing_kinds(c.structure_type);
    assert(forall|a: int, b: int| 0 <= a < b < ks.len() ==> ks[a] != ks[b]);
    lemma_listings_from_distinct(page, ks);
}

/// Parses a candidate's page and extracts the document it holds, or `None`
/// where the page does not hold that candidate.
pub fn extract_page(markup: &str, c: &CrateStructure) -> (r: Option<CrateDocument>)
    ensures
        r.deep_view() == document_of(markup@, *c),
{
    let page = Page::parse(markup);
    extract_document(&page, c)
}

/// Extraction is a function of the page's markup: extracting the same markup
/// twice gives the same document, field for field.
pub proof fn lemma_extraction_deterministic(m1: Seq<char>, m2: Seq<char>, c: CrateStructure)
    requires
        m1 == m2,
    ensures
        document_of(m1, c) == document_of(m2, c),
{
}

} // verus!
