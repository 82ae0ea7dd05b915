//! A fetched documentation page, parsed once, and the queries that extraction
//! makes on it. Each query hands back plain snapshots of the elements it found.
use vstd::prelude::*;

verus! {

/// scraper's parsed document tree, held opaque.
#[verifier::external_type_specification]
#[verifier::external_body]
pub struct ExHtml(scraper::Html);

/// What extraction reads of one element: its tag name, its classes, its text
/// nodes in document order and its inner markup.
#[derive(Clone, Debug, PartialEq, Eq)]
pub struct Element {
    pub name: String,
    pub classes: Vec<String>,
    pub pieces: Vec<String>,
    pub inner_html: String,
}

/// The model of an [`Element`].
pub struct ElementModel {
    pub name: Seq<char>,
    pub classes: Seq<Seq<char>>,
    pub pieces: Seq<Seq<char>>,
    pub inner_html: Seq<char>,
}

impl DeepView for Element {
    type V = ElementModel;

    open spec fn deep_view(&self) -> ElementModel {
        ElementModel {
            name: self.name@,
            classes: self.classes.deep_view(),
            pieces: self.pieces.deep_view(),
            inner_html: self.inner_html@,
        }
    }
}

/// The elements of the page `page` that `selector` matches, in the order
/// scraper yields them; `None` where the selector does not parse.
pub uninterp spec fn selected(page: Seq<char>, selector: Seq<char>) -> Option<Seq<ElementModel>>;

/// For each element of `page` that `outer` matches, its descendants that
/// `inner` matches; `None` where a selector does not parse.
pub uninterp spec fn selected_within(page: Seq<char>, outer: Seq<char>, inner: Seq<char>) -> Option<
    Seq<Seq<ElementModel>>,
>;

/// For each element of `page` that `selector` matches, its child elements.
pub uninterp spec fn selected_children(page: Seq<char>, selector: Seq<char>) -> Option<
    Seq<Seq<ElementModel>>,
>;

/// For each element of `page` that `selector` matches, the elements that
/// follow it under the same parent.
pub uninterp spec fn selected_following(page: Seq<char>, selector: Seq<char>) -> Option<
    Seq<Seq<ElementModel>>,
>;

/// `text` with each match of the regular expression `pattern` replaced by
/// `replacement`; `None` where the pattern does not compile.
pub uninterp spec fn regex_replaced(
    pattern: Seq<char>,
    text: Seq<char>,
    replacement: Seq<char>,
) -> Option<Seq<char>>;

/// A documentation page: its markup and the tree parsed from it. The tree is
/// always the one parsed from `source`, as only [`Page::parse`] builds a page.
pub struct Page {
    source: String,
    html: scraper::Html,
}

impl Page {
    /// The markup the page was parsed from.
    pub closed spec fn source(&self) -> Seq<char> {
        self.source@
    }

    /// Relies on `scraper::Html::parse_document`, which parses any text.
    #[verifier::external_body]
    pub(crate) fn parse(source: &str) -> (r: Page)
        ensures
            r.source() == source@,
    {
        Page { source: source.to_string(), html: scraper::Html::parse_document(source) }
    }

    /// Relies on `scraper::Selector::parse` and `scraper::Html::select`: the
    /// matches of `selector`, read into snapshots.
    #[verifier::external_body]
    pub(crate) fn select(&self, selector: &str) -> (r: Option<Vec<Element>>)
        ensures
            r.deep_view() == selected(self.source(), selector@),
    {
        let sel = scraper::Selector::parse(selector).ok()?;
        Some(self.html.select(&sel).map(|e| Element {
            name: e.value().name().to_string(),
            classes: e.value().classes().map(String::from).collect(),
            pieces: e.text().map(String::from).collect(),
            inner_html: e.inner_html(),
        }).collect())
    }

    /// Relies on `scraper::Selector::parse`, `scraper::Html::select` and
    /// `scraper::ElementRef::select`: for each match of `outer`, the matches of
    /// `inner` below it.
    #[verifier::external_body]
    pub(crate) fn select_within(&self, outer: &str, inner: &str) -> (r: Option<Vec<Vec<Element>>>)
        ensures
            r.deep_view() == selected_within(self.source(), outer@, inner@),
    {
        let o = scraper::Selector::parse(outer).ok()?;
        let i = scraper::Selector::parse(inner).ok()?;
        Some(self.html.select(&o).map(|m| m.select(&i).map(|e| Element {
            name: e.value().name().to_string(),
            classes: e.value().classes().map(String::from).collect(),
            pieces: e.text().map(String::from).collect(),
            inner_html: e.inner_html(),
        }).collect()).collect())
    }

    /// Relies on `scraper::Selector::parse`, `scraper::Html::select` and
    /// `scraper::ElementRef::child_elements`: for each match, its child elements.
    #[verifier::external_body]
    pub(crate) fn select_children(&self, selector: &str) -> (r: Option<Vec<Vec<Element>>>)
        ensures
            r.deep_view() == selected_children(self.source(), selector@),
    {
        let sel = scraper::Selector::parse(selector).ok()?;
        Some(self.html.select(&sel).map(|m| m.child_elements().map(|e| Element {
            name: e.value().name().to_string(),
            classes: e.value().classes().map(String::from).collect(),
            pieces: e.text().map(String::from).collect(),
            inner_html: e.inner_html(),
        }).collect()).collect())
    }

    /// Relies on `scraper::Selector::parse`, `scraper::Html::select` and
    /// ego-tree's `next_siblings` with `scraper::ElementRef::wrap`: for each
    /// match, the elements after it under the same parent, in order.
    #[verifier::external_body]
    pub(crate) fn select_following(&self, selector: &str) -> (r: Option<Vec<Vec<Element>>>)
        ensures
            r.deep_view() == selected_following(self.source(), selector@),
    {
        let sel = scraper::Selector::parse(selector).ok()?;
        Some(self.html.select(&sel).map(|m| m.next_siblings().filter_map(scraper::ElementRef::wrap).map(|e| Element {
            name: e.value().name().to_string(),
            classes: e.value().classes().map(String::from).collect(),
            pieces: e.text().map(String::from).collect(),
            inner_html: e.inner_html(),
        }).collect()).collect())
    }
}

/// Relies on `regex::Regex::new` and `regex::Regex::replace_all`: `text` with
/// each match of `pattern` replaced by `replacement`, where `$1` stands for
/// the first group.
#[verifier::external_body]
pub(crate) fn replace_all(pattern: &str, text: &str, replacement: &str) -> (r: Option<String>)
    ensures
        r.deep_view() == regex_replaced(pattern@, text@, replacement@),
{
    Some(regex::Regex::new(pattern).ok()?.replace_all(text, replacement).into_owned())
}

} // verus!
