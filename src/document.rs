//! The structured form of one documentation page.
use vstd::prelude::*;

verus! {

/// One entry of a listing: a member of a module, a method, an implementation.
#[derive(Clone, Debug, PartialEq, Eq)]
pub struct SubDocument {
    pub name: String,
    /// Portability of the entry, e.g. `feature="derive"`.
    pub portability_note: Option<String>,
    /// Stability of the entry, e.g. `Experimental (never_type #35121)`.
    pub stability_note: Option<String>,
    pub deprecated: bool,
    /// The one-line description that a module index shows, if any.
    pub summary: Option<String>,
}

/// The model of a [`SubDocument`].
pub struct SubDocumentModel {
    pub name: Seq<char>,
    pub portability_note: Option<Seq<char>>,
    pub stability_note: Option<Seq<char>>,
    pub deprecated: bool,
    pub summary: Option<Seq<char>>,
}

impl DeepView for SubDocument {
    type V = SubDocumentModel;

    open spec fn deep_view(&self) -> SubDocumentModel {
        SubDocumentModel {
            name: self.name@,
            portability_note: self.portability_note.deep_view(),
            stability_note: self.stability_note.deep_view(),
            deprecated: self.deprecated,
            summary: self.summary.deep_view(),
        }
    }
}

/// The body of a section: prose, or a listing of entries.
#[derive(Clone, Debug, PartialEq, Eq)]
pub enum Article {
    Text(String),
    SubDocuments(Vec<SubDocument>),
}

/// The model of an [`Article`].
pub enum ArticleModel {
    Text(Seq<char>),
    SubDocuments(Seq<SubDocumentModel>),
}

impl DeepView for Article {
    type V = ArticleModel;

    open spec fn deep_view(&self) -> ArticleModel {
        match self {
            Article::Text(t) => ArticleModel::Text(t@),
            Article::SubDocuments(v) => ArticleModel::SubDocuments(v.deep_view()),
        }
    }
}

/// The fixed listings that a page of a given shape offers for direct access.
#[derive(Clone, Copy, Debug, PartialEq, Eq, Structural)]
pub enum ListingKind {
    Modules,
    Structs,
    Traits,
    Enums,
    Macros,
    Functions,
    Attributes,
    Constants,
    Methods,
    TraitImplementations,
    RequiredMethods,
    ProvidedMethods,
    ForeignImplementations,
    Implementors,
}

/// The heading under which a listing is shown.
pub open spec fn listing_heading(kind: ListingKind) -> Seq<char> {
    match kind {
        ListingKind::Modules => "Modules"@,
        ListingKind::Structs => "Structs"@,
        ListingKind::Traits => "Traits"@,
        ListingKind::Enums => "Enums"@,
        ListingKind::Macros => "Macros"@,
        ListingKind::Functions => "Functions"@,
        ListingKind::Attributes => "Attributes"@,
        ListingKind::Constants => "Constants"@,
        ListingKind::Methods => "Methods"@,
        ListingKind::TraitImplementations => "Trait Implementations"@,
        ListingKind::RequiredMethods => "Required Methods"@,
        ListingKind::ProvidedMethods => "Provided Methods"@,
        ListingKind::ForeignImplementations => "Foreign Implementations"@,
        ListingKind::Implementors => "Implementors"@,
    }
}

/// The selector key by which a follow-up interaction asks for a listing.
pub open spec fn listing_key(kind: ListingKind) -> Seq<char> {
    match kind {
        ListingKind::Modules => "modules"@,
        ListingKind::Structs => "structs"@,
        ListingKind::Traits => "traits"@,
        ListingKind::Enums => "enums"@,
        ListingKind::Macros => "macros"@,
        ListingKind::Functions => "functions"@,
        ListingKind::Attributes => "attributes"@,
        ListingKind::Constants => "constants"@,
        ListingKind::Methods => "methods"@,
        ListingKind::TraitImplementations => "implementations"@,
        ListingKind::RequiredMethods => "required_methods"@,
        ListingKind::ProvidedMethods => "provided_methods"@,
        ListingKind::ForeignImplementations => "foreign_implementations"@,
        ListingKind::Implementors => "implementors"@,
    }
}

impl ListingKind {
    /// The heading under which the listing is shown.
    pub fn heading(&self) -> (r: String)
        ensures
            r@ == listing_heading(*self),
    {
        let mut r = String::new();
        match self {
            ListingKind::Modules => r.append("Modules"),
            ListingKind::Structs => r.append("Structs"),
            ListingKind::Traits => r.append("Traits"),
            ListingKind::Enums => r.append("Enums"),
            ListingKind::Macros => r.append("Macros"),
            ListingKind::Functions => r.append("Functions"),
            ListingKind::Attributes => r.append("Attributes"),
            ListingKind::Constants => r.append("Constants"),
            ListingKind::Methods => r.append("Methods"),
            ListingKind::TraitImplementations => r.append("Trait Implementations"),
            ListingKind::RequiredMethods => r.append("Required Methods"),
            ListingKind::ProvidedMethods => r.append("Provided Methods"),
            ListingKind::ForeignImplementations => r.append("Foreign Implementations"),
            ListingKind::Implementors => r.append("Implementors"),
        }
        r
    }

    /// The selector key by which a follow-up interaction asks for the listing.
    pub fn key(&self) -> (r: String)
        ensures
            r@ == listing_key(*self),
    {
        let mut r = String::new();
        match self {
            ListingKind::Modules => r.append("modules"),
            ListingKind::Structs => r.append("structs"),
            ListingKind::Traits => r.append("traits"),
            ListingKind::Enums => r.append("enums"),
            ListingKind::Macros => r.append("macros"),
            ListingKind::Functions => r.append("functions"),
            ListingKind::Attributes => r.append("attributes"),
            ListingKind::Constants => r.append("constants"),
            ListingKind::Methods => r.append("methods"),
            ListingKind::TraitImplementations => r.append("implementations"),
            ListingKind::RequiredMethods => r.append("required_methods"),
            ListingKind::ProvidedMethods => r.append("provided_methods"),
            ListingKind::ForeignImplementations => r.append("foreign_implementations"),
            ListingKind::Implementors => r.append("implementors"),
        }
        r
    }
}

/// A listing promoted out of the page for direct access.
#[derive(Clone, Debug, PartialEq, Eq)]
pub struct Listing {
    pub kind: ListingKind,
    pub entries: Vec<SubDocument>,
}

impl DeepView for Listing {
    type V = (ListingKind, Seq<SubDocumentModel>);

    open spec fn deep_view(&self) -> (ListingKind, Seq<SubDocumentModel>) {
        (self.kind, self.entries.deep_view())
    }
}

/// The structured content of one documentation page.
#[derive(Clone, Debug, PartialEq, Eq)]
pub struct CrateDocument {
    /// Title of this document, e.g. `Struct serde_json::Value`.
    pub title: String,
    /// Definition of the item, as a code block.
    pub definition: Option<String>,
    /// Portability of the item, e.g. `feature="derive"`.
    pub portability_note: Option<String>,
    /// Stability of the item, e.g. `Experimental (never_type #35121)`.
    pub stability_note: Option<String>,
    pub deprecated: bool,
    /// The paragraphs before the first heading, one per line.
    pub description: String,
    /// The headed sections of the description, in page order.
    pub sections: Vec<(String, Article)>,
    /// The listings that the page's shape offers, those that are not empty, in
    /// a fixed order.
    pub listings: Vec<Listing>,
}

/// The model of a [`CrateDocument`].
pub struct DocumentModel {
    pub title: Seq<char>,
    pub definition: Option<Seq<char>>,
    pub portability_note: Option<Seq<char>>,
    pub stability_note: Option<Seq<char>>,
    pub deprecated: bool,
    pub description: Seq<char>,
    pub sections: Seq<(Seq<char>, ArticleModel)>,
    pub listings: Seq<(ListingKind, Seq<SubDocumentModel>)>,
}

impl DeepView for CrateDocument {
    type V = DocumentModel;

    open spec fn deep_view(&self) -> DocumentModel {
        DocumentModel {
            title: self.title@,
            definition: self.definition.deep_view(),
            portability_note: self.portability_note.deep_view(),
            stability_note: self.stability_note.deep_view(),
            deprecated: self.deprecated,
            description: self.description@,
            sections: self.sections.deep_view(),
            listings: self.listings.deep_view(),
        }
    }
}

} // verus!
