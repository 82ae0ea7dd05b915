//! The registry's record of a crate, reduced to what a summary shows.
use vstd::prelude::*;
use crate::text::{decimal, decimal_text, joined, same_text};

verus! {

/// An owner of a crate.
#[derive(Clone, Debug, PartialEq, Eq)]
pub struct CrateUser {
    pub name: Option<String>,
    pub url: String,
}

/// The dependencies of one version of a crate.
#[derive(Clone, Debug, PartialEq, Eq)]
pub struct CrateDependencies {
    pub dependencies: Vec<CrateDependency>,
}

/// One dependency; its kind is `normal`, `dev` or `build`.
#[derive(Clone, Debug, PartialEq, Eq)]
pub struct CrateDependency {
    pub kind: String,
}

#[derive(Clone, Debug, PartialEq, Eq)]
pub struct CrateKeyword {
    pub keyword: String,
}

#[derive(Clone, Debug, PartialEq, Eq)]
pub struct CrateCategory {
    pub category: String,
}

/// One published version of a crate.
#[derive(Clone, Debug, PartialEq, Eq)]
pub struct CrateVersion {
    pub version: String,
    pub crate_size: Option<usize>,
    pub license: Option<String>,
}

/// The registry's summary of a crate. Times are seconds since the Unix epoch.
#[derive(Clone, Debug, PartialEq, Eq)]
pub struct CrateSummary {
    pub name: String,
    pub updated_at: i64,
    pub created_at: i64,
    pub downloads: usize,
    pub recent_downloads: usize,
    pub newest_version: String,
    pub description: String,
    pub homepage: Option<String>,
    pub documentation: Option<String>,
    pub repository: Option<String>,
}

/// What a summary of a crate shows. Times are seconds since the Unix epoch.
#[derive(Clone, Debug, PartialEq, Eq)]
pub struct Information {
    pub name: String,
    pub updated_at: i64,
    pub created_at: i64,
    pub downloads: usize,
    pub recent_downloads: usize,
    pub newest_version: String,
    pub crate_size: usize,
    pub description: String,
    pub homepage: Option<String>,
    pub documentation: Option<String>,
    pub repository: Option<String>,
    pub owner: Vec<CrateUser>,
    pub dependency_count: usize,
    pub dev_dependency_count: usize,
    pub license: Option<String>,
    pub keywords: Vec<String>,
    pub categories: Vec<String>,
}

/// Whether the version at `i` is named `wanted`.
pub open spec fn version_named(versions: Seq<CrateVersion>, wanted: Seq<char>, i: int) -> bool {
    0 <= i < versions.len() && versions[i].version@ == wanted
}

/// The index of the first version named `wanted`.
pub fn find_version(versions: &Vec<CrateVersion>, wanted: &str) -> (r: Option<usize>)
    ensures
        r is None <==> !exists|i: int| version_named(versions@, wanted@, i),
        r matches Some(i) ==> version_named(versions@, wanted@, i as int) && forall|j: int|
            0 <= j < i ==> !#[trigger] version_named(versions@, wanted@, j),
{
    let mut i: usize = 0;
    while i < versions.len()
        invariant
            i <= versions@.len(),
            forall|j: int| 0 <= j < i ==> !#[trigger] version_named(versions@, wanted@, j),
        decreases versions@.len() - i,
    {
        if same_text(versions[i].version.as_str(), wanted) {
            assert(version_named(versions@, wanted@, i as int));
            return Some(i);
        }
        i = i + 1;
    }
    None
}

/// How many of the dependencies are for development only.
pub open spec fn dev_count(deps: Seq<CrateDependency>) -> nat
    decreases deps.len(),
{
    if deps.len() == 0 {
        0
    } else {
        dev_count(deps.drop_last()) + if deps.last().kind@ == "dev"@ {
            1nat
        } else {
            0nat
        }
    }
}

/// How many of the dependencies are for development only.
pub fn count_dev_dependencies(deps: &CrateDependencies) -> (r: usize)
    ensures
        r == dev_count(deps.dependencies@),
{
    let d = &deps.dependencies;
    let mut n: usize = 0;
    let mut i: usize = 0;
    while i < d.len()
        invariant
            i <= d@.len(),
            n == dev_count(d@.take(i as int)),
            n <= i,
        decreases d@.len() - i,
    {
        assert(d@.take(i as int + 1).drop_last() == d@.take(i as int));
        if same_text(d[i].kind.as_str(), "dev") {
            n = n + 1;
        }
        i = i + 1;
    }
    assert(d@.take(d@.len() as int) == d@);
    n
}

/// The summary of a crate from its registry record and the dependencies of
/// its newest version, where `version` is that version's record.
pub fn build_information(
    summary: CrateSummary,
    version: &CrateVersion,
    owner: Vec<CrateUser>,
    deps: &CrateDependencies,
    keywords: &Vec<CrateKeyword>,
    categories: &Vec<CrateCategory>,
) -> (r: Information)
    ensures
        r.name == summary.name,
        r.updated_at == summary.updated_at,
        r.created_at == summary.created_at,
        r.downloads == summary.downloads,
        r.recent_downloads == summary.recent_downloads,
        r.newest_version == summary.newest_version,
        r.description == summary.description,
        r.homepage == summary.homepage,
        r.documentation == summary.documentation,
        r.repository == summary.repository,
        r.crate_size == match version.crate_size {
            Some(s) => s,
            None => 0,
        },
        r.license.deep_view() == version.license.deep_view(),
        r.owner == owner,
        r.dependency_count == deps.dependencies@.len(),
        r.dev_dependency_count == dev_count(deps.dependencies@),
        r.keywords.deep_view() == keywords@.map_values(|k: CrateKeyword| k.keyword@),
        r.categories.deep_view() == categories@.map_values(|c: CrateCategory| c.category@),
{
    let mut ks: Vec<String> = Vec::new();
    let mut i: usize = 0;
    while i < keywords.len()
        invariant
            i <= keywords@.len(),
            ks.deep_view() == keywords@.take(i as int).map_values(|k: CrateKeyword| k.keyword@),
        decreases keywords@.len() - i,
    {
        let ghost before = ks.deep_view();
        ks.push(keywords[i].keyword.clone());
        assert(ks.deep_view() == before.push(keywords@[i as int].keyword@));
        assert(keywords@.take(i as int + 1) == keywords@.take(i as int).push(keywords@[i as int]));
        i = i + 1;
    }
    assert(keywords@.take(keywords@.len() as int) == keywords@);
    let mut cs: Vec<String> = Vec::new();
    let mut j: usize = 0;
    while j < categories.len()
        invariant
            j <= categories@.len(),
            cs.deep_view() == categories@.take(j as int).map_values(|c: CrateCategory| c.category@),
        decreases categories@.len() - j,
    {
        let ghost before = cs.deep_view();
        cs.push(categories[j].category.clone());
        assert(cs.deep_view() == before.push(categories@[j as int].category@));
        assert(categories@.take(j as int + 1) == categories@.take(j as int).push(categories@[j as int]));
        j = j + 1;
    }
    assert(categories@.take(categories@.len() as int) == categories@);
    let crate_size = match version.crate_size {
        Some(s) => s,
        None => 0,
    };
    let license = match &version.license {
        Some(l) => Some(l.clone()),
        None => None,
    };
    let dev = count_dev_dependencies(deps);
    Information {
        name: summary.name,
        updated_at: summary.updated_at,
        created_at: summary.created_at,
        downloads: summary.downloads,
        recent_downloads: summary.recent_downloads,
        newest_version: summary.newest_version,
        crate_size,
        description: summary.description,
        homepage: summary.homepage,
        documentation: summary.documentation,
        repository: summary.repository,
        owner,
        dependency_count: deps.dependencies.len(),
        dev_dependency_count: dev,
        license,
        keywords: ks,
        categories: cs,
    }
}

/// How an owner is named where the registry gives no name.
pub open spec fn anonymous() -> Seq<char> {
    "&lt;anonymous&gt;"@
}

/// The owners of a crate: a link to the first, and how many others there are.
pub open spec fn authors_text(owner: Seq<CrateUser>) -> Seq<char> {
    if owner.len() == 0 {
        anonymous()
    } else {
        "<a href=\""@ + owner[0].url@ + "\">"@ + match owner[0].name {
            Some(n) => n@,
            None => anonymous(),
        } + "</a>"@ + if owner.len() > 1 {
            " and "@ + decimal((owner.len() - 1) as nat) + " others"@
        } else {
            Seq::empty()
        }
    }
}

/// The license line.
pub open spec fn license_text(license: Option<Seq<char>>) -> Seq<char> {
    match license {
        Some(l) => l + " License"@,
        None => "No License"@,
    }
}

/// A titled block of items, in italics and separated by `sep`; nothing where
/// there are no items.
pub open spec fn tagged_block(title: Seq<char>, items: Seq<Seq<char>>, sep: Seq<char>) -> Seq<char> {
    if items.len() == 0 {
        Seq::empty()
    } else {
        "\n\n<b>"@ + title + "</b>\n<i>"@ + joined(items, sep) + "</i>"@
    }
}

/// The parts of a crate's summary that are formatted outside: sizes in short
/// form, dates, and how long ago they were.
pub struct InformationTexts {
    pub size: String,
    pub recent_downloads: String,
    pub downloads: String,
    pub updated_at: String,
    pub created_at: String,
    pub updated_elapsed: String,
    pub created_elapsed: String,
}

/// The message that summarises a crate.
pub open spec fn information_text_spec(i: Information, t: InformationTexts) -> Seq<char> {
    "<b>"@ + i.name@ + "</b> <i>"@ + i.newest_version@ + "</i> ("@ + t.size@ + "B) by "@
        + authors_text(i.owner@) + "\n"@ + license_text(i.license.deep_view()) + "\n\n"@
        + crate::text::escaped(i.description@) + tagged_block("Keywords"@, i.keywords.deep_view(), ", "@)
        + tagged_block("Categories"@, i.categories.deep_view(), "\n"@) + "\n\n\u{2b07}\u{fe0f}"@
        + t.recent_downloads@ + " downloads recently ("@ + t.downloads@ + " total)\n\u{1f4ca}"@
        + decimal(i.dependency_count as nat) + " dependencies ("@ + decimal(i.dev_dependency_count as nat)
        + " for dev)\n\u{1f552} updated at "@ + t.updated_at@ + " ("@ + t.updated_elapsed@
        + ")\n\u{1f552} created at "@ + t.created_at@ + " ("@ + t.created_elapsed@ + ")"@
}

fn push_authors(out: &mut String, owner: &Vec<CrateUser>)
    ensures
        final(out)@ == old(out)@ + authors_text(owner@),
{
    if owner.len() == 0 {
        out.append("&lt;anonymous&gt;");
        return;
    }
    let ghost start = out@;
    out.append("<a href=\"");
    out.append(owner[0].url.as_str());
    out.append("\">");
    match &owner[0].name {
        Some(n) => out.append(n.as_str()),
        None => out.append("&lt;anonymous&gt;"),
    }
    out.append("</a>");
    if owner.len() > 1 {
        out.append(" and ");
        let n = decimal_text(owner.len() - 1);
        out.append(n.as_str());
        out.append(" others");
    } else {
        assert(out@ + Seq::<char>::empty() == out@);
    }
}

fn push_tagged_block(out: &mut String, title: &str, items: &Vec<String>, sep: &str)
    ensures
        final(out)@ == old(out)@ + tagged_block(title@, items.deep_view(), sep@),
{
    if items.len() == 0 {
        assert(old(out)@ + Seq::<char>::empty() == old(out)@);
        return;
    }
    out.append("\n\n<b>");
    out.append(title);
    out.append("</b>\n<i>");
    let mut i: usize = 0;
    let ghost before = out@;
    while i < items.len()
        invariant
            i <= items@.len(),
            out@ == before + joined(items.deep_view().take(i as int), sep@),
        decreases items@.len() - i,
    {
        if i > 0 {
            out.append(sep);
        }
        out.append(items[i].as_str());
        assert(items.deep_view().take(i as int + 1).drop_last() == items.deep_view().take(i as int));
        assert(items.deep_view().take(i as int + 1).last() == items[i as int]@);
        i = i + 1;
    }
    assert(items.deep_view().take(items@.len() as int) == items.deep_view());
    out.append("</i>");
}

/// The message that summarises a crate, from its summary and the parts that
/// are formatted outside.
pub fn information_text(i: &Information, t: &InformationTexts) -> (r: String)
    ensures
        r@ == information_text_spec(*i, *t),
{
    let mut out = String::new();
    out.append("<b>");
    out.append(i.name.as_str());
    out.append("</b> <i>");
    out.append(i.newest_version.as_str());
    out.append("</i> (");
    out.append(t.size.as_str());
    out.append("B) by ");
    push_authors(&mut out, &i.owner);
    out.append("\n");
    match &i.license {
        Some(l) => {
            out.append(l.as_str());
            out.append(" License");
        },
        None => out.append("No License"),
    }
    out.append("\n\n");
    let description = crate::text::escape_html_entities(i.description.as_str());
    out.append(description.as_str());
    push_tagged_block(&mut out, "Keywords", &i.keywords, ", ");
    push_tagged_block(&mut out, "Categories", &i.categories, "\n");
    out.append("\n\n\u{2b07}\u{fe0f}");
    out.append(t.recent_downloads.as_str());
    out.append(" downloads recently (");
    out.append(t.downloads.as_str());
    out.append(" total)\n\u{1f4ca}");
    let deps = decimal_text(i.dependency_count);
    out.append(deps.as_str());
    out.append(" dependencies (");
    let dev = decimal_text(i.dev_dependency_count);
    out.append(dev.as_str());
    out.append(" for dev)\n\u{1f552} updated at ");
    out.append(t.updated_at.as_str());
    out.append(" (");
    out.append(t.updated_elapsed.as_str());
    out.append(")\n\u{1f552} created at ");
    out.append(t.created_at.as_str());
    out.append(" (");
    out.append(t.created_elapsed.as_str());
    out.append(")");
    out
}

} // verus!
