use ketera_bot::candidate::{candidates, page_url, split_path, CrateStructure, StructureType};
use ketera_bot::origin::get_std_rs;
use ketera_bot::resolve::{choose_document, plan_resolution, PageOutcome};
use ketera_bot::document::{Article, CrateDocument, ListingKind, SubDocument};
use ketera_bot::extract::extract_page;
use ketera_bot::page::Element;
use ketera_bot::sections::{code_node_text, parse_document_paragraph, split_sections};
use ketera_bot::text::{escape_html_entities, join_lines};

const MODULE_PAGE: &str = r##"<!DOCTYPE html><html><head><title>std</title></head><body>
<section id="main">
<h1 class="fqn"><span class="in-band">Crate <a class="mod" href="">std</a></span></h1>
<div class="docblock"><p>The Rust Standard Library</p><h1 id="how">How to read this</h1><p>Start with the <a href="#primitives">primitives</a>.</p><h1 id="more">More</h1><p>See <a href="https://www.rust-lang.org/">the site</a>.</p></div>
<h2 id="modules" class="section-header">Modules</h2>
<table><tr class="module-item"><td><a class="mod" href="alloc/index.html">alloc</a></td><td class="docblock-short"><p>Memory allocation APIs</p></td></tr>
<tr class="module-item"><td><a class="mod" href="any/index.html">any</a></td><td class="docblock-short"><span class="stab deprecated">Deprecated</span><p>Dynamic typing</p></td></tr></table>
<h2 id="structs" class="section-header">Structs</h2>
<table><tr><td><a class="struct" href="struct.String.html">String</a></td><td class="docblock-short"><p>A UTF-8 string</p></td></tr></table>
<h2 id="traits" class="section-header">Traits</h2>
<table><tr><td><a class="trait" href="trait.Clone.html">Clone</a></td><td class="docblock-short"><p>Explicit duplication</p></td></tr></table>
<h2 id="enums" class="section-header">Enums</h2>
<table><tr><td><a class="enum" href="enum.Option.html">Option</a></td><td class="docblock-short"><p>Optional values</p></td></tr></table>
<h2 id="macros" class="section-header">Macros</h2>
<table><tr><td><a class="macro" href="macro.vec.html">vec</a></td><td class="docblock-short"><span class="stab portability">std only</span><p>Creates a vector</p></td></tr></table>
<h2 id="functions" class="section-header">Functions</h2>
<table><tr><td><a class="fn" href="fn.drop.html">drop</a></td><td class="docblock-short"><span class="stab unstable">Experimental</span><p>Disposes of a value</p></td></tr></table>
<h2 id="attributes" class="section-header">Attributes</h2>
<table><tr><td><a class="attr" href="attr.test.html">test</a></td><td class="docblock-short"><p>Marks a test</p></td></tr></table>
<h2 id="consts" class="section-header">Constants</h2>
<table><tr><td><a class="constant" href="constant.MAX.html">MAX</a></td><td class="docblock-short"><p>The largest value</p></td></tr></table>
</section></body></html>"##;

const STRUCT_PAGE: &str = r##"<!DOCTYPE html><html><head><title>Widget</title></head><body>
<section id="main">
<h1 class="fqn"><span class="in-band">Struct <a class="mod" href="">demo</a>::<a class="struct" href="">Widget</a></span></h1>
<div class="stability"><div class="stab portability">This is supported on <strong>feature="gui"</strong> only.</div></div>
<div class="type_decl"><pre class="rust struct">pub struct Widget&lt;T&gt;<span> </span>where<span>
    T: Clone,</span> { /* fields omitted */ }</pre></div>
<div class="docblock"><p>A widget.</p><h1 id="methods">Methods</h1><p>Prose about methods.</p></div>
<h2 id="impl" class="small-section-header">Implementations</h2>
<div class="impl-items">
<h4 id="method.new" class="method"><code>pub fn new() -&gt; Widget</code></h4>
<div class="stability"><div class="stab unstable">Experimental (widgets #1)</div></div>
<div class="docblock"><p>Makes a widget.</p><h1 id="panics">Panics</h1><p>Never.</p></div>
<h4 id="method.size" class="method"><code>pub fn size(&amp;self) -&gt; usize</code></h4>
<div class="docblock"><p>Its size.</p></div>
<h4 id="method.bare" class="method"><code>pub fn bare(&amp;self)</code></h4>
</div>
<div id="implementations-list"><h3 class="impl"><code class="in-band">impl Clone for Widget</code></h3></div>
</section></body></html>"##;

fn candidate(path: &str, shape: StructureType) -> CrateStructure {
    let segments = split_path(path);
    candidates(&segments)
        .into_iter()
        .find(|c| c.structure_type == shape)
        .expect("the path admits this shape")
}

fn code(body: &str) -> String {
    format!("<pre><code class=\"language-rust\">{}</code></pre>", body)
}

fn element(name: &str, pieces: &[&str], inner_html: &str) -> Element {
    Element {
        name: name.to_string(),
        classes: vec![],
        pieces: pieces.iter().map(|p| p.to_string()).collect(),
        inner_html: inner_html.to_string(),
    }
}

#[test]
fn escape_replaces_the_three_entities() {
    assert_eq!(escape_html_entities("a<b>&c"), "a&lt;b&gt;&amp;c");
    assert_eq!(escape_html_entities("&amp;"), "&amp;amp;");
    assert_eq!(escape_html_entities(""), "");
    assert_eq!(escape_html_entities("plain"), "plain");
}

#[test]
fn join_lines_puts_newlines_between() {
    assert_eq!(join_lines(&vec![]), "");
    assert_eq!(join_lines(&vec!["a".to_string()]), "a");
    assert_eq!(join_lines(&vec!["a".to_string(), "".to_string(), "c".to_string()]), "a\n\nc");
}

#[test]
fn code_block_reflows_where_and_indented_pieces() {
    let pieces = vec!["pub fn f<T>()".to_string(), "where".to_string(), " T: Clone".to_string()];
    assert_eq!(code_node_text(&pieces), code("pub fn f&lt;T&gt;()\nwhere\n T: Clone"));
    let tabbed = vec!["a".to_string(), "\tb".to_string(), "\u{3000}c".to_string(), "wherever".to_string()];
    assert_eq!(code_node_text(&tabbed), code("a\n\tb\n\u{3000}cwherever"));
}

#[test]
fn paragraph_unwraps_links_into_the_page() {
    let p = element("p", &["See foo"], "See <a href=\"#foo\">foo</a>");
    assert_eq!(parse_document_paragraph(&p), Some("See foo".to_string()));
    let absolute = element("p", &["x"], "<a href=\"https://x.org\">x</a>");
    assert_eq!(parse_document_paragraph(&absolute), Some("<a href=\"https://x.org\">x</a>".to_string()));
    let block = element("div", &["let a = b < c;"], "ignored");
    assert_eq!(parse_document_paragraph(&block), Some(code("let a = b &lt; c;")));
    let other = element("ul", &["item"], "<li>item</li>");
    assert_eq!(parse_document_paragraph(&other), None);
}

#[test]
fn sections_follow_page_order() {
    let blocks = vec![
        element("p", &["intro"], "intro"),
        element("h1", &["H1"], "H1"),
        element("p", &["a"], "a"),
        element("p", &["a2"], "a2"),
        element("h1", &["H", "2"], "H2"),
        element("p", &["b"], "b"),
    ];
    let (description, sections) = split_sections(&blocks);
    assert_eq!(description, "intro");
    assert_eq!(
        sections,
        vec![
            ("H1".to_string(), Article::Text("a\na2".to_string())),
            ("H2".to_string(), Article::Text("b".to_string())),
        ]
    );
}

#[test]
fn sections_without_headings_are_all_description() {
    let blocks = vec![element("p", &["one"], "one"), element("p", &["two"], "two")];
    let (description, sections) = split_sections(&blocks);
    assert_eq!(description, "one\ntwo");
    assert!(sections.is_empty());
    let (empty, none) = split_sections(&vec![]);
    assert_eq!(empty, "");
    assert!(none.is_empty());
}

#[test]
fn heading_first_leaves_description_empty() {
    let blocks = vec![element("h1", &["Only"], "Only"), element("p", &["body"], "body")];
    let (description, sections) = split_sections(&blocks);
    assert_eq!(description, "");
    assert_eq!(sections, vec![("Only".to_string(), Article::Text("body".to_string()))]);
}

#[test]
fn module_page_has_the_eight_listings() {
    let page = MODULE_PAGE;
    let doc = extract_page(page, &candidate("std", StructureType::Module)).unwrap();
    assert_eq!(doc.title, "Crate std");
    assert_eq!(doc.definition, None);
    assert_eq!(doc.description, "The Rust Standard Library");
    assert_eq!(
        doc.sections,
        vec![
            ("How to read this".to_string(), Article::Text("Start with the primitives.".to_string())),
            ("More".to_string(), Article::Text("See <a href=\"https://www.rust-lang.org/\">the site</a>.".to_string())),
        ]
    );
    let kinds: Vec<ListingKind> = doc.listings.iter().map(|l| l.kind).collect();
    assert_eq!(
        kinds,
        vec![
            ListingKind::Modules,
            ListingKind::Structs,
            ListingKind::Traits,
            ListingKind::Enums,
            ListingKind::Macros,
            ListingKind::Functions,
            ListingKind::Attributes,
            ListingKind::Constants,
        ]
    );
    assert_eq!(
        doc.listings[0].entries,
        vec![
            SubDocument {
                name: "alloc".to_string(),
                portability_note: None,
                stability_note: None,
                deprecated: false,
                summary: Some("Memory allocation APIs".to_string()),
            },
            SubDocument {
                name: "any".to_string(),
                portability_note: None,
                stability_note: None,
                deprecated: true,
                summary: Some("Dynamic typing".to_string()),
            },
        ]
    );
    assert_eq!(doc.listings[4].entries[0].portability_note, Some("std only".to_string()));
    assert_eq!(doc.listings[5].entries[0].stability_note, Some("Experimental".to_string()));
    assert_eq!(doc.listings[7].entries[0].name, "MAX");
}

#[test]
fn a_page_without_module_tables_has_no_module_listings() {
    let doc = extract_page(STRUCT_PAGE, &candidate("demo", StructureType::Module)).unwrap();
    assert_eq!(doc.title, "Struct demo::Widget");
    assert!(doc.listings.is_empty());
}

#[test]
fn struct_page_has_definition_notes_and_listings() {
    let page = STRUCT_PAGE;
    let doc = extract_page(page, &candidate("demo::Widget", StructureType::Struct)).unwrap();
    assert_eq!(doc.title, "Struct demo::Widget");
    assert_eq!(
        doc.definition,
        Some(code("pub struct Widget&lt;T&gt;\n \nwhere\n\n    T: Clone,\n { /* fields omitted */ }"))
    );
    assert_eq!(doc.portability_note, Some("This is supported on feature=\"gui\" only.".to_string()));
    assert_eq!(doc.stability_note, None);
    assert!(!doc.deprecated);
    assert_eq!(doc.description, "A widget.");
    assert_eq!(doc.sections, vec![("Methods".to_string(), Article::Text("Prose about methods.".to_string()))]);
    assert_eq!(doc.listings.len(), 2);
    assert_eq!(doc.listings[0].kind, ListingKind::Methods);
    let names: Vec<String> = doc.listings[0].entries.iter().map(|e| e.name.clone()).collect();
    assert_eq!(
        names,
        vec![code("pub fn new() -&gt; Widget"), code("pub fn size(&amp;self) -&gt; usize"), code("pub fn bare(&amp;self)")]
    );
    assert_eq!(doc.listings[1].kind, ListingKind::TraitImplementations);
    assert_eq!(doc.listings[1].entries[0].name, code("impl Clone for Widget"));
    assert_eq!(doc.listings[1].entries[0].summary, None);
}

#[test]
fn method_reads_its_adjacent_blocks() {
    let page = STRUCT_PAGE;
    let doc = extract_page(page, &candidate("demo::Widget::new", StructureType::Method)).unwrap();
    assert_eq!(doc.title, "Struct demo::Widget");
    assert_eq!(doc.definition, Some(code("pub fn new() -&gt; Widget")));
    assert_eq!(doc.stability_note, Some("Experimental (widgets #1)".to_string()));
    assert_eq!(doc.portability_note, None);
    assert_eq!(doc.description, "Makes a widget.");
    assert_eq!(doc.sections, vec![("Panics".to_string(), Article::Text("Never.".to_string()))]);
    assert!(doc.listings.is_empty());

    let size = extract_page(page, &candidate("demo::Widget::size", StructureType::Method)).unwrap();
    assert_eq!(size.stability_note, None);
    assert_eq!(size.description, "Its size.");
}

#[test]
fn method_without_description_has_an_empty_one() {
    let page = STRUCT_PAGE;
    let doc = extract_page(page, &candidate("demo::Widget::bare", StructureType::Method)).unwrap();
    assert_eq!(doc.definition, Some(code("pub fn bare(&amp;self)")));
    assert_eq!(doc.description, "");
    assert!(doc.sections.is_empty());
}

#[test]
fn missing_anchor_or_blocks_mean_absent() {
    let page = STRUCT_PAGE;
    assert!(extract_page(page, &candidate("demo::Widget::nothing", StructureType::Method)).is_none());
    assert!(extract_page(page, &candidate("demo::Widget::a b", StructureType::TraitMethod)).is_none());
    let bare = "<html><body><p>nothing here</p></body></html>";
    assert!(extract_page(bare, &candidate("demo::Widget", StructureType::Struct)).is_none());
}

#[test]
fn extracting_twice_gives_the_same_document() {
    let c = candidate("demo::Widget", StructureType::Struct);
    let first: Option<CrateDocument> = extract_page(STRUCT_PAGE, &c);
    let second = extract_page(STRUCT_PAGE, &c);
    assert!(first.is_some());
    assert_eq!(first, second);
}

#[test]
fn std_resolves_through_the_builtin_table() {
    let (crate_name, cs) = plan_resolution("std").unwrap();
    let origin = get_std_rs(&crate_name).unwrap();
    assert_eq!(cs.len(), 1);
    assert_eq!(cs[0].structure_type, StructureType::Module);
    assert_eq!(page_url(&origin, &cs[0]), "https://doc.rust-lang.org/stable/std/index.html");
    let doc = choose_document(&cs, &vec![PageOutcome::Found(MODULE_PAGE.to_string())]).unwrap().unwrap();
    assert_eq!(doc.title, "Crate std");
    let headings: Vec<String> = doc.listings.iter().map(|l| l.kind.heading()).collect();
    assert_eq!(
        headings,
        vec!["Modules", "Structs", "Traits", "Enums", "Macros", "Functions", "Attributes", "Constants"]
    );
}

#[test]
fn required_method_anchor_comes_before_provided() {
    let page = r##"<html><body><section id="main">
<h1 class="fqn"><span class="in-band">Trait <a>demo</a>::<a>Shape</a></span></h1>
<div class="docblock"><p>A shape.</p></div>
<h3 id="method.area" class="method"><code>fn area(&amp;self) -&gt; f64</code></h3>
<div class="docblock"><p>Provided area.</p></div>
<h3 id="tymethod.area" class="method"><code>fn area(&amp;self)</code></h3>
<div class="stability"><div class="stab deprecated">Deprecated since 1.0</div><div class="stab portability">unix</div></div>
<div class="docblock"><p>Required area.</p></div>
</section></body></html>"##;
    let doc = extract_page(page, &candidate("demo::Shape::area", StructureType::TraitMethod)).unwrap();
    assert_eq!(doc.definition, Some(code("fn area(&amp;self)")));
    assert_eq!(doc.description, "Required area.");
    assert!(doc.deprecated);
    assert_eq!(doc.portability_note, Some("unix".to_string()));
    assert_eq!(doc.stability_note, None);
}
