use ketera_bot::candidate::StructureType::{Function, Method, Module, Struct, Trait, TraitMethod};
use ketera_bot::candidate::{candidates, page_url, split_path, StructureType};
use ketera_bot::document::ListingKind;
use ketera_bot::origin::{get_std_rs, origin_from_redirect};
use ketera_bot::resolve::{choose_document, is_success, page_outcome, plan_resolution, PageOutcome, ResolveError};

const TRAIT_PAGE: &str = r#"<!DOCTYPE html><html><body><section id="main">
<h1 class="fqn"><span class="in-band">Trait <a class="mod" href="">serde</a>::<a class="trait" href="">Deserialize</a></span></h1>
<div class="type_decl"><pre class="rust trait">pub trait Deserialize&lt;'de&gt;: Sized</pre></div>
<div class="docblock"><p>A data structure that can be deserialized.</p></div>
<h2 id="required-methods">Required methods</h2>
<div class="methods"><h3 id="tymethod.deserialize" class="method"><code>fn deserialize&lt;D&gt;(deserializer: D)</code></h3></div>
<h2 id="provided-methods">Provided methods</h2>
<div class="methods"></div>
<h2 id="implementors">Implementors</h2>
<div id="implementors-list"><h3 class="impl"><code class="in-band">impl Deserialize for bool</code></h3></div>
</section></body></html>"#;

fn shapes(path: &str) -> Vec<StructureType> {
    candidates(&split_path(path)).iter().map(|c| c.structure_type).collect()
}

fn code(body: &str) -> String {
    format!("<pre><code class=\"language-rust\">{}</code></pre>", body)
}

#[test]
fn split_path_on_double_colons() {
    assert_eq!(split_path("serde::de::Deserialize"), vec!["serde", "de", "Deserialize"]);
    assert_eq!(split_path("std"), vec!["std"]);
    assert_eq!(split_path(""), vec![""]);
    assert_eq!(split_path("a:b::c"), vec!["a:b", "c"]);
    assert_eq!(split_path("a:::b"), vec!["a", ":b"]);
    assert_eq!(split_path("a::"), vec!["a", ""]);
}

#[test]
fn candidate_set_sizes_follow_path_length() {
    assert_eq!(shapes("std"), vec![Module]);
    assert_eq!(shapes("serde::Deserialize"), vec![Module, Function, Struct, Trait]);
    assert_eq!(shapes("a::b::c"), vec![Module, Function, Struct, Trait, Method, TraitMethod]);
    assert_eq!(shapes("a::b::c::d::e").len(), 6);
}

#[test]
fn candidates_split_module_and_name() {
    let cs = candidates(&split_path("serde::de::Visitor"));
    assert_eq!(cs[0].module, vec!["serde", "de", "Visitor"]);
    assert_eq!(cs[1].module, vec!["serde", "de"]);
    assert_eq!(cs[4].module, vec!["serde", "de"]);
    assert!(cs.iter().all(|c| c.name == "Visitor"));
}

#[test]
fn page_urls_per_shape() {
    let origin = "https://docs.rs/serde/1.0.0/serde/";
    let urls: Vec<String> = candidates(&split_path("serde::de::Visitor")).iter().map(|c| page_url(origin, c)).collect();
    assert_eq!(
        urls,
        vec![
            "https://docs.rs/serde/1.0.0/serde/de/Visitor/index.html",
            "https://docs.rs/serde/1.0.0/serde/de/fn.Visitor.html",
            "https://docs.rs/serde/1.0.0/serde/de/struct.Visitor.html",
            "https://docs.rs/serde/1.0.0/serde/de/trait.Visitor.html",
            "https://docs.rs/serde/1.0.0/serde/struct.de.html",
            "https://docs.rs/serde/1.0.0/serde/trait.de.html",
        ]
    );
    let root: Vec<String> = candidates(&split_path("std")).iter().map(|c| page_url("https://doc.rust-lang.org/stable/std/", c)).collect();
    assert_eq!(root, vec!["https://doc.rust-lang.org/stable/std/index.html"]);
    let two: Vec<String> = candidates(&split_path("serde::Deserialize")).iter().map(|c| page_url("o/", c)).collect();
    assert_eq!(two, vec!["o/Deserialize/index.html", "o/fn.Deserialize.html", "o/struct.Deserialize.html", "o/trait.Deserialize.html"]);
}

#[test]
fn builtin_crates_need_no_redirect() {
    assert_eq!(get_std_rs("std"), Some("https://doc.rust-lang.org/stable/std/".to_string()));
    assert_eq!(get_std_rs("proc_macro"), Some("https://doc.rust-lang.org/stable/proc_macro/".to_string()));
    assert_eq!(get_std_rs("core"), Some("https://doc.rust-lang.org/stable/core/".to_string()));
    assert_eq!(get_std_rs("serde"), None);
    assert_eq!(get_std_rs("Std"), None);
}

#[test]
fn redirect_location_becomes_the_origin() {
    assert_eq!(
        origin_from_redirect(302, Some("https://docs.rs/serde/1.0.1/serde")),
        Some("https://docs.rs/serde/1.0.1/serde/".to_string())
    );
    assert_eq!(
        origin_from_redirect(302, Some("https://docs.rs/serde/1.0.1/serde/")),
        Some("https://docs.rs/serde/1.0.1/serde/".to_string())
    );
    assert_eq!(origin_from_redirect(302, Some("")), Some("/".to_string()));
    assert_eq!(origin_from_redirect(200, Some("https://docs.rs/x/")), None);
    assert_eq!(origin_from_redirect(404, None), None);
    assert_eq!(origin_from_redirect(302, None), None);
}

#[test]
fn status_classification() {
    assert!(is_success(200));
    assert!(is_success(299));
    assert!(!is_success(302));
    assert!(!is_success(404));
    assert!(!is_success(199));
    assert_eq!(page_outcome(404, None), PageOutcome::Absent);
    assert_eq!(page_outcome(500, Some("x".to_string())), PageOutcome::Absent);
    assert_eq!(page_outcome(200, Some("x".to_string())), PageOutcome::Found("x".to_string()));
    assert_eq!(page_outcome(200, None), PageOutcome::Failed);
}

#[test]
fn plan_for_empty_and_simple_paths() {
    assert!(plan_resolution("").is_none());
    let (name, cs) = plan_resolution("std").unwrap();
    assert_eq!(name, "std");
    assert_eq!(cs.len(), 1);
    assert_eq!(cs[0].structure_type, StructureType::Module);
    let (name, cs) = plan_resolution("serde::Deserialize").unwrap();
    assert_eq!(name, "serde");
    assert_eq!(cs.len(), 4);
}

#[test]
fn all_absent_pages_mean_not_found() {
    let (_, cs) = plan_resolution("serde::Deserialize").unwrap();
    let outcomes = vec![PageOutcome::Absent; cs.len()];
    assert_eq!(choose_document(&cs, &outcomes), Ok(None));
    let (_, six) = plan_resolution("a::b::c").unwrap();
    assert_eq!(choose_document(&six, &vec![PageOutcome::Absent; 6]), Ok(None));
}

#[test]
fn a_transport_failure_fails_the_resolution() {
    let (_, cs) = plan_resolution("serde::Deserialize").unwrap();
    let outcomes = vec![
        PageOutcome::Absent,
        PageOutcome::Failed,
        PageOutcome::Absent,
        PageOutcome::Found(TRAIT_PAGE.to_string()),
    ];
    assert_eq!(choose_document(&cs, &outcomes), Err(ResolveError::TransportFailure));
}

#[test]
fn trait_candidate_wins_when_only_it_exists() {
    // Outcomes are handed over in candidate order, whatever order the fetches completed in.
    let (_, cs) = plan_resolution("serde::Deserialize").unwrap();
    let outcomes = vec![
        PageOutcome::Absent,
        PageOutcome::Absent,
        PageOutcome::Absent,
        PageOutcome::Found(TRAIT_PAGE.to_string()),
    ];
    let doc = choose_document(&cs, &outcomes).unwrap().unwrap();
    assert_eq!(doc.title, "Trait serde::Deserialize");
    assert_eq!(doc.definition, Some(code("pub trait Deserialize&lt;'de&gt;: Sized")));
    assert_eq!(doc.description, "A data structure that can be deserialized.");
    let kinds: Vec<ListingKind> = doc.listings.iter().map(|l| l.kind).collect();
    assert_eq!(kinds, vec![ListingKind::RequiredMethods, ListingKind::Implementors]);
    assert_eq!(doc.listings[0].entries[0].name, code("fn deserialize&lt;D&gt;(deserializer: D)"));
    assert_eq!(doc.listings[1].entries[0].name, code("impl Deserialize for bool"));
}

#[test]
fn a_found_page_without_the_shape_does_not_win() {
    let (_, cs) = plan_resolution("serde::Deserialize").unwrap();
    let outcomes = vec![
        PageOutcome::Found("<html><body>not a documentation page</body></html>".to_string()),
        PageOutcome::Absent,
        PageOutcome::Absent,
        PageOutcome::Found(TRAIT_PAGE.to_string()),
    ];
    let doc = choose_document(&cs, &outcomes).unwrap().unwrap();
    assert_eq!(doc.title, "Trait serde::Deserialize");
}

#[test]
fn earlier_candidate_wins_over_later_ones() {
    let (_, cs) = plan_resolution("serde::Deserialize").unwrap();
    let module_page = TRAIT_PAGE.replace("Trait <a", "Module <a");
    let outcomes = vec![
        PageOutcome::Found(module_page),
        PageOutcome::Absent,
        PageOutcome::Absent,
        PageOutcome::Found(TRAIT_PAGE.to_string()),
    ];
    let doc = choose_document(&cs, &outcomes).unwrap().unwrap();
    assert_eq!(doc.title, "Module serde::Deserialize");
}

#[test]
fn trait_method_resolves_on_its_trait_page() {
    let (crate_name, cs) = plan_resolution("serde::Deserialize::deserialize").unwrap();
    assert_eq!(crate_name, "serde");
    assert_eq!(page_url("o/", &cs[5]), "o/trait.Deserialize.html");
    let mut outcomes = vec![PageOutcome::Absent; 6];
    outcomes[5] = PageOutcome::Found(TRAIT_PAGE.to_string());
    let doc = choose_document(&cs, &outcomes).unwrap().unwrap();
    assert_eq!(doc.title, "Trait serde::Deserialize");
    assert_eq!(doc.definition, Some(code("fn deserialize&lt;D&gt;(deserializer: D)")));
    assert_eq!(doc.description, "");
    assert!(doc.sections.is_empty());
    assert!(doc.listings.is_empty());
}
