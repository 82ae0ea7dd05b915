use ketera_bot::text::decimal_text;
use ketera_bot::crates::{
    build_information, count_dev_dependencies, find_version, information_text, CrateCategory,
    CrateDependencies, CrateDependency, CrateKeyword, CrateSummary, CrateUser, CrateVersion, InformationTexts,
};

fn version(v: &str, size: Option<usize>, license: Option<&str>) -> CrateVersion {
    CrateVersion { version: v.to_string(), crate_size: size, license: license.map(String::from) }
}

fn summary() -> CrateSummary {
    CrateSummary {
        name: "serde".to_string(),
        updated_at: 1_600_000_000,
        created_at: 1_400_000_000,
        downloads: 100,
        recent_downloads: 10,
        newest_version: "1.0.1".to_string(),
        description: "A serialization framework".to_string(),
        homepage: Some("https://serde.rs".to_string()),
        documentation: None,
        repository: None,
    }
}

fn deps(kinds: &[&str]) -> CrateDependencies {
    CrateDependencies { dependencies: kinds.iter().map(|k| CrateDependency { kind: k.to_string() }).collect() }
}

#[test]
fn find_version_takes_the_first_match() {
    let versions = vec![version("1.0.2", None, None), version("1.0.1", Some(3), None), version("1.0.1", Some(4), None)];
    assert_eq!(find_version(&versions, "1.0.1"), Some(1));
    assert_eq!(find_version(&versions, "2.0.0"), None);
    assert_eq!(find_version(&vec![], "1.0.1"), None);
}

#[test]
fn dev_dependencies_are_counted() {
    assert_eq!(count_dev_dependencies(&deps(&["normal", "dev", "build", "dev"])), 2);
    assert_eq!(count_dev_dependencies(&deps(&[])), 0);
    assert_eq!(count_dev_dependencies(&deps(&["Dev", ""])), 0);
}

#[test]
fn information_combines_the_records() {
    let owner = vec![CrateUser { name: Some("dtolnay".to_string()), url: "https://github.com/dtolnay".to_string() }];
    let keywords = vec![CrateKeyword { keyword: "serde".to_string() }, CrateKeyword { keyword: "no_std".to_string() }];
    let categories = vec![CrateCategory { category: "encoding".to_string() }];
    let info = build_information(
        summary(),
        &version("1.0.1", None, Some("MIT")),
        owner.clone(),
        &deps(&["normal", "dev"]),
        &keywords,
        &categories,
    );
    assert_eq!(info.name, "serde");
    assert_eq!(info.crate_size, 0);
    assert_eq!(info.license, Some("MIT".to_string()));
    assert_eq!(info.dependency_count, 2);
    assert_eq!(info.dev_dependency_count, 1);
    assert_eq!(info.keywords, vec!["serde", "no_std"]);
    assert_eq!(info.categories, vec!["encoding"]);
    assert_eq!(info.owner, owner);
    assert_eq!(info.updated_at, 1_600_000_000);
    let sized = build_information(summary(), &version("1.0.1", Some(77), None), vec![], &deps(&[]), &vec![], &vec![]);
    assert_eq!(sized.crate_size, 77);
    assert_eq!(sized.license, None);
}

#[test]
fn decimal_text_writes_digits() {
    assert_eq!(decimal_text(0), "0");
    assert_eq!(decimal_text(7), "7");
    assert_eq!(decimal_text(10), "10");
    assert_eq!(decimal_text(1234567890), "1234567890");
    assert_eq!(decimal_text(usize::MAX), usize::MAX.to_string());
}

fn texts() -> InformationTexts {
    InformationTexts {
        size: "12.3k".to_string(),
        recent_downloads: "1.0M".to_string(),
        downloads: "2.0G".to_string(),
        updated_at: "2020-09-13 UTC".to_string(),
        created_at: "2014-05-13 UTC".to_string(),
        updated_elapsed: "a month ago".to_string(),
        created_elapsed: "6 years ago".to_string(),
    }
}

#[test]
fn information_text_lays_out_the_summary() {
    let owner = vec![
        CrateUser { name: Some("dtolnay".to_string()), url: "https://github.com/dtolnay".to_string() },
        CrateUser { name: None, url: "u".to_string() },
        CrateUser { name: None, url: "v".to_string() },
    ];
    let keywords = vec![CrateKeyword { keyword: "serde".to_string() }, CrateKeyword { keyword: "no_std".to_string() }];
    let categories = vec![CrateCategory { category: "encoding".to_string() }, CrateCategory { category: "no-std".to_string() }];
    let mut s = summary();
    s.description = "Fast & <small>".to_string();
    let info = build_information(s, &version("1.0.1", Some(12300), Some("MIT")), owner, &deps(&["dev", "normal", "dev"]), &keywords, &categories);
    assert_eq!(
        information_text(&info, &texts()),
        "<b>serde</b> <i>1.0.1</i> (12.3kB) by <a href=\"https://github.com/dtolnay\">dtolnay</a> and 2 others\n\
         MIT License\n\n\
         Fast &amp; &lt;small&gt;\n\n<b>Keywords</b>\n<i>serde, no_std</i>\n\n<b>Categories</b>\n<i>encoding\nno-std</i>\n\n\
         \u{2b07}\u{fe0f}1.0M downloads recently (2.0G total)\n\
         \u{1f4ca}3 dependencies (2 for dev)\n\
         \u{1f552} updated at 2020-09-13 UTC (a month ago)\n\
         \u{1f552} created at 2014-05-13 UTC (6 years ago)"
    );
}

#[test]
fn information_text_without_extras() {
    let owner = vec![CrateUser { name: None, url: "https://x".to_string() }];
    let info = build_information(summary(), &version("1.0.1", None, None), owner, &deps(&[]), &vec![], &vec![]);
    let text = information_text(&info, &texts());
    assert!(text.starts_with("<b>serde</b> <i>1.0.1</i> (12.3kB) by <a href=\"https://x\">&lt;anonymous&gt;</a>\nNo License\n\nA serialization framework\n\n"));
    assert!(text.contains("\u{1f4ca}0 dependencies (0 for dev)"));
    let nobody = build_information(summary(), &version("1.0.1", None, None), vec![], &deps(&[]), &vec![], &vec![]);
    assert!(information_text(&nobody, &texts()).contains(" by &lt;anonymous&gt;\nNo License"));
}
