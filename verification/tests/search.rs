use find_crate::predicate::{ByName, ByNameAndVersion, Predicate};
use find_crate::search::{find, find_from_dependencies, find_in_tables};
use find_crate::{find_crate, Dependencies, Error, Manifest, Package};

fn table(text: &str) -> toml::value::Table {
    toml::from_str(text).unwrap()
}

#[test]
fn selector_tables() {
    assert_eq!(Dependencies::Default.as_slice(), ["dependencies", "dev-dependencies"]);
    assert_eq!(Dependencies::Release.as_slice(), ["dependencies"]);
    assert_eq!(Dependencies::Dev.as_slice(), ["dev-dependencies"]);
    assert_eq!(Dependencies::Build.as_slice(), ["build-dependencies"]);
    assert_eq!(
        Dependencies::All.as_slice(),
        ["dependencies", "dev-dependencies", "build-dependencies"]
    );
    assert_eq!(Dependencies::default(), Dependencies::Default);
}

#[test]
fn new_manifest_searches_default_tables() {
    let manifest = Manifest::from_toml(
        r#"
        [build-dependencies]
        foo = "1"
    "#,
    )
    .unwrap();
    assert_eq!(manifest.dependencies(), Dependencies::Default);
    assert_eq!(manifest.dependencies, Dependencies::Default);
    assert_eq!(manifest.find(|s| s == "foo"), None);
}

#[test]
fn release_never_finds_a_dev_dependency() {
    let mut manifest = Manifest::from_toml(
        r#"
        [dev-dependencies]
        foo = "0.1"

        [build-dependencies]
        foo = "0.2"

        [features]
        foo = []

        [other]
        foo = "9"
    "#,
    )
    .unwrap();
    manifest.set_dependencies(Dependencies::Release);
    assert_eq!(manifest.find(|_| true), None);
    manifest.set_dependencies(Dependencies::Dev);
    assert_eq!(manifest.find(|_| true).unwrap().version, "0.1");
    manifest.set_dependencies(Dependencies::Build);
    assert_eq!(manifest.find(|_| true).unwrap().version, "0.2");
}

#[test]
fn release_ignores_dev_tables_of_targets() {
    let mut manifest = Manifest::from_toml(
        r#"
        [target.a.dev-dependencies]
        foo = "0.1"

        [target.b.dependencies]
        bar = "0.2"
    "#,
    )
    .unwrap();
    manifest.set_dependencies(Dependencies::Release);
    assert_eq!(manifest.find(|s| s == "foo"), None);
    assert_eq!(manifest.find(|s| s == "bar").unwrap().version, "0.2");
}

#[test]
fn first_table_in_selector_order_wins() {
    let mut manifest = Manifest::from_toml(
        r#"
        [build-dependencies]
        foo = "3"

        [dev-dependencies]
        foo = "2"

        [dependencies]
        foo = "1"
    "#,
    )
    .unwrap();
    assert_eq!(manifest.find(|s| s == "foo").unwrap().version, "1");
    manifest.set_dependencies(Dependencies::All);
    assert_eq!(manifest.find(|s| s == "foo").unwrap().version, "1");
    manifest.set_dependencies(Dependencies::Dev);
    assert_eq!(manifest.find(|s| s == "foo").unwrap().version, "2");
}

#[test]
fn later_table_is_searched_when_the_first_has_no_match() {
    let mut manifest = Manifest::from_toml(
        r#"
        [dependencies]
        foo = "1"

        [dev-dependencies]
        bar = "2"

        [build-dependencies]
        baz = "3"
    "#,
    )
    .unwrap();
    assert_eq!(manifest.find(|s| s == "bar").unwrap().version, "2");
    assert_eq!(manifest.find(|s| s == "baz"), None);
    manifest.set_dependencies(Dependencies::All);
    assert_eq!(manifest.find(|s| s == "baz").unwrap().version, "3");
}

#[test]
fn first_entry_in_document_order_wins() {
    let manifest = Manifest::from_toml(
        r#"
        [dependencies]
        zeta = "1"
        alpha = "2"
        mid = "3"
    "#,
    )
    .unwrap();
    let found = manifest.find(|_| true).unwrap();
    assert_eq!(found.name, "zeta");
    assert_eq!(found.version, "1");
    let found = manifest.find(|s| s != "zeta").unwrap();
    assert_eq!(found.name, "alpha");
    assert_eq!(found.version, "2");
}

#[test]
fn renamed_dependency_reports_both_names() {
    let manifest = Manifest::from_toml(
        r#"
        [dependencies]
        foo-renamed = { package = "foo", version = "0.1" }
    "#,
    )
    .unwrap();
    let found = manifest.find(|s| s == "foo").unwrap();
    assert_eq!(found.key, "foo-renamed");
    assert_eq!(found.name, "foo_renamed");
    assert_eq!(found.package.as_deref(), Some("foo"));
    assert_eq!(found.original_name(), "foo");
    assert_eq!(found.version, "0.1");
    assert_eq!(found, Package::new("foo-renamed", Some("foo"), "0.1"));
}

#[test]
fn renamed_dependency_found_by_its_key() {
    let manifest = Manifest::from_toml(
        r#"
        [dependencies]
        foo-renamed = { package = "foo", version = "0.1" }
    "#,
    )
    .unwrap();
    let found = manifest.find(|s| s == "foo-renamed").unwrap();
    assert_eq!(found.name, "foo_renamed");
    assert_eq!(found.package, None);
    assert_eq!(found.original_name(), "foo-renamed");
    assert_eq!(found.version, "0.1");
    assert_eq!(manifest.find(|s| s == "foo_renamed"), None);
}

#[test]
fn upstream_name_is_asked_before_the_key() {
    let manifest = Manifest::from_toml(
        r#"
        [dependencies]
        alias = { package = "upstream", version = "2" }
    "#,
    )
    .unwrap();
    let mut asked = Vec::new();
    let found = manifest.find_package(|name, version| {
        asked.push((name.to_string(), version.to_string()));
        false
    });
    assert_eq!(found, None);
    assert_eq!(
        asked,
        [("upstream".to_string(), "2".to_string()), ("alias".to_string(), "2".to_string())]
    );
}

#[test]
fn key_is_not_asked_once_the_upstream_name_matched() {
    let manifest = Manifest::from_toml(
        r#"
        [dependencies]
        alias = { package = "upstream", version = "2" }
    "#,
    )
    .unwrap();
    let mut asked = Vec::new();
    let found = manifest.find(|name| {
        asked.push(name.to_string());
        true
    });
    assert_eq!(found, Some(Package::new("alias", Some("upstream"), "2")));
    assert_eq!(asked, ["upstream"]);
}

#[test]
fn search_stops_at_the_first_match() {
    let manifest = Manifest::from_toml(
        r#"
        [dependencies]
        a = "1"
        b = "2"
        c = "3"
    "#,
    )
    .unwrap();
    let mut asked = 0;
    let found = manifest.find_package(|name, _| {
        asked += 1;
        name == "b"
    });
    assert_eq!(found.unwrap().name, "b");
    assert_eq!(asked, 2);
}

#[test]
fn one_argument_form_may_keep_state() {
    let manifest = Manifest::from_toml(
        r#"
        [dependencies]
        a = "1"
        b = "2"
        c = "3"
    "#,
    )
    .unwrap();
    let mut asked = Vec::new();
    let found = manifest.find(|name| {
        asked.push(name.to_string());
        name == "b"
    });
    assert_eq!(found.unwrap().version, "2");
    assert_eq!(asked, ["a", "b"]);
}

#[test]
fn bare_version_equals_version_field() {
    let bare = Manifest::from_toml(
        r#"
        [dependencies]
        foo = "1.2"
    "#,
    )
    .unwrap();
    let long = Manifest::from_toml(
        r#"
        [dependencies]
        foo = { version = "1.2" }
    "#,
    )
    .unwrap();
    assert_eq!(bare.find(|s| s == "foo"), long.find(|s| s == "foo"));
    assert_eq!(bare.find(|s| s == "foo").unwrap().version, "1.2");
    assert_eq!(
        bare.find_package(|s, v| s == "foo" && v == "1.2"),
        long.find_package(|s, v| s == "foo" && v == "1.2")
    );
    assert_eq!(long.find_package(|s, v| s == "foo" && v == "1.3"), None);
}

#[test]
fn missing_version_is_a_star() {
    let manifest = Manifest::from_toml(
        r#"
        [dependencies]
        a = { path = ".." }
        b = { version = 1 }
        c = 3
        d = { package = "e" }
    "#,
    )
    .unwrap();
    assert_eq!(manifest.find(|s| s == "a").unwrap().version, "*");
    assert_eq!(manifest.find(|s| s == "b").unwrap().version, "*");
    assert_eq!(manifest.find(|s| s == "c").unwrap().version, "*");
    let found = manifest.find_package(|s, v| s == "e" && v == "*").unwrap();
    assert_eq!(found.name, "d");
    assert_eq!(found.original_name(), "e");
}

#[test]
fn package_that_is_no_string_is_no_rename() {
    let manifest = Manifest::from_toml(
        r#"
        [dependencies]
        foo = { package = 1, version = "2" }
    "#,
    )
    .unwrap();
    let found = manifest.find(|s| s == "foo").unwrap();
    assert_eq!(found.package, None);
    assert_eq!(found.version, "2");
}

#[test]
fn top_level_wins_over_target() {
    let manifest = Manifest::from_toml(
        r#"
        [target.'cfg(unix)'.dependencies]
        foo = "0.1"

        [dev-dependencies]
        foo = "0.2"
    "#,
    )
    .unwrap();
    assert_eq!(manifest.find(|s| s == "foo").unwrap().version, "0.2");
}

#[test]
fn targets_are_searched_one_after_the_other() {
    let manifest = Manifest::from_toml(
        r#"
        [target.a.dev-dependencies]
        foo = "1"

        [target.b.dependencies]
        foo = "2"
    "#,
    )
    .unwrap();
    assert_eq!(manifest.find(|s| s == "foo").unwrap().version, "1");
}

#[test]
fn target_that_is_no_table_is_passed_over() {
    let manifest = Manifest::from_toml(
        r#"
        [target]
        a = 1

        [target.b.dependencies]
        foo = "2"
    "#,
    )
    .unwrap();
    assert_eq!(manifest.find(|s| s == "foo").unwrap().version, "2");
    let manifest = Manifest::from_toml("target = \"x\"").unwrap();
    assert_eq!(manifest.find(|_| true), None);
    let manifest = Manifest::from_toml("dependencies = \"x\"").unwrap();
    assert_eq!(manifest.find(|_| true), None);
}

#[test]
fn empty_manifest_holds_nothing() {
    let manifest = Manifest::from_toml("").unwrap();
    assert_eq!(manifest.find(|_| true), None);
    assert_eq!(manifest.find_package(|_, _| true), None);
}

#[test]
fn one_argument_form_ignores_the_version() {
    let manifest = Manifest::from_toml(
        r#"
        [dependencies]
        foo = "0.1"
        bar = "0.2"
    "#,
    )
    .unwrap();
    assert_eq!(manifest.find(|s| s == "bar"), manifest.find_package(|s, _| s == "bar"));
    assert_eq!(manifest.find(|s| s == "baz"), manifest.find_package(|s, _| s == "baz"));
}

#[test]
fn clone_answers_as_its_source() {
    let mut manifest = Manifest::from_toml(
        r#"
        [dev-dependencies]
        foo = "0.1"
    "#,
    )
    .unwrap();
    manifest.set_dependencies(Dependencies::Dev);
    let copy = manifest.clone();
    assert_eq!(copy.dependencies(), Dependencies::Dev);
    assert_eq!(copy.find(|s| s == "foo"), manifest.find(|s| s == "foo"));
    assert_eq!(copy.find(|s| s == "foo").unwrap().version, "0.1");
}

#[test]
fn predicates_of_both_forms() {
    let mut by_name = ByName(|name: &str| name == "foo");
    assert!(by_name.ask("foo", "1"));
    assert!(by_name.ask("foo", "2"));
    assert!(!by_name.ask("bar", "1"));
    let mut by_both = ByNameAndVersion(|name: &str, version: &str| name == "foo" && version == "1");
    assert!(by_both.ask("foo", "1"));
    assert!(!by_both.ask("foo", "2"));
    assert!(!by_both.ask("bar", "1"));
}

#[test]
fn one_table_is_searched_in_order() {
    let entries = table(
        r#"
        b = "2"
        a-x = { package = "a", version = "1" }
    "#,
    );
    let mut by_name = ByName(|name: &str| name == "a");
    assert_eq!(
        find_from_dependencies(&entries, &mut by_name),
        Some(Package::new("a-x", Some("a"), "1"))
    );
    let mut any = ByNameAndVersion(|_: &str, _: &str| true);
    assert_eq!(find_from_dependencies(&entries, &mut any), Some(Package::new("b", None, "2")));
    let mut none = ByNameAndVersion(|_: &str, _: &str| false);
    assert_eq!(find_from_dependencies(&entries, &mut none), None);
    let mut by_version = ByNameAndVersion(|_: &str, version: &str| version == "1");
    assert_eq!(
        find_from_dependencies(&entries, &mut by_version),
        Some(Package::new("a-x", Some("a"), "1"))
    );
}

#[test]
fn tables_are_probed_in_the_order_of_the_names() {
    let document = table(
        r#"
        [one]
        foo = "1"

        [two]
        foo = "2"

        [three]
        foo = "3"
    "#,
    );
    let mut any = ByName(|_: &str| true);
    assert_eq!(find_in_tables(&document, &["two", "one"], &mut any).unwrap().version, "2");
    assert_eq!(find_in_tables(&document, &["four", "three"], &mut any).unwrap().version, "3");
    assert_eq!(find_in_tables(&document, &["four"], &mut any), None);
    assert_eq!(find_in_tables(&document, &[], &mut any), None);
}

#[test]
fn whole_manifest_search() {
    let document = table(
        r#"
        [dependencies]
        foo = "1"

        [target.t.dependencies]
        bar = "2"

        [target.t.build-dependencies]
        baz = "3"
    "#,
    );
    let mut bar = ByName(|name: &str| name == "bar");
    assert_eq!(
        find(&document, Dependencies::Default, &mut bar),
        Some(Package::new("bar", None, "2"))
    );
    let mut baz = ByName(|name: &str| name == "baz");
    assert_eq!(find(&document, Dependencies::Default, &mut baz), None);
    assert_eq!(find(&document, Dependencies::All, &mut baz), Some(Package::new("baz", None, "3")));
}

#[test]
fn find_crate_on_a_text() {
    let text = r#"
        [dependencies]
        foo-core = "0.3"

        [build-dependencies]
        bar = "1"
    "#;
    let found = find_crate(text, |s| s == "foo" || s == "foo-core").unwrap();
    assert_eq!(found.name, "foo_core");
    assert_eq!(found.version, "0.3");
    assert_eq!(found.original_name(), "foo-core");
    assert!(matches!(find_crate(text, |s| s == "bar"), Err(Error::NotFound)));
    assert!(matches!(find_crate("[dependencies", |_| true), Err(Error::Toml(_))));
}
