use sip::language::Language;
use sip::package::PackageRecord;
use sip::registry::Registry;
use sip::score::TrustScore;

fn record(name: &str, version: &str, score: f64) -> PackageRecord {
    PackageRecord {
        name: name.to_string(),
        version: version.to_string(),
        hash: format!("sha256:{}", name),
        trust_score: TrustScore::from_bits(score.to_bits()),
        endorsed_by: vec!["user".to_string()],
        last_reviewed: "2024-05-01".to_string(),
        source: Some(format!("https://example.org/{}", name)),
    }
}

fn names(listed: &Vec<&PackageRecord>) -> Vec<String> {
    listed.iter().map(|r| r.name.clone()).collect()
}

fn same(a: &PackageRecord, b: &PackageRecord) -> bool {
    a.name == b.name
        && a.version == b.version
        && a.hash == b.hash
        && a.trust_score == b.trust_score
        && a.endorsed_by == b.endorsed_by
        && a.last_reviewed == b.last_reviewed
        && a.source == b.source
}

#[test]
fn empty_registry_finds_nothing() {
    let registry = Registry::empty();
    for lang in Language::all() {
        assert!(registry.lookup_package("requests", &lang).is_none());
        assert!(registry.list_packages(Some(&lang)).is_empty());
    }
    assert!(registry.list_packages(None).is_empty());
}

#[test]
fn inserted_record_is_found_in_its_ecosystem_only() {
    for lang in Language::all() {
        let mut registry = Registry::empty();
        let inserted = record("serde", "1.0.0", 9.5);
        registry.add_package(inserted.clone(), &lang);
        let found = registry.lookup_package("serde", &lang).expect("present");
        assert!(same(found, &inserted));
        for other in Language::all() {
            if other != lang {
                assert!(registry.lookup_package("serde", &other).is_none());
            }
        }
    }
}

#[test]
fn lookup_is_exact_and_case_sensitive() {
    let mut registry = Registry::empty();
    registry.add_package(record("Flask", "3.0", 8.0), &Language::Python);
    assert!(registry.lookup_package("Flask", &Language::Python).is_some());
    assert!(registry.lookup_package("flask", &Language::Python).is_none());
    assert!(registry.lookup_package("Flas", &Language::Python).is_none());
    assert!(registry.lookup_package("Flask ", &Language::Python).is_none());
    assert!(registry.lookup_package("", &Language::Python).is_none());
}

#[test]
fn second_insert_replaces_the_first() {
    let mut registry = Registry::empty();
    registry.add_package(record("numpy", "1.0", 5.0), &Language::Python);
    registry.add_package(record("pandas", "2.0", 6.0), &Language::Python);
    let after_first = registry.list_packages(Some(&Language::Python)).len();
    registry.add_package(record("numpy", "2.0", 9.0), &Language::Python);
    let listed = registry.list_packages(Some(&Language::Python));
    assert_eq!(listed.len(), after_first);
    assert_eq!(listed.iter().filter(|r| r.name == "numpy").count(), 1);
    let found = registry.lookup_package("numpy", &Language::Python).unwrap();
    assert!(same(found, &record("numpy", "2.0", 9.0)));
    assert_eq!(names(&listed), vec!["pandas", "numpy"]);
}

#[test]
fn remove_absent_name_changes_nothing() {
    let mut registry = Registry::empty();
    registry.add_package(record("tokio", "1.0", 9.0), &Language::Rust);
    assert!(!registry.remove_package("serde", &Language::Rust));
    assert!(!registry.remove_package("tokio", &Language::Python));
    assert_eq!(names(&registry.list_packages(None)), vec!["tokio"]);
}

#[test]
fn remove_present_name_removes_exactly_one_record() {
    let mut registry = Registry::empty();
    registry.add_package(record("a", "1", 1.0), &Language::Go);
    registry.add_package(record("b", "1", 1.0), &Language::Go);
    registry.add_package(record("c", "1", 1.0), &Language::Go);
    assert!(registry.remove_package("b", &Language::Go));
    assert_eq!(names(&registry.list_packages(Some(&Language::Go))), vec!["a", "c"]);
    assert!(registry.lookup_package("b", &Language::Go).is_none());
    assert!(!registry.remove_package("b", &Language::Go));
    assert_eq!(names(&registry.list_packages(Some(&Language::Go))), vec!["a", "c"]);
}

#[test]
fn list_without_ecosystem_concatenates_python_rust_go() {
    let mut registry = Registry::empty();
    registry.add_package(record("g1", "1", 1.0), &Language::Go);
    registry.add_package(record("r1", "1", 1.0), &Language::Rust);
    registry.add_package(record("p1", "1", 1.0), &Language::Python);
    registry.add_package(record("r2", "1", 1.0), &Language::Rust);
    registry.add_package(record("p2", "1", 1.0), &Language::Python);
    assert_eq!(names(&registry.list_packages(None)), vec!["p1", "p2", "r1", "r2", "g1"]);
    assert_eq!(names(&registry.list_packages(Some(&Language::Python))), vec!["p1", "p2"]);
    assert_eq!(names(&registry.list_packages(Some(&Language::Rust))), vec!["r1", "r2"]);
    assert_eq!(names(&registry.list_packages(Some(&Language::Go))), vec!["g1"]);
}

#[test]
fn same_name_lives_independently_in_each_ecosystem() {
    let mut registry = Registry::empty();
    registry.add_package(record("yaml", "1", 1.0), &Language::Python);
    registry.add_package(record("yaml", "2", 2.0), &Language::Rust);
    assert!(registry.remove_package("yaml", &Language::Python));
    assert_eq!(registry.lookup_package("yaml", &Language::Rust).unwrap().version, "2");
}

#[test]
fn collections_are_taken_over_as_they_are() {
    let python = vec![record("b", "1", 1.0), record("a", "1", 2.0)];
    let rust = vec![record("c", "1", 3.0)];
    let go: Vec<PackageRecord> = Vec::new();
    let registry = Registry::from_collections(python.clone(), rust, go);
    assert_eq!(names(&registry.list_packages(Some(&Language::Python))), vec!["b", "a"]);
    assert_eq!(names(&registry.list_packages(Some(&Language::Rust))), vec!["c"]);
    assert!(registry.list_packages(Some(&Language::Go)).is_empty());
    assert!(same(registry.lookup_package("a", &Language::Python).unwrap(), &python[1]));
    assert_eq!(registry.python_packages.len(), 2);
    assert_eq!(registry.rust_crates.len(), 1);
    assert!(registry.go_modules.is_empty());
}

#[test]
fn repeated_name_is_kept_and_the_first_record_is_found() {
    let python = vec![record("a", "1", 1.0), record("b", "1", 1.0), record("a", "2", 2.0)];
    let mut registry = Registry::from_collections(python, Vec::new(), Vec::new());
    assert_eq!(names(&registry.list_packages(Some(&Language::Python))), vec!["a", "b", "a"]);
    assert_eq!(registry.lookup_package("a", &Language::Python).unwrap().version, "1");
    assert!(registry.remove_package("a", &Language::Python));
    assert_eq!(names(&registry.list_packages(Some(&Language::Python))), vec!["b", "a"]);
    assert_eq!(registry.lookup_package("a", &Language::Python).unwrap().version, "2");
}

#[test]
fn insert_removes_every_record_of_the_name() {
    let python = vec![
        record("a", "1", 1.0),
        record("b", "1", 1.0),
        record("a", "2", 2.0),
        record("c", "1", 1.0),
        record("a", "3", 3.0),
    ];
    let mut registry = Registry::from_collections(python, Vec::new(), Vec::new());
    registry.add_package(record("a", "4", 4.0), &Language::Python);
    assert_eq!(names(&registry.list_packages(Some(&Language::Python))), vec!["b", "c", "a"]);
    assert_eq!(registry.lookup_package("a", &Language::Python).unwrap().version, "4");
}

#[test]
fn clone_keeps_every_field() {
    let original = record("left-pad", "1.3.0", 7.25);
    let copy = original.clone();
    assert!(same(&original, &copy));
    let mut bare = record("x", "1", 0.0);
    bare.source = None;
    bare.endorsed_by = Vec::new();
    assert!(same(&bare, &bare.clone()));
}
