use sip::language::Language;
use sip::package::PackageRecord;
use sip::registry::Registry;
use sip::schema::{
    compile, judge, may_hold_reference, parse_document, CompiledSchema, SchemaCompileError,
    RECORD_SCHEMA,
};
use sip::score::TrustScore;
use sip::store::{
    admit_document, check_document, choose_source, DocumentSet, LoadError, LocalOverrides,
    RegistryDocument,
};

const GOOD: &str = r#"[
  {"name": "requests", "version": "2.31.0", "hash": "sha256:aa", "trust_score": 9.5,
   "endorsed_by": ["user"], "last_reviewed": "2024-01-02", "source": "https://pypi.org/project/requests"},
  {"name": "flask", "version": "3.0.0", "hash": "sha256:bb", "trust_score": 7,
   "endorsed_by": [], "last_reviewed": "2024-01-03"}
]"#;

const NO_SCORE: &str = r#"[
  {"name": "requests", "version": "2.31.0", "hash": "sha256:aa",
   "endorsed_by": ["user"], "last_reviewed": "2024-01-02"}
]"#;

const TWO_FAULTS: &str = r#"[
  {"name": "requests", "version": 2, "hash": "sha256:aa", "trust_score": "high",
   "endorsed_by": ["user"], "last_reviewed": "2024-01-02"}
]"#;

fn schema() -> CompiledSchema {
    compile(RECORD_SCHEMA).expect("the bundled schema compiles")
}

fn record(name: &str, score: f64) -> PackageRecord {
    PackageRecord {
        name: name.to_string(),
        version: "1".to_string(),
        hash: "sha256:x".to_string(),
        trust_score: TrustScore::from_bits(score.to_bits()),
        endorsed_by: vec![],
        last_reviewed: "2024-01-02".to_string(),
        source: None,
    }
}

fn document(text: &str, names: &[&str]) -> RegistryDocument {
    RegistryDocument {
        text: text.to_string(),
        decoded: Ok(names.iter().map(|n| record(n, 1.0)).collect()),
    }
}

fn empty() -> RegistryDocument {
    document("[]", &[])
}

fn no_overrides() -> LocalOverrides {
    LocalOverrides { python: None, rust: None, go: None }
}

fn names(registry: &Registry, lang: Language) -> Vec<String> {
    registry.list_packages(Some(&lang)).iter().map(|r| r.name.clone()).collect()
}

#[test]
fn bundled_schema_compiles() {
    assert!(compile(RECORD_SCHEMA).is_ok());
}

#[test]
fn schema_that_is_no_json_does_not_compile() {
    assert!(matches!(compile("{ not json"), Err(SchemaCompileError::NotJson { .. })));
    assert!(matches!(compile(""), Err(SchemaCompileError::NotJson { .. })));
}

#[test]
fn json_that_is_no_schema_does_not_compile() {
    assert!(matches!(
        compile(r#"{"type": "no-such-type"}"#),
        Err(SchemaCompileError::NotASchema { .. })
    ));
    assert!(matches!(compile(r#"{"type": 12}"#), Err(SchemaCompileError::NotASchema { .. })));
}

#[test]
fn schema_with_a_reference_is_not_compiled() {
    assert!(matches!(compile(r##"{"$ref": "#"}"##), Err(SchemaCompileError::HasReference)));
    assert!(matches!(
        compile(r##"{"type": "array", "items": {"$ref": "#/definitions/record"}}"##),
        Err(SchemaCompileError::HasReference)
    ));
    assert!(matches!(
        compile("{\"\\u0024ref\": \"#\"}"),
        Err(SchemaCompileError::HasReference)
    ));
    assert!(matches!(
        compile("{\"pattern\": \"^\\\\d+$\"}"),
        Err(SchemaCompileError::HasReference)
    ));
    assert!(matches!(compile("{\"$ref\": "), Err(SchemaCompileError::NotJson { .. })));
    assert!(compile(r#"{"type": "object", "required": ["ref"]}"#).is_ok());
    assert!(compile(r#"{"properties": {"$re": {}, "ref$": {}}}"#).is_ok());
}

#[test]
fn reference_is_found_wherever_it_stands() {
    assert!(may_hold_reference("$ref"));
    assert!(may_hold_reference("x$ref"));
    assert!(may_hold_reference("$$ref"));
    assert!(may_hold_reference("$r$ref$"));
    assert!(may_hold_reference("a\\b"));
    assert!(!may_hold_reference(""));
    assert!(!may_hold_reference("$re"));
    assert!(!may_hold_reference("$ re f"));
    assert!(!may_hold_reference("ref$"));
    assert!(!may_hold_reference(RECORD_SCHEMA));
}

#[test]
fn read_only_open_takes_local_documents_too() {
    let schema = schema();
    let local = LocalOverrides { python: Some(document(GOOD, &["local"])), rust: None, go: None };
    let baseline = DocumentSet {
        python: document(GOOD, &["builtin"]),
        rust: document(GOOD, &["serde"]),
        go: empty(),
    };
    let registry = Registry::new(&schema, local, baseline).unwrap();
    assert_eq!(names(&registry, Language::Python), vec!["local"]);
    assert_eq!(names(&registry, Language::Rust), vec!["serde"]);
}

#[test]
fn violating_document_is_refused_with_every_violation() {
    let schema = schema();
    let expected = match schema.validate_text(TWO_FAULTS) {
        Ok(Err(error)) => error.messages,
        _ => panic!("expected violations"),
    };
    let documents = DocumentSet {
        python: empty(),
        rust: empty(),
        go: document(TWO_FAULTS, &["requests"]),
    };
    match Registry::load_mutable(&schema, no_overrides(), documents) {
        Err(LoadError::SchemaViolation { ecosystem, messages }) => {
            assert_eq!(ecosystem, Language::Go);
            assert_eq!(messages, expected);
            assert!(messages.len() >= 2);
        }
        other => panic!("expected a schema violation, got {:?}", other),
    }
}

#[test]
fn document_that_names_a_package_twice_loads_as_it_stands() {
    let schema = schema();
    let documents = DocumentSet {
        python: document(GOOD, &["a", "b", "a"]),
        rust: empty(),
        go: empty(),
    };
    let registry = Registry::new(&schema, no_overrides(), documents).unwrap();
    assert_eq!(names(&registry, Language::Python), vec!["a", "b", "a"]);
}

#[test]
fn parse_document_tells_json_from_other_text() {
    assert!(parse_document("[]").is_ok());
    assert!(parse_document(GOOD).is_ok());
    assert!(parse_document(" {\"a\": [1, 2.5, null, true]} ").is_ok());
    assert!(parse_document("[").is_err());
    assert!(parse_document("").is_err());
    assert!(parse_document("[] []").is_err());
    assert!(parse_document("{'a': 1}").is_err());
    let value = parse_document("[1, 2]").unwrap();
    assert_eq!(value.as_array().map(|a| a.len()), Some(2));
}

#[test]
fn conforming_document_passes() {
    let schema = schema();
    assert!(matches!(schema.validate_text(GOOD), Ok(Ok(()))));
    assert!(matches!(schema.validate_text("[]"), Ok(Ok(()))));
    let value = parse_document(GOOD).unwrap();
    assert!(schema.validate(&value).is_ok());
}

#[test]
fn document_without_a_required_field_fails_with_violations() {
    let schema = schema();
    match schema.validate_text(NO_SCORE) {
        Ok(Err(error)) => {
            assert!(!error.messages.is_empty());
            assert!(error.messages.iter().any(|m| m.contains("trust_score")));
        }
        other => panic!("expected violations, got {:?}", other.map(|r| r.map_err(|e| e.messages))),
    }
}

#[test]
fn every_violation_is_reported() {
    let schema = schema();
    match schema.validate_text(TWO_FAULTS) {
        Ok(Err(error)) => assert!(error.messages.len() >= 2, "{:?}", error.messages),
        _ => panic!("expected violations"),
    }
}

#[test]
fn document_that_is_no_array_or_has_an_empty_name_fails() {
    let schema = schema();
    assert!(matches!(schema.validate_text("{}"), Ok(Err(_))));
    let unnamed = GOOD.replace("\"requests\"", "\"\"");
    assert!(matches!(schema.validate_text(&unnamed), Ok(Err(_))));
}

#[test]
fn malformed_text_is_reported_as_such() {
    let schema = schema();
    assert!(schema.validate_text("[{").is_err());
}

#[test]
fn schema_is_reusable() {
    let schema = schema();
    for _ in 0..3 {
        assert!(matches!(schema.validate_text(GOOD), Ok(Ok(()))));
        assert!(matches!(schema.validate_text(NO_SCORE), Ok(Err(_))));
    }
}

#[test]
fn judge_passes_only_an_empty_list() {
    assert!(judge(vec![]).is_ok());
    let failed = judge(vec!["a".to_string(), "b".to_string()]).unwrap_err();
    assert_eq!(failed.messages, vec!["a", "b"]);
}

#[test]
fn admit_document_refuses_on_any_violation() {
    let decoded = Ok(vec![record("a", 1.0)]);
    match admit_document(Language::Go, vec!["bad".to_string()], decoded) {
        Err(LoadError::SchemaViolation { ecosystem, messages }) => {
            assert_eq!(ecosystem, Language::Go);
            assert_eq!(messages, vec!["bad"]);
        }
        other => panic!("expected a schema violation, got {:?}", other),
    }
    let admitted = admit_document(Language::Go, vec![], Ok(vec![record("a", 1.0)])).unwrap();
    assert_eq!(admitted.len(), 1);
    match admit_document(Language::Rust, vec![], Err("missing field".to_string())) {
        Err(LoadError::ParseError { ecosystem, message }) => {
            assert_eq!(ecosystem, Language::Rust);
            assert_eq!(message, "missing field");
        }
        other => panic!("expected a parse error, got {:?}", other),
    }
}

#[test]
fn check_document_hands_out_the_decoded_records_of_a_conforming_document() {
    let schema = schema();
    let records = check_document(&schema, Language::Python, document(GOOD, &["requests", "flask"]))
        .unwrap();
    let found: Vec<&str> = records.iter().map(|r| r.name.as_str()).collect();
    assert_eq!(found, vec!["requests", "flask"]);
}

#[test]
fn check_document_refuses_a_violating_document_wholesale() {
    let schema = schema();
    match check_document(&schema, Language::Rust, document(NO_SCORE, &["requests"])) {
        Err(LoadError::SchemaViolation { ecosystem, messages }) => {
            assert_eq!(ecosystem, Language::Rust);
            assert!(!messages.is_empty());
        }
        other => panic!("expected a schema violation, got {:?}", other),
    }
}

#[test]
fn check_document_reports_malformed_text_as_parse_error() {
    let schema = schema();
    match check_document(&schema, Language::Go, document("[{]", &[])) {
        Err(LoadError::ParseError { ecosystem, message }) => {
            assert_eq!(ecosystem, Language::Go);
            assert!(!message.is_empty());
        }
        other => panic!("expected a parse error, got {:?}", other),
    }
}

#[test]
fn registry_loads_from_three_conforming_documents() {
    let schema = schema();
    let documents = DocumentSet {
        python: document(GOOD, &["requests", "flask"]),
        rust: empty(),
        go: document(GOOD, &["requests"]),
    };
    let registry = Registry::new(&schema, no_overrides(), documents).unwrap();
    assert_eq!(names(&registry, Language::Python), vec!["requests", "flask"]);
    assert!(names(&registry, Language::Rust).is_empty());
    assert_eq!(names(&registry, Language::Go), vec!["requests"]);
}

#[test]
fn one_refused_document_ends_the_whole_load() {
    let schema = schema();
    let documents = DocumentSet {
        python: document(GOOD, &["requests", "flask"]),
        rust: document(NO_SCORE, &["requests"]),
        go: empty(),
    };
    match Registry::new(&schema, no_overrides(), documents) {
        Err(error) => {
            assert_eq!(error.ecosystem(), Language::Rust);
            assert!(matches!(error, LoadError::SchemaViolation { .. }));
            assert!(error.message().starts_with("rust registry schema validation failed: "));
        }
        Ok(_) => panic!("a violating document must not load"),
    }
}

#[test]
fn first_refused_document_is_the_one_reported() {
    let schema = schema();
    let documents = DocumentSet {
        python: document("nonsense", &[]),
        rust: document(NO_SCORE, &[]),
        go: document("[", &[]),
    };
    let error = Registry::new(&schema, no_overrides(), documents).unwrap_err();
    assert_eq!(error.ecosystem(), Language::Python);
    assert!(matches!(error, LoadError::ParseError { .. }));
    assert!(error.message().starts_with("python registry document is malformed: "));
}

#[test]
fn local_document_takes_precedence_per_ecosystem() {
    let schema = schema();
    let local = LocalOverrides { python: None, rust: Some(document(GOOD, &["tokio"])), go: None };
    let baseline = DocumentSet {
        python: document(GOOD, &["requests"]),
        rust: document(GOOD, &["serde"]),
        go: empty(),
    };
    let registry = Registry::load_mutable(&schema, local, baseline).unwrap();
    assert_eq!(names(&registry, Language::Python), vec!["requests"]);
    assert_eq!(names(&registry, Language::Rust), vec!["tokio"]);
    assert!(names(&registry, Language::Go).is_empty());
}

#[test]
fn violating_local_document_is_not_replaced_by_the_baseline() {
    let schema = schema();
    let local = LocalOverrides { python: Some(document(NO_SCORE, &["x"])), rust: None, go: None };
    let baseline = DocumentSet { python: empty(), rust: empty(), go: empty() };
    let error = Registry::load_mutable(&schema, local, baseline).unwrap_err();
    assert_eq!(error.ecosystem(), Language::Python);
}

#[test]
fn choose_source_picks_the_local_document_when_present() {
    assert_eq!(choose_source(Some(document("[1]", &[])), empty()).text, "[1]");
    assert_eq!(choose_source(None, empty()).text, "[]");
}

#[test]
fn load_from_directory_is_the_built_in_load() {
    let schema = schema();
    let documents = DocumentSet { python: document(GOOD, &["requests"]), rust: empty(), go: empty() };
    let registry =
        Registry::load_from_directory("anywhere", &schema, no_overrides(), documents).unwrap();
    assert_eq!(names(&registry, Language::Python), vec!["requests"]);
}

#[test]
fn undecodable_records_are_a_parse_error_after_the_schema_passed() {
    let schema = schema();
    let doc = RegistryDocument { text: "[]".to_string(), decoded: Err("trailing data".to_string()) };
    match check_document(&schema, Language::Python, doc) {
        Err(LoadError::ParseError { message, .. }) => assert_eq!(message, "trailing data"),
        other => panic!("expected a parse error, got {:?}", other),
    }
}
