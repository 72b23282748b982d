use sip::language::Language;
use sip::registry::Registry;
use sip::runner::{
    after_confirmation, bulk_source, detect_language, failure_message, install_command,
    language_of_extension, parse_package_list, plan_install, resolve_language, trust_source,
    upstream_index, DriverError, InstallStep, ProjectProbe, UpstreamIndex,
};
use sip::score::TrustScore;
use sip::text::{is_space, join};
use sip::verify::verify_package;

fn strings(items: &[&str]) -> Vec<String> {
    items.iter().map(|s| s.to_string()).collect()
}

fn probe() -> ProjectProbe {
    ProjectProbe {
        cargo_toml: false,
        requirements_txt: false,
        setup_py: false,
        pyproject_toml: false,
        go_mod: false,
        go_sum: false,
        source_extensions: Vec::new(),
    }
}

fn by_std(content: &str) -> Vec<String> {
    content
        .lines()
        .map(|line| line.trim())
        .filter(|line| !line.is_empty() && !line.starts_with('#'))
        .map(|line| line.to_string())
        .collect()
}

#[test]
fn language_names() {
    assert_eq!(Language::Python.name(), "python");
    assert_eq!(Language::Rust.name(), "rust");
    assert_eq!(Language::Go.name(), "go");
    assert_eq!(Language::Python.manager(), "pip");
    assert_eq!(Language::Rust.manager(), "cargo");
    assert_eq!(Language::Go.manager(), "go");
    assert_eq!(Language::all(), vec![Language::Python, Language::Rust, Language::Go]);
    for language in Language::all() {
        assert_eq!(Language::from_name(language.name()), Some(language));
    }
    assert_eq!(Language::from_name("Python"), None);
    assert_eq!(Language::from_name(""), None);
    assert_eq!(Language::from_name("golang"), None);
}

#[test]
fn pip_command_without_version() {
    let command = install_command("requests", None, &Language::Python, &strings(&[]));
    assert_eq!(command.program, "pip");
    assert_eq!(command.args, vec!["install", "requests"]);
}

#[test]
fn pip_command_pins_with_double_equals() {
    let extra = strings(&["--user", "--upgrade"]);
    let command = install_command("requests", Some("2.31.0"), &Language::Python, &extra);
    assert_eq!(command.program, "pip");
    assert_eq!(command.args, vec!["install", "requests==2.31.0", "--user", "--upgrade"]);
}

#[test]
fn cargo_command_adds_and_pins_with_at() {
    let command = install_command("tokio", Some("1.0"), &Language::Rust, &strings(&["--dev"]));
    assert_eq!(command.program, "cargo");
    assert_eq!(command.args, vec!["add", "tokio@1.0", "--dev"]);
    let bare = install_command("tokio", None, &Language::Rust, &strings(&[]));
    assert_eq!(bare.args, vec!["add", "tokio"]);
}

#[test]
fn go_command_gets_and_pins_with_at() {
    let command =
        install_command("github.com/a/b", Some("v1.2.3"), &Language::Go, &strings(&["-u"]));
    assert_eq!(command.program, "go");
    assert_eq!(command.args, vec!["get", "github.com/a/b@v1.2.3", "-u"]);
}

#[test]
fn failure_messages_name_the_command() {
    assert_eq!(failure_message(&Language::Python), "pip install failed");
    assert_eq!(failure_message(&Language::Rust), "cargo add failed");
    assert_eq!(failure_message(&Language::Go), "go get failed");
}

#[test]
fn package_list_skips_blank_lines_and_comments() {
    let content = "requests\n\n  flask  \n# a comment\n   # another\nnumpy#not-a-comment\n\tdjango\t\n";
    assert_eq!(
        parse_package_list(content),
        vec!["requests", "flask", "numpy#not-a-comment", "django"]
    );
}

#[test]
fn package_list_edge_cases() {
    assert!(parse_package_list("").is_empty());
    assert!(parse_package_list("\n\n\n").is_empty());
    assert!(parse_package_list("   ").is_empty());
    assert!(parse_package_list("#only").is_empty());
    assert_eq!(parse_package_list("one"), vec!["one"]);
    assert_eq!(parse_package_list("one\r\ntwo\r\n"), vec!["one", "two"]);
    assert_eq!(parse_package_list("a b"), vec!["a b"]);
    assert_eq!(parse_package_list("\u{3000}wide\u{a0}\n"), vec!["wide"]);
    assert_eq!(parse_package_list("na\u{ef}ve\n\u{4f60}\u{597d}"), vec!["na\u{ef}ve", "\u{4f60}\u{597d}"]);
}

#[test]
fn package_list_agrees_with_lines_trim_and_filter() {
    let samples = [
        "",
        "a",
        "a\n",
        "\na",
        "a\r\nb\rc\n",
        " \t a \t \n#x\n # y\nb#c\n\n\n c",
        "\r\n\r\n",
        "x\u{2003}\n\u{2028}y\u{85}\n\u{1680}#z\n\u{feff}w",
        "one\ntwo\nthree",
        "#\n#\n",
        "\u{b}v\u{c}\n",
        "tab\tinside\n",
    ];
    for sample in samples {
        assert_eq!(parse_package_list(sample), by_std(sample), "{:?}", sample);
    }
}

#[test]
fn white_space_is_what_the_standard_library_calls_white_space() {
    for code in 0u32..0x11000 {
        if let Some(c) = char::from_u32(code) {
            assert_eq!(is_space(c), c.is_whitespace(), "U+{:04X}", code);
        }
    }
}

#[test]
fn join_puts_the_separator_between_neighbours() {
    assert_eq!(join(&strings(&[]), ", "), "");
    assert_eq!(join(&strings(&["a"]), ", "), "a");
    assert_eq!(join(&strings(&["a", "b", "c"]), ", "), "a, b, c");
    assert_eq!(join(&strings(&["", ""]), "-"), "-");
}

#[test]
fn manifest_files_decide_the_ecosystem_rust_first() {
    let mut p = probe();
    p.cargo_toml = true;
    p.requirements_txt = true;
    p.go_mod = true;
    assert_eq!(detect_language(&p), Some(Language::Rust));
    p.cargo_toml = false;
    assert_eq!(detect_language(&p), Some(Language::Python));
    p.requirements_txt = false;
    assert_eq!(detect_language(&p), Some(Language::Go));
    p.go_mod = false;
    assert_eq!(detect_language(&p), None);
    for set in [1, 2, 3] {
        let mut q = probe();
        q.requirements_txt = set == 1;
        q.setup_py = set == 2;
        q.pyproject_toml = set == 3;
        q.go_sum = true;
        assert_eq!(detect_language(&q), Some(Language::Python));
    }
    let mut q = probe();
    q.go_sum = true;
    assert_eq!(detect_language(&q), Some(Language::Go));
}

#[test]
fn first_telling_source_file_decides_without_manifest() {
    let mut p = probe();
    p.source_extensions = strings(&["txt", "md", "py", "rs"]);
    assert_eq!(detect_language(&p), Some(Language::Python));
    p.source_extensions = strings(&["go"]);
    assert_eq!(detect_language(&p), Some(Language::Go));
    p.source_extensions = strings(&["RS", "toml", ""]);
    assert_eq!(detect_language(&p), None);
    p.cargo_toml = true;
    p.source_extensions = strings(&["py"]);
    assert_eq!(detect_language(&p), Some(Language::Rust));
    assert_eq!(language_of_extension(&"rs".to_string()), Some(Language::Rust));
    assert_eq!(language_of_extension(&"rst".to_string()), None);
}

#[test]
fn named_ecosystem_wins_over_detection() {
    assert_eq!(resolve_language(Some(Language::Go), Some(Language::Rust)), Ok(Language::Go));
    assert_eq!(resolve_language(Some(Language::Go), None), Ok(Language::Go));
    assert_eq!(resolve_language(None, Some(Language::Rust)), Ok(Language::Rust));
    assert_eq!(resolve_language(None, None), Err(DriverError::UnknownLanguage));
    assert_eq!(
        DriverError::UnknownLanguage.message(),
        "could not detect language - please specify with --lang flag"
    );
}

#[test]
fn install_plan_asks_only_when_untrusted_and_not_waived() {
    let mut registry = Registry::empty();
    let record = sip::trust::manual_record_dated(
        "requests",
        None,
        Some(TrustScore::from_bits(9.0f64.to_bits())),
        "2024-01-01",
    );
    registry.add_package(record, &Language::Python);
    let threshold = TrustScore::from_bits(8.0f64.to_bits());
    let trusted = verify_package("requests", None, &Language::Python, &registry, threshold);
    let unknown = verify_package("ghost", None, &Language::Python, &registry, threshold);
    let strict = TrustScore::from_bits(9.5f64.to_bits());
    let below = verify_package("requests", None, &Language::Python, &registry, strict);
    assert_eq!(plan_install(&trusted, false), InstallStep::Install);
    assert_eq!(plan_install(&trusted, true), InstallStep::Install);
    assert_eq!(plan_install(&unknown, false), InstallStep::Confirm);
    assert_eq!(plan_install(&unknown, true), InstallStep::Install);
    assert_eq!(plan_install(&below, false), InstallStep::Confirm);
    assert_eq!(plan_install(&below, true), InstallStep::Install);
    assert_eq!(after_confirmation(true), InstallStep::Install);
    assert_eq!(after_confirmation(false), InstallStep::Cancel);
}

#[test]
fn python_and_rust_have_an_index_to_ask() {
    assert_eq!(upstream_index(&Language::Python), Some(UpstreamIndex::PyPi));
    assert_eq!(upstream_index(&Language::Rust), Some(UpstreamIndex::CratesIo));
    assert_eq!(upstream_index(&Language::Go), None);
}

#[test]
fn trust_decision_fetches_where_asked_and_an_index_exists() {
    assert_eq!(trust_source(&Language::Python, true), Some(UpstreamIndex::PyPi));
    assert_eq!(trust_source(&Language::Rust, true), Some(UpstreamIndex::CratesIo));
    assert_eq!(trust_source(&Language::Go, true), None);
    for language in Language::all() {
        assert_eq!(trust_source(&language, false), None);
    }
}

#[test]
fn bulk_import_fetches_python_names_only() {
    assert_eq!(bulk_source(&Language::Python), Some(UpstreamIndex::PyPi));
    assert_eq!(bulk_source(&Language::Rust), None);
    assert_eq!(bulk_source(&Language::Go), None);
}
