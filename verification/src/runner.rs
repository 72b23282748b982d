//! The policy driver's decisions: which ecosystem an invocation targets,
//! whether an install may go ahead, and the native command that performs it.
//! Reading files, prompting and running processes belong to the caller.

use vstd::prelude::*;
use crate::language::Language;
use crate::search::{first_where, lemma_first_where_absent, lemma_first_where_found};
use crate::verify::VerificationResult;
use crate::text::{chars_of, glue3, optional_str, spec_lines, spec_trim, texts, trim_bounds};

verus! {

/// A native package-manager invocation: the program and its arguments.
#[derive(Debug)]
pub struct InstallCommand {
    pub program: String,
    pub args: Vec<String>,
}

/// The subcommand with which an ecosystem's package manager installs.
pub open spec fn spec_install_verb(language: Language) -> Seq<char> {
    match language {
        Language::Python => "install"@,
        Language::Rust => "add"@,
        Language::Go => "get"@,
    }
}

/// What stands between a package's name and its version in a requirement.
pub open spec fn spec_version_separator(language: Language) -> Seq<char> {
    match language {
        Language::Python => "=="@,
        Language::Rust => "@"@,
        Language::Go => "@"@,
    }
}

/// The requirement handed to the package manager: the bare name, or the name
/// pinned to a version in the ecosystem's own notation.
pub open spec fn spec_requirement(
    package: Seq<char>,
    version: Option<Seq<char>>,
    language: Language,
) -> Seq<char> {
    match version {
        Some(v) => package + spec_version_separator(language) + v,
        None => package,
    }
}

/// The arguments of the install command: the verb, the requirement, then the
/// caller's extra arguments untouched and in order.
pub open spec fn spec_install_args(
    package: Seq<char>,
    version: Option<Seq<char>>,
    language: Language,
    extra_args: Seq<Seq<char>>,
) -> Seq<Seq<char>> {
    seq![spec_install_verb(language), spec_requirement(package, version, language)] + extra_args
}

/// The install verb of `language`.
pub fn install_verb(language: &Language) -> (verb: &'static str)
    ensures
        verb@ == spec_install_verb(*language),
{
    match language {
        Language::Python => "install",
        Language::Rust => "add",
        Language::Go => "get",
    }
}

/// The native command that installs `package` in `language`, at `version`
/// where one is given, passing `extra_args` through.
pub fn install_command(
    package: &str,
    version: Option<&str>,
    language: &Language,
    extra_args: &Vec<String>,
) -> (command: InstallCommand)
    ensures
        command.program@ == language.spec_manager(),
        texts(command.args@) == spec_install_args(
            package@,
            optional_str(version),
            *language,
            texts(extra_args@),
        ),
{
    let requirement = match version {
        Some(v) => {
            let separator = match language {
                Language::Python => "==",
                Language::Rust => "@",
                Language::Go => "@",
            };
            glue3(package, separator, v)
        },
        None => String::from_str(package),
    };
    let mut args: Vec<String> = Vec::new();
    args.push(String::from_str(install_verb(language)));
    args.push(requirement);
    let mut i: usize = 0;
    while i < extra_args.len()
        invariant
            0 <= i <= extra_args.len(),
            args@.len() == 2 + i,
            args@[0]@ == spec_install_verb(*language),
            args@[1]@ == spec_requirement(package@, optional_str(version), *language),
            forall|j: int| 0 <= j < i ==> args@[2 + j]@ == extra_args@[j]@,
        decreases extra_args.len() - i,
    {
        args.push(extra_args[i].clone());
        i = i + 1;
    }
    proof {
        assert(texts(args@) =~= spec_install_args(
            package@,
            optional_str(version),
            *language,
            texts(extra_args@),
        ));
    }
    InstallCommand { program: String::from_str(language.manager()), args }
}

/// What to report when the package manager exits with a failure.
pub open spec fn spec_failure_message(language: Language) -> Seq<char> {
    language.spec_manager() + " "@ + spec_install_verb(language) + " failed"@
}

/// The message for a failed install in `language`.
pub fn failure_message(language: &Language) -> (message: String)
    ensures
        message@ == spec_failure_message(*language),
{
    let mut message = glue3(language.manager(), " ", install_verb(language));
    message.append(" failed");
    message
}

/// Whether a trimmed line of a package list names a package: it is not
/// empty and is no comment, which starts with `#`.
pub open spec fn is_entry(line: Seq<char>) -> bool {
    line.len() > 0 && line.first() != '#'
}

/// The package names among `lines`: each line trimmed, the empty ones and
/// the comments left out, in the order of the lines.
pub open spec fn spec_entries(lines: Seq<Seq<char>>) -> Seq<Seq<char>> {
    lines.map_values(|line: Seq<char>| spec_trim(line)).filter(|line: Seq<char>| is_entry(line))
}

/// The package names that a package list holds, one per line.
pub open spec fn spec_package_names(content: Seq<char>) -> Seq<Seq<char>> {
    spec_entries(spec_lines(content))
}

/// Adding a line to a run of lines adds its name, if it has one.
proof fn lemma_entries_push(lines: Seq<Seq<char>>, line: Seq<char>)
    ensures
        spec_entries(lines.push(line)) == if is_entry(spec_trim(line)) {
            spec_entries(lines).push(spec_trim(line))
        } else {
            spec_entries(lines)
        },
{
    let trim = |line: Seq<char>| spec_trim(line);
    let keep = |line: Seq<char>| is_entry(line);
    let mapped = lines.push(line).map_values(trim);
    assert(mapped.drop_last() =~= lines.map_values(trim));
    assert(mapped.last() == spec_trim(line));
    reveal_with_fuel(Seq::filter, 2);
    assert(mapped.filter(keep) == if keep(mapped.last()) {
        mapped.drop_last().filter(keep).push(mapped.last())
    } else {
        mapped.drop_last().filter(keep)
    });
}

/// Appends to `names` the name on the line of `chars` between `from` and
/// `to`, if that line has one. `content` is the text that `chars` spells.
fn push_entry(names: &mut Vec<String>, content: &str, chars: &Vec<char>, from: usize, to: usize)
    requires
        chars@ == content@,
        from <= to <= chars.len(),
    ensures
        texts(final(names)@) == ({
            let line = spec_trim(content@.subrange(from as int, to as int));
            if is_entry(line) {
                texts(old(names)@).push(line)
            } else {
                texts(old(names)@)
            }
        }),
{
    let (start, end) = trim_bounds(chars, from, to);
    if start < end && chars[start] != '#' {
        let name = String::from_str(content.substring_char(start, end));
        let ghost before = texts(names@);
        names.push(name);
        proof {
            assert(texts(names@) =~= before.push(name@));
        }
    }
}

/// Reads a package list: one name per line, white space around a name
/// ignored, empty lines and lines that start with `#` skipped.
pub fn parse_package_list(content: &str) -> (names: Vec<String>)
    ensures
        texts(names@) == spec_package_names(content@),
{
    let chars = chars_of(content);
    let mut names: Vec<String> = Vec::new();
    let mut start: usize = 0;
    let mut i: usize = 0;
    let ghost mut done: Seq<Seq<char>> = Seq::empty();
    proof {
        assert(content@.take(0) =~= Seq::<char>::empty());
        assert(spec_lines(content@.take(0)) =~= done.push(content@.subrange(0, 0)));
        reveal_with_fuel(Seq::filter, 1);
        assert(done.map_values(|line: Seq<char>| spec_trim(line)) =~= Seq::empty());
        assert(texts(names@) =~= spec_entries(done));
    }
    while i < chars.len()
        invariant
            chars@ == content@,
            0 <= start <= i <= chars.len(),
            spec_lines(content@.take(i as int)) == done.push(
                content@.subrange(start as int, i as int),
            ),
            texts(names@) == spec_entries(done),
        decreases chars.len() - i,
    {
        proof {
            let grown = content@.take(i + 1);
            assert(grown.drop_last() =~= content@.take(i as int));
            assert(grown.last() == content@[i as int]);
            let before = spec_lines(content@.take(i as int));
            assert(before.drop_last() =~= done);
            assert(before.last() == content@.subrange(start as int, i as int));
            assert(content@.subrange(start as int, i as int).push(content@[i as int])
                =~= content@.subrange(start as int, i + 1));
            assert(content@.subrange(i + 1, i + 1) =~= Seq::<char>::empty());
        }
        if chars[i] == '\n' {
            proof {
                lemma_entries_push(done, content@.subrange(start as int, i as int));
            }
            push_entry(&mut names, content, &chars, start, i);
            proof {
                done = done.push(content@.subrange(start as int, i as int));
            }
            start = i + 1;
        }
        i = i + 1;
    }
    proof {
        assert(content@.take(chars.len() as int) =~= content@);
        lemma_entries_push(done, content@.subrange(start as int, i as int));
    }
    push_entry(&mut names, content, &chars, start, i);
    names
}

/// Why the driver could not act.
#[derive(Clone, Copy, Debug, PartialEq, Eq, Structural)]
pub enum DriverError {
    /// No ecosystem was named, and none could be told from the project.
    UnknownLanguage,
}

impl DriverError {
    /// The error in words.
    pub open spec fn spec_message(self) -> Seq<char> {
        "could not detect language - please specify with --lang flag"@
    }

    /// The error in words.
    pub fn message(&self) -> (message: &'static str)
        ensures
            message@ == self.spec_message(),
    {
        "could not detect language - please specify with --lang flag"
    }
}

/// What a look at the project directory found.
#[derive(Debug)]
pub struct ProjectProbe {
    pub cargo_toml: bool,
    pub requirements_txt: bool,
    pub setup_py: bool,
    pub pyproject_toml: bool,
    pub go_mod: bool,
    pub go_sum: bool,
    /// The extensions of the files in `src`, in the order in which the
    /// directory lists them; empty where there is no such directory.
    pub source_extensions: Vec<String>,
}

/// The ecosystem that a file extension points to.
pub open spec fn spec_language_of_extension(extension: Seq<char>) -> Option<Language> {
    if extension == "rs"@ {
        Some(Language::Rust)
    } else if extension == "py"@ {
        Some(Language::Python)
    } else if extension == "go"@ {
        Some(Language::Go)
    } else {
        None
    }
}

/// The ecosystem of a project: told by its manifest files, rust before
/// python before go, and failing those by the first source file whose
/// extension points to an ecosystem.
pub open spec fn spec_detect_language(probe: ProjectProbe) -> Option<Language> {
    if probe.cargo_toml {
        Some(Language::Rust)
    } else if probe.requirements_txt || probe.setup_py || probe.pyproject_toml {
        Some(Language::Python)
    } else if probe.go_mod || probe.go_sum {
        Some(Language::Go)
    } else {
        match first_where(
            probe.source_extensions@,
            |e: String| spec_language_of_extension(e@) is Some,
        ) {
            Some(i) => spec_language_of_extension(probe.source_extensions@[i]@),
            None => None,
        }
    }
}

/// The ecosystem that the extension `extension` points to.
pub fn language_of_extension(extension: &String) -> (language: Option<Language>)
    ensures
        language == spec_language_of_extension(extension@),
{
    if *extension == String::from_str("rs") {
        Some(Language::Rust)
    } else if *extension == String::from_str("py") {
        Some(Language::Python)
    } else if *extension == String::from_str("go") {
        Some(Language::Go)
    } else {
        None
    }
}

/// Tells the ecosystem of a project from what a look at it found.
pub fn detect_language(probe: &ProjectProbe) -> (language: Option<Language>)
    ensures
        language == spec_detect_language(*probe),
{
    if probe.cargo_toml {
        return Some(Language::Rust);
    }
    if probe.requirements_txt || probe.setup_py || probe.pyproject_toml {
        return Some(Language::Python);
    }
    if probe.go_mod || probe.go_sum {
        return Some(Language::Go);
    }
    let ghost wanted = |e: String| spec_language_of_extension(e@) is Some;
    let mut i: usize = 0;
    while i < probe.source_extensions.len()
        invariant
            0 <= i <= probe.source_extensions.len(),
            !probe.cargo_toml,
            !(probe.requirements_txt || probe.setup_py || probe.pyproject_toml),
            !(probe.go_mod || probe.go_sum),
            wanted == (|e: String| spec_language_of_extension(e@) is Some),
            forall|j: int| 0 <= j < i ==> !wanted(#[trigger] probe.source_extensions@[j]),
        decreases probe.source_extensions.len() - i,
    {
        let found = language_of_extension(&probe.source_extensions[i]);
        if found.is_some() {
            proof {
                lemma_first_where_found(probe.source_extensions@, wanted, i as int);
            }
            return found;
        }
        i = i + 1;
    }
    proof {
        lemma_first_where_absent(probe.source_extensions@, wanted);
    }
    None
}

/// The ecosystem of an invocation: the one named, else the one detected.
pub open spec fn spec_resolve_language(
    explicit: Option<Language>,
    detected: Option<Language>,
) -> Result<Language, DriverError> {
    match explicit {
        Some(language) => Ok(language),
        None => match detected {
            Some(language) => Ok(language),
            None => Err(DriverError::UnknownLanguage),
        },
    }
}

/// Settles the ecosystem of an invocation. An ecosystem named by the caller
/// stands; detection counts only where none was named.
pub fn resolve_language(explicit: Option<Language>, detected: Option<Language>) -> (resolved:
    Result<Language, DriverError>)
    ensures
        resolved == spec_resolve_language(explicit, detected),
{
    match explicit {
        Some(language) => Ok(language),
        None => match detected {
            Some(language) => Ok(language),
            None => Err(DriverError::UnknownLanguage),
        },
    }
}

/// What the driver does next about an install.
#[derive(Clone, Copy, Debug, PartialEq, Eq, Structural)]
pub enum InstallStep {
    /// Run the native package manager.
    Install,
    /// Ask the user to confirm, then go by the answer.
    Confirm,
    /// Leave the package uninstalled.
    Cancel,
}

/// The step that follows a verification: a trusted package is installed; an
/// untrusted or unknown one is installed without a question only where the
/// caller asked for that, and otherwise the user is asked first.
pub open spec fn spec_plan_install(is_trusted: bool, yes: bool) -> InstallStep {
    if is_trusted || yes {
        InstallStep::Install
    } else {
        InstallStep::Confirm
    }
}

/// The step that follows the user's answer.
pub open spec fn spec_after_confirmation(confirmed: bool) -> InstallStep {
    if confirmed {
        InstallStep::Install
    } else {
        InstallStep::Cancel
    }
}

/// Decides what follows a verification, given whether the caller waived
/// the confirmation with `yes`.
pub fn plan_install(result: &VerificationResult, yes: bool) -> (step: InstallStep)
    ensures
        step == spec_plan_install(result.is_trusted, yes),
{
    if result.is_trusted || yes {
        InstallStep::Install
    } else {
        InstallStep::Confirm
    }
}

/// Decides what follows the user's answer to the confirmation.
pub fn after_confirmation(confirmed: bool) -> (step: InstallStep)
    ensures
        step == spec_after_confirmation(confirmed),
{
    if confirmed {
        InstallStep::Install
    } else {
        InstallStep::Cancel
    }
}

/// No package is installed without trust, a waiver or the user's consent.
pub proof fn lemma_install_needs_trust_or_consent(is_trusted: bool, yes: bool, confirmed: bool)
    ensures
        spec_plan_install(is_trusted, yes) == InstallStep::Install <==> is_trusted || yes,
        spec_plan_install(is_trusted, yes) != InstallStep::Cancel,
        spec_after_confirmation(confirmed) == InstallStep::Install <==> confirmed,
        spec_after_confirmation(confirmed) != InstallStep::Confirm,
{
}

/// The package indexes that the normalizer can ask.
#[derive(Clone, Copy, Debug, PartialEq, Eq, Structural)]
pub enum UpstreamIndex {
    PyPi,
    CratesIo,
}

/// The index of an ecosystem, where it has one that the normalizer can ask.
pub open spec fn spec_upstream_index(language: Language) -> Option<UpstreamIndex> {
    match language {
        Language::Python => Some(UpstreamIndex::PyPi),
        Language::Rust => Some(UpstreamIndex::CratesIo),
        Language::Go => None,
    }
}

/// The index to ask about a package of `language`, if there is one.
pub fn upstream_index(language: &Language) -> (index: Option<UpstreamIndex>)
    ensures
        index == spec_upstream_index(*language),
{
    match language {
        Language::Python => Some(UpstreamIndex::PyPi),
        Language::Rust => Some(UpstreamIndex::CratesIo),
        Language::Go => None,
    }
}

/// Where a trust decision takes its record from: the index of the
/// ecosystem where the caller asked for a fetch and the ecosystem has one.
/// A decision without an index to ask makes a manual record.
pub open spec fn spec_trust_source(language: Language, fetch: bool) -> Option<UpstreamIndex> {
    if fetch {
        spec_upstream_index(language)
    } else {
        None
    }
}

/// The index that a trust decision asks, if it asks one.
pub fn trust_source(language: &Language, fetch: bool) -> (index: Option<UpstreamIndex>)
    ensures
        index == spec_trust_source(*language, fetch),
{
    if fetch {
        upstream_index(language)
    } else {
        None
    }
}

/// Where a bulk import takes its records from: the python index for
/// python names. The names of the other ecosystems are taken over without
/// a fetch, as bulk records.
pub open spec fn spec_bulk_source(language: Language) -> Option<UpstreamIndex> {
    match language {
        Language::Python => Some(UpstreamIndex::PyPi),
        _ => None,
    }
}

/// The index that a bulk import asks, if it asks one.
pub fn bulk_source(language: &Language) -> (index: Option<UpstreamIndex>)
    ensures
        index == spec_bulk_source(*language),
{
    match language {
        Language::Python => Some(UpstreamIndex::PyPi),
        _ => None,
    }
}

} // verus!
