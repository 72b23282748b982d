//! Loading and saving: how the three registry documents become a registry,
//! and where each of them is kept.
//!
//! A document reaches this module as its text together with the records
//! that the caller decoded from that text. The text is what the schema
//! judges; the records are taken over only if it passes.

use vstd::prelude::*;
use crate::language::Language;
use crate::package::{record_views, PackageRecord, RecordView};
use crate::registry::{Registry, RegistryView};
use crate::schema::{json_parses, parse_document, parsed_value, violations_of, CompiledSchema};
use crate::text::{glue, glue3, join, spec_join, texts};

verus! {

/// One ecosystem's registry document.
#[derive(Debug)]
pub struct RegistryDocument {
    /// The document as it was read.
    pub text: String,
    /// The records decoded from `text`, or why they could not be decoded.
    pub decoded: Result<Vec<PackageRecord>, String>,
}

/// The documents of the three ecosystems.
#[derive(Debug)]
pub struct DocumentSet {
    pub python: RegistryDocument,
    pub rust: RegistryDocument,
    pub go: RegistryDocument,
}

/// The local documents that stand in for built-in ones, where present.
#[derive(Debug)]
pub struct LocalOverrides {
    pub python: Option<RegistryDocument>,
    pub rust: Option<RegistryDocument>,
    pub go: Option<RegistryDocument>,
}

/// Why a registry could not be loaded. Either way nothing of the document
/// is used, and no registry comes into being.
#[derive(Debug)]
pub enum LoadError {
    /// A document is no JSON document, or does not decode to records.
    ParseError { ecosystem: Language, message: String },
    /// A document is JSON but violates the schema. Carries every violation.
    SchemaViolation { ecosystem: Language, messages: Vec<String> },
}

/// What a load error holds, as plain values.
pub enum LoadErrorView {
    ParseError { ecosystem: Language, message: Seq<char> },
    SchemaViolation { ecosystem: Language, messages: Seq<Seq<char>> },
}

impl LoadErrorView {
    /// The ecosystem whose document was refused.
    pub open spec fn ecosystem(self) -> Language {
        match self {
            LoadErrorView::ParseError { ecosystem, .. } => ecosystem,
            LoadErrorView::SchemaViolation { ecosystem, .. } => ecosystem,
        }
    }

    /// The error in words.
    pub open spec fn message(self) -> Seq<char> {
        match self {
            LoadErrorView::ParseError { ecosystem, message } => ecosystem.spec_name()
                + " registry document is malformed: "@ + message,
            LoadErrorView::SchemaViolation { ecosystem, messages } => ecosystem.spec_name()
                + " registry schema validation failed: "@ + spec_join(messages, ", "@),
        }
    }
}

impl View for LoadError {
    type V = LoadErrorView;

    open spec fn view(&self) -> LoadErrorView {
        match self {
            LoadError::ParseError { ecosystem, message } => LoadErrorView::ParseError {
                ecosystem: *ecosystem,
                message: message@,
            },
            LoadError::SchemaViolation { ecosystem, messages } => LoadErrorView::SchemaViolation {
                ecosystem: *ecosystem,
                messages: texts(messages@),
            },
        }
    }
}

impl LoadError {
    /// The ecosystem whose document was refused.
    pub fn ecosystem(&self) -> (ecosystem: Language)
        ensures
            ecosystem == self@.ecosystem(),
    {
        match self {
            LoadError::ParseError { ecosystem, .. } => *ecosystem,
            LoadError::SchemaViolation { ecosystem, .. } => *ecosystem,
        }
    }

    /// The error in words, with every violation where there are any.
    pub fn message(&self) -> (message: String)
        ensures
            message@ == self@.message(),
    {
        match self {
            LoadError::ParseError { ecosystem, message } => glue3(
                ecosystem.name(),
                " registry document is malformed: ",
                message.as_str(),
            ),
            LoadError::SchemaViolation { ecosystem, messages } => {
                let listed = join(messages, ", ");
                glue3(ecosystem.name(), " registry schema validation failed: ", listed.as_str())
            },
        }
    }
}

/// What decoding gave, as plain values.
pub open spec fn decoded_view(decoded: Result<Vec<PackageRecord>, String>) -> Result<
    Seq<RecordView>,
    Seq<char>,
> {
    match decoded {
        Ok(records) => Ok(record_views(records@)),
        Err(message) => Err(message@),
    }
}

/// What a check of a document gave, as plain values.
pub open spec fn checked_view(checked: Result<Vec<PackageRecord>, LoadError>) -> Result<
    Seq<RecordView>,
    LoadErrorView,
> {
    match checked {
        Ok(records) => Ok(record_views(records@)),
        Err(error) => Err(error@),
    }
}

/// The fate of a document that is JSON, given the violations found in it
/// and what decoding gave. One violation is enough to refuse the whole
/// document; a document without violations stands or falls with its
/// decoding.
pub open spec fn spec_admit(
    ecosystem: Language,
    violations: Seq<Seq<char>>,
    decoded: Result<Seq<RecordView>, Seq<char>>,
) -> Result<Seq<RecordView>, LoadErrorView> {
    if violations.len() > 0 {
        Err(LoadErrorView::SchemaViolation { ecosystem, messages: violations })
    } else {
        match decoded {
            Ok(records) => Ok(records),
            Err(message) => Err(LoadErrorView::ParseError { ecosystem, message }),
        }
    }
}

/// Decides on a document that is JSON: the schema gate. `violations` is
/// what validation found, `decoded` what decoding gave.
pub fn admit_document(
    ecosystem: Language,
    violations: Vec<String>,
    decoded: Result<Vec<PackageRecord>, String>,
) -> (admitted: Result<Vec<PackageRecord>, LoadError>)
    ensures
        checked_view(admitted) == spec_admit(ecosystem, texts(violations@), decoded_view(decoded)),
{
    if violations.len() > 0 {
        Err(LoadError::SchemaViolation { ecosystem, messages: violations })
    } else {
        match decoded {
            Ok(records) => Ok(records),
            Err(message) => Err(LoadError::ParseError { ecosystem, message }),
        }
    }
}

/// Whether a document passes: its text is a JSON document in which the
/// validator finds no violation, and its records were decoded.
pub open spec fn passes(schema: CompiledSchema, document: RegistryDocument) -> bool {
    &&& json_parses(document.text@)
    &&& violations_of(schema.tree_view(), parsed_value(document.text@)).len() == 0
    &&& document.decoded is Ok
}

/// The records that a document holds.
pub open spec fn records_of(document: RegistryDocument) -> Seq<RecordView> {
    match document.decoded {
        Ok(records) => record_views(records@),
        Err(_) => Seq::empty(),
    }
}

/// Whether `checked` is what the check of `document` as the document of
/// `ecosystem` gives. A text that is no JSON document is refused with a
/// parse error that names the ecosystem. A JSON document goes through the
/// schema gate with the violations that the validator finds in it.
pub open spec fn is_check_of(
    checked: Result<Seq<RecordView>, LoadErrorView>,
    schema: CompiledSchema,
    ecosystem: Language,
    document: RegistryDocument,
) -> bool {
    if json_parses(document.text@) {
        checked == spec_admit(
            ecosystem,
            violations_of(schema.tree_view(), parsed_value(document.text@)),
            decoded_view(document.decoded),
        )
    } else {
        checked matches Err(LoadErrorView::ParseError { ecosystem: e, .. }) && e == ecosystem
    }
}

/// Checks one document against the schema and hands out its records if it
/// passes.
pub fn check_document(
    schema: &CompiledSchema,
    ecosystem: Language,
    document: RegistryDocument,
) -> (checked: Result<Vec<PackageRecord>, LoadError>)
    ensures
        is_check_of(checked_view(checked), *schema, ecosystem, document),
        checked is Ok <==> passes(*schema, document),
        checked matches Ok(records) ==> record_views(records@) == records_of(document),
{
    match parse_document(document.text.as_str()) {
        Err(message) => Err(LoadError::ParseError { ecosystem, message }),
        Ok(value) => {
            let violations = match schema.validate(&value) {
                Ok(()) => Vec::new(),
                Err(error) => error.messages,
            };
            proof {
                assert(texts(violations@) =~= violations_of(
                    schema.tree_view(),
                    parsed_value(document.text@),
                ));
            }
            admit_document(ecosystem, violations, document.decoded)
        },
    }
}

/// What a load answers for the documents `documents`. A registry comes
/// into being only if all three documents pass, and then it holds their
/// records as the documents give them. Otherwise the error is the refusal
/// of the first document that does not pass, in the order python, rust,
/// go: nothing of any document is then loaded.
pub open spec fn load_outcome(
    outcome: Result<Registry, LoadError>,
    schema: CompiledSchema,
    documents: DocumentSet,
) -> bool {
    match outcome {
        Ok(registry) => {
            &&& passes(schema, documents.python)
            &&& passes(schema, documents.rust)
            &&& passes(schema, documents.go)
            &&& registry@ == RegistryView {
                python: records_of(documents.python),
                rust: records_of(documents.rust),
                go: records_of(documents.go),
            }
        },
        Err(error) => {
            let refusal = Err::<Seq<RecordView>, LoadErrorView>(error@);
            if !passes(schema, documents.python) {
                is_check_of(refusal, schema, Language::Python, documents.python)
            } else if !passes(schema, documents.rust) {
                is_check_of(refusal, schema, Language::Rust, documents.rust)
            } else {
                &&& !passes(schema, documents.go)
                &&& is_check_of(refusal, schema, Language::Go, documents.go)
            }
        },
    }
}

/// The document that counts for an ecosystem: the local one where there is
/// one, else the built-in one.
pub open spec fn spec_choose_source(
    local: Option<RegistryDocument>,
    baseline: RegistryDocument,
) -> RegistryDocument {
    match local {
        Some(document) => document,
        None => baseline,
    }
}

/// The documents that count, ecosystem by ecosystem: one may come from a
/// local override while another is still the built-in one.
pub open spec fn spec_effective(local: LocalOverrides, baseline: DocumentSet) -> DocumentSet {
    DocumentSet {
        python: spec_choose_source(local.python, baseline.python),
        rust: spec_choose_source(local.rust, baseline.rust),
        go: spec_choose_source(local.go, baseline.go),
    }
}

/// Picks the local document where there is one, else the built-in one.
pub fn choose_source(local: Option<RegistryDocument>, baseline: RegistryDocument) -> (chosen:
    RegistryDocument)
    ensures
        chosen == spec_choose_source(local, baseline),
{
    match local {
        Some(document) => document,
        None => baseline,
    }
}

/// Loads a registry from the three documents that count.
pub fn load_documents(schema: &CompiledSchema, documents: DocumentSet) -> (outcome: Result<
    Registry,
    LoadError,
>)
    ensures
        load_outcome(outcome, *schema, documents),
{
    let python = match check_document(schema, Language::Python, documents.python) {
        Ok(records) => records,
        Err(error) => {
            return Err(error);
        },
    };
    let rust = match check_document(schema, Language::Rust, documents.rust) {
        Ok(records) => records,
        Err(error) => {
            return Err(error);
        },
    };
    let go = match check_document(schema, Language::Go, documents.go) {
        Ok(records) => records,
        Err(error) => {
            return Err(error);
        },
    };
    Ok(Registry::from_collections(python, rust, go))
}

impl Registry {
    /// Opens the registry for reading. For each ecosystem the local
    /// document counts where there is one, else the built-in one; each
    /// document that counts is checked against `schema` before any of its
    /// records is used, and the first that is refused ends the load.
    pub fn new(schema: &CompiledSchema, local: LocalOverrides, baseline: DocumentSet) -> (outcome:
        Result<Registry, LoadError>)
        ensures
            load_outcome(outcome, *schema, spec_effective(local, baseline)),
    {
        let documents = DocumentSet {
            python: choose_source(local.python, baseline.python),
            rust: choose_source(local.rust, baseline.rust),
            go: choose_source(local.go, baseline.go),
        };
        load_documents(schema, documents)
    }

    /// Opens the registry for a session that will write it back. The
    /// documents are chosen and checked as `new` chooses and checks them.
    pub fn load_mutable(
        schema: &CompiledSchema,
        local: LocalOverrides,
        baseline: DocumentSet,
    ) -> (outcome: Result<Registry, LoadError>)
        ensures
            load_outcome(outcome, *schema, spec_effective(local, baseline)),
    {
        Registry::new(schema, local, baseline)
    }

    /// Opens the registry as `new` does. The path is not used.
    pub fn load_from_directory(
        _registry_path: &str,
        schema: &CompiledSchema,
        local: LocalOverrides,
        baseline: DocumentSet,
    ) -> (outcome: Result<Registry, LoadError>)
        ensures
            load_outcome(outcome, *schema, spec_effective(local, baseline)),
    {
        Registry::new(schema, local, baseline)
    }
}

/// The directory in which an ecosystem's local document is kept.
pub open spec fn spec_document_directory(language: Language) -> Seq<char> {
    "registry/data/"@ + language.spec_name()
}

/// The file name of an ecosystem's document.
pub open spec fn spec_document_file(language: Language) -> Seq<char> {
    match language {
        Language::Python => "trusted-packages.json"@,
        Language::Rust => "trusted-crates.json"@,
        Language::Go => "trusted-modules.json"@,
    }
}

/// The path of an ecosystem's local document.
pub open spec fn spec_document_path(language: Language) -> Seq<char> {
    spec_document_directory(language) + "/"@ + spec_document_file(language)
}

/// The directory in which the local document of `language` is kept.
pub fn document_directory(language: &Language) -> (directory: String)
    ensures
        directory@ == spec_document_directory(*language),
{
    glue("registry/data/", language.name())
}

/// The path of the local document of `language`.
pub fn document_path(language: &Language) -> (path: String)
    ensures
        path@ == spec_document_path(*language),
{
    let file = match language {
        Language::Python => "trusted-packages.json",
        Language::Rust => "trusted-crates.json",
        Language::Go => "trusted-modules.json",
    };
    let directory = document_directory(language);
    glue3(directory.as_str(), "/", file)
}

/// Why a registry could not be saved. When a write fails, the documents
/// written before it stay written, so what is on disk may no longer agree
/// across ecosystems.
#[derive(Debug)]
pub enum PersistError {
    /// Making the directory or writing the document of `ecosystem` failed.
    IoError { ecosystem: Language, message: String },
    /// The document about to be written for `ecosystem` does not pass the
    /// schema. Carries every violation. Nothing was written.
    SchemaViolation { ecosystem: Language, messages: Vec<String> },
}

/// What a persist error holds, as plain values.
pub enum PersistErrorView {
    IoError { ecosystem: Language, message: Seq<char> },
    SchemaViolation { ecosystem: Language, messages: Seq<Seq<char>> },
}

impl PersistErrorView {
    /// The ecosystem at which the save stopped.
    pub open spec fn ecosystem(self) -> Language {
        match self {
            PersistErrorView::IoError { ecosystem, .. } => ecosystem,
            PersistErrorView::SchemaViolation { ecosystem, .. } => ecosystem,
        }
    }

    /// The error in words.
    pub open spec fn message(self) -> Seq<char> {
        match self {
            PersistErrorView::IoError { ecosystem, message } => "could not save the "@
                + ecosystem.spec_name() + " registry: "@ + message,
            PersistErrorView::SchemaViolation { ecosystem, messages } => ecosystem.spec_name()
                + " registry schema validation failed: "@ + spec_join(messages, ", "@),
        }
    }
}

impl View for PersistError {
    type V = PersistErrorView;

    open spec fn view(&self) -> PersistErrorView {
        match self {
            PersistError::IoError { ecosystem, message } => PersistErrorView::IoError {
                ecosystem: *ecosystem,
                message: message@,
            },
            PersistError::SchemaViolation {
                ecosystem,
                messages,
            } => PersistErrorView::SchemaViolation {
                ecosystem: *ecosystem,
                messages: texts(messages@),
            },
        }
    }
}

impl PersistError {
    /// The ecosystem at which the save stopped.
    pub fn ecosystem(&self) -> (ecosystem: Language)
        ensures
            ecosystem == self@.ecosystem(),
    {
        match self {
            PersistError::IoError { ecosystem, .. } => *ecosystem,
            PersistError::SchemaViolation { ecosystem, .. } => *ecosystem,
        }
    }

    /// The error in words, with every violation where there are any.
    pub fn message(&self) -> (message: String)
        ensures
            message@ == self@.message(),
    {
        match self {
            PersistError::IoError { ecosystem, message } => {
                let mut text = glue3("could not save the ", ecosystem.name(), " registry: ");
                text.append(message.as_str());
                text
            },
            PersistError::SchemaViolation { ecosystem, messages } => {
                let listed = join(messages, ", ");
                glue3(ecosystem.name(), " registry schema validation failed: ", listed.as_str())
            },
        }
    }
}

/// One step of a save.
#[derive(Clone, Copy, Debug, PartialEq, Eq, Structural)]
pub enum SaveStep {
    /// Hold the document about to be written for the ecosystem against
    /// the schema.
    ValidateDocument { ecosystem: Language },
    /// Make sure that the directory of the ecosystem's document exists.
    CreateDirectory { ecosystem: Language },
    /// Write the ecosystem's collection to its document.
    WriteDocument { ecosystem: Language },
}

impl SaveStep {
    /// The ecosystem that the step works on.
    pub open spec fn ecosystem(self) -> Language {
        match self {
            SaveStep::ValidateDocument { ecosystem } => ecosystem,
            SaveStep::CreateDirectory { ecosystem } => ecosystem,
            SaveStep::WriteDocument { ecosystem } => ecosystem,
        }
    }
}

/// How a step of a save ended.
#[derive(Debug)]
pub enum StepReport {
    /// The step was done.
    Done,
    /// The directory could not be made or the document not written.
    Failed { message: String },
    /// The document does not pass the schema.
    Refused { messages: Vec<String> },
}

/// What a step report holds, as plain values.
pub enum StepReportView {
    Done,
    Failed { message: Seq<char> },
    Refused { messages: Seq<Seq<char>> },
}

impl View for StepReport {
    type V = StepReportView;

    open spec fn view(&self) -> StepReportView {
        match self {
            StepReport::Done => StepReportView::Done,
            StepReport::Failed { message } => StepReportView::Failed { message: message@ },
            StepReport::Refused { messages } => StepReportView::Refused {
                messages: texts(messages@),
            },
        }
    }
}

/// Whether `report` is the validator's word on the text of a document
/// about to be written: done where the text is a JSON document without a
/// violation, else refused, with every violation where it is JSON.
pub open spec fn is_report_on(
    report: StepReportView,
    schema: CompiledSchema,
    text: Seq<char>,
) -> bool {
    if json_parses(text) {
        let violations = violations_of(schema.tree_view(), parsed_value(text));
        if violations.len() == 0 {
            report == StepReportView::Done
        } else {
            report == (StepReportView::Refused { messages: violations })
        }
    } else {
        report is Refused
    }
}

/// Holds the text of a document about to be written against the schema.
pub fn validate_outgoing(schema: &CompiledSchema, text: &str) -> (report: StepReport)
    ensures
        is_report_on(report@, *schema, text@),
{
    match schema.validate_text(text) {
        Ok(Ok(())) => StepReport::Done,
        Ok(Err(error)) => StepReport::Refused { messages: error.messages },
        Err(message) => {
            let mut messages: Vec<String> = Vec::new();
            messages.push(message);
            StepReport::Refused { messages }
        },
    }
}

/// The steps of a save in their order: the three documents are validated
/// first, so that a document that would not load again stops the save
/// before anything is written; then the three directories, then the three
/// documents, each time python, rust, go.
pub open spec fn spec_save_steps() -> Seq<SaveStep> {
    seq![
        SaveStep::ValidateDocument { ecosystem: Language::Python },
        SaveStep::ValidateDocument { ecosystem: Language::Rust },
        SaveStep::ValidateDocument { ecosystem: Language::Go },
        SaveStep::CreateDirectory { ecosystem: Language::Python },
        SaveStep::CreateDirectory { ecosystem: Language::Rust },
        SaveStep::CreateDirectory { ecosystem: Language::Go },
        SaveStep::WriteDocument { ecosystem: Language::Python },
        SaveStep::WriteDocument { ecosystem: Language::Rust },
        SaveStep::WriteDocument { ecosystem: Language::Go },
    ]
}

/// How far a save has come: the number of steps that succeeded.
#[derive(Clone, Copy, Debug, PartialEq, Eq, Structural)]
pub struct SaveProgress {
    pub done: u8,
}

impl SaveProgress {
    /// Whether every step has succeeded. Only then is the registry saved.
    pub open spec fn is_complete(self) -> bool {
        self.done >= spec_save_steps().len()
    }

    /// The step to perform next, if any is left.
    pub open spec fn spec_next_step(self) -> Option<SaveStep> {
        if self.is_complete() {
            None
        } else {
            Some(spec_save_steps()[self.done as int])
        }
    }

    /// What follows the report on the step that was due: one step further,
    /// or the error that names the ecosystem of the step that did not
    /// succeed. Nothing written before is taken back.
    pub open spec fn spec_advance(self, report: StepReportView) -> Result<
        SaveProgress,
        PersistErrorView,
    > {
        match self.spec_next_step() {
            None => Ok(self),
            Some(step) => match report {
                StepReportView::Done => Ok(SaveProgress { done: (self.done + 1) as u8 }),
                StepReportView::Failed { message } => Err(
                    PersistErrorView::IoError { ecosystem: step.ecosystem(), message },
                ),
                StepReportView::Refused { messages } => Err(
                    PersistErrorView::SchemaViolation { ecosystem: step.ecosystem(), messages },
                ),
            },
        }
    }

    /// A save of which nothing has been done yet.
    pub fn start() -> (progress: SaveProgress)
        ensures
            progress.done == 0,
    {
        SaveProgress { done: 0 }
    }

    /// The step to perform next; `None` when the save is complete.
    pub fn next_step(&self) -> (step: Option<SaveStep>)
        ensures
            step == self.spec_next_step(),
    {
        if self.done == 0 {
            Some(SaveStep::ValidateDocument { ecosystem: Language::Python })
        } else if self.done == 1 {
            Some(SaveStep::ValidateDocument { ecosystem: Language::Rust })
        } else if self.done == 2 {
            Some(SaveStep::ValidateDocument { ecosystem: Language::Go })
        } else if self.done == 3 {
            Some(SaveStep::CreateDirectory { ecosystem: Language::Python })
        } else if self.done == 4 {
            Some(SaveStep::CreateDirectory { ecosystem: Language::Rust })
        } else if self.done == 5 {
            Some(SaveStep::CreateDirectory { ecosystem: Language::Go })
        } else if self.done == 6 {
            Some(SaveStep::WriteDocument { ecosystem: Language::Python })
        } else if self.done == 7 {
            Some(SaveStep::WriteDocument { ecosystem: Language::Rust })
        } else if self.done == 8 {
            Some(SaveStep::WriteDocument { ecosystem: Language::Go })
        } else {
            None
        }
    }

    /// Takes in the report on the step that was due.
    pub fn advance(self, report: StepReport) -> (next: Result<SaveProgress, PersistError>)
        ensures
            match self.spec_advance(report@) {
                Ok(progress) => next == Ok::<SaveProgress, PersistError>(progress),
                Err(error) => next matches Err(e) && e@ == error,
            },
    {
        match self.next_step() {
            None => Ok(self),
            Some(step) => {
                let ecosystem = match step {
                    SaveStep::ValidateDocument { ecosystem } => ecosystem,
                    SaveStep::CreateDirectory { ecosystem } => ecosystem,
                    SaveStep::WriteDocument { ecosystem } => ecosystem,
                };
                match report {
                    StepReport::Done => Ok(SaveProgress { done: self.done + 1 }),
                    StepReport::Failed { message } => Err(
                        PersistError::IoError { ecosystem, message },
                    ),
                    StepReport::Refused { messages } => Err(
                        PersistError::SchemaViolation { ecosystem, messages },
                    ),
                }
            },
        }
    }
}

/// The progress after the reports on the steps so far, or the first
/// failure among them.
pub open spec fn spec_save_run(reports: Seq<StepReportView>) -> Result<
    SaveProgress,
    PersistErrorView,
>
    decreases reports.len(),
{
    if reports.len() == 0 {
        Ok(SaveProgress { done: 0 })
    } else {
        match spec_save_run(reports.drop_last()) {
            Ok(progress) => progress.spec_advance(reports.last()),
            Err(failure) => Err(failure),
        }
    }
}

/// While no step has failed and steps are left, every report counts as
/// one step.
pub proof fn lemma_save_progress_counts(reports: Seq<StepReportView>)
    ensures
        spec_save_run(reports) matches Ok(progress) ==> progress.done == if reports.len()
            <= spec_save_steps().len() {
            reports.len()
        } else {
            spec_save_steps().len()
        },
    decreases reports.len(),
{
    if reports.len() > 0 {
        lemma_save_progress_counts(reports.drop_last());
    }
}

/// A save is complete only when every one of its steps has succeeded: all
/// three documents passed the schema, and the three directories and the
/// three documents were written. A step that fails leaves it incomplete
/// for good, and no document is written before all three have passed.
pub proof fn lemma_save_completes_only_if_all_succeed(reports: Seq<StepReportView>)
    ensures
        match spec_save_run(reports) {
            Ok(progress) => {
                &&& progress.done <= reports.len()
                &&& progress.done <= spec_save_steps().len()
                &&& forall|i: int| 0 <= i < progress.done ==> (#[trigger] reports[i]) is Done
                &&& progress.is_complete() ==> reports.len() >= spec_save_steps().len()
                &&& progress.spec_next_step() matches Some(SaveStep::WriteDocument { .. })
                    ==> progress.done >= 6
            },
            Err(_) => exists|i: int| 0 <= i < reports.len() && !((#[trigger] reports[i]) is Done),
        },
    decreases reports.len(),
{
    if reports.len() > 0 {
        let front = reports.drop_last();
        lemma_save_completes_only_if_all_succeed(front);
        match spec_save_run(front) {
            Ok(progress) => {
                assert forall|i: int| 0 <= i < progress.done implies (#[trigger] reports[i])
                    is Done by {
                    assert(reports[i] == front[i]);
                }
                if progress.spec_next_step() is Some {
                    if !(reports.last() is Done) {
                        assert(!(reports[reports.len() - 1] is Done));
                    } else {
                        lemma_save_progress_counts(front);
                        assert(reports[progress.done as int] == reports.last());
                    }
                }
            },
            Err(_) => {
                let i = choose|i: int| 0 <= i < front.len() && !((#[trigger] front[i]) is Done);
                assert(reports[i] == front[i]);
            },
        }
    }
}

/// A document with a violation is refused whatever decoding gave, and the
/// refusal carries every violation: none of its records is taken over.
pub proof fn lemma_violations_refuse_document(
    ecosystem: Language,
    violations: Seq<Seq<char>>,
    decoded: Result<Seq<RecordView>, Seq<char>>,
)
    requires
        violations.len() > 0,
    ensures
        spec_admit(ecosystem, violations, decoded) == Err::<Seq<RecordView>, LoadErrorView>(
            LoadErrorView::SchemaViolation { ecosystem, messages: violations },
        ),
{
}

/// A load refuses a document that is JSON and violates the schema with a
/// schema violation that names its ecosystem and carries every violation
/// found, provided the documents before it pass; no registry comes into
/// being.
pub proof fn lemma_load_refuses_violating_document(
    outcome: Result<Registry, LoadError>,
    schema: CompiledSchema,
    documents: DocumentSet,
)
    requires
        load_outcome(outcome, schema, documents),
        json_parses(documents.python.text@),
        violations_of(schema.tree_view(), parsed_value(documents.python.text@)).len() > 0,
    ensures
        outcome matches Err(error) && error@ == (LoadErrorView::SchemaViolation {
            ecosystem: Language::Python,
            messages: violations_of(schema.tree_view(), parsed_value(documents.python.text@)),
        }),
{
}

/// What was saved loads again: where the three documents that a save
/// validated are the ones that the next load reads, and decoding gives
/// back the records that were written, the load succeeds and the registry
/// holds each collection as it was, record for record.
pub proof fn lemma_saved_documents_load_back(
    outcome: Result<Registry, LoadError>,
    schema: CompiledSchema,
    documents: DocumentSet,
    saved: RegistryView,
)
    requires
        load_outcome(outcome, schema, documents),
        is_report_on(StepReportView::Done, schema, documents.python.text@),
        is_report_on(StepReportView::Done, schema, documents.rust.text@),
        is_report_on(StepReportView::Done, schema, documents.go.text@),
        decoded_view(documents.python.decoded) == Ok::<Seq<RecordView>, Seq<char>>(saved.python),
        decoded_view(documents.rust.decoded) == Ok::<Seq<RecordView>, Seq<char>>(saved.rust),
        decoded_view(documents.go.decoded) == Ok::<Seq<RecordView>, Seq<char>>(saved.go),
    ensures
        outcome matches Ok(registry) && registry@ == saved,
{
}

} // verus!
