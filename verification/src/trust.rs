//! Trust decisions: the records that a trust decision creates, the bulk
//! import, and the words in which the outcome is reported.

use vstd::prelude::*;
use crate::clock::current_date;
use crate::collection::{has_name, lemma_without_absent_name, names_unique, spec_without};
use crate::fetch::{outcome_view, FetchError, FetchErrorView};
use crate::language::Language;
use crate::package::{PackageRecord, RecordView};
use crate::registry::{Registry, RegistryView};
use crate::score::TrustScore;
use crate::text::{glue3, optional_str, texts};

verus! {

/// The endorser recorded for a decision that the user took.
pub open spec fn spec_user() -> Seq<char> {
    "user"@
}

/// The endorser recorded for a package that came in with a bulk import.
pub open spec fn spec_bulk_import() -> Seq<char> {
    "bulk-import"@
}

/// The score of a decision: the one the caller named, else 5.0.
pub open spec fn spec_score_or_neutral(score: Option<TrustScore>) -> TrustScore {
    match score {
        Some(s) => s,
        None => TrustScore { bits: 0x4014_0000_0000_0000 },
    }
}

/// A fetched record after a trust decision: the score is the one decided,
/// where one was, and the endorser is appended to those already there.
pub open spec fn spec_endorse(
    record: RecordView,
    score: Option<TrustScore>,
    endorser: Seq<char>,
) -> RecordView {
    RecordView {
        trust_score: match score {
            Some(s) => s,
            None => record.trust_score,
        },
        endorsed_by: record.endorsed_by.push(endorser),
        ..record
    }
}

/// The record of a package that the user trusts without a fetch.
pub open spec fn spec_manual_record(
    name: Seq<char>,
    version: Option<Seq<char>>,
    score: Option<TrustScore>,
    today: Seq<char>,
) -> RecordView {
    RecordView {
        name,
        version: match version {
            Some(v) => v,
            None => "1.0.0"@,
        },
        hash: "sha256:manual"@,
        trust_score: spec_score_or_neutral(score),
        endorsed_by: seq![spec_user()],
        last_reviewed: today,
        source: Some("https://manual.entry"@),
    }
}

/// The record of a package that a bulk import takes over without a fetch.
pub open spec fn spec_bulk_record(
    name: Seq<char>,
    score: Option<TrustScore>,
    today: Seq<char>,
) -> RecordView {
    RecordView {
        name,
        version: "1.0.0"@,
        hash: "manual"@,
        trust_score: spec_score_or_neutral(score),
        endorsed_by: seq![spec_bulk_import()],
        last_reviewed: today,
        source: Some("manual"@),
    }
}

/// The record that a trust decision of the user inserts: the fetched one,
/// endorsed, where there is one, else a manual one.
pub open spec fn spec_trusted_record(
    fetched: Option<RecordView>,
    name: Seq<char>,
    version: Option<Seq<char>>,
    score: Option<TrustScore>,
    today: Seq<char>,
) -> RecordView {
    match fetched {
        Some(record) => spec_endorse(record, score, spec_user()),
        None => spec_manual_record(name, version, score, today),
    }
}

/// What a bulk import makes of one name: the fetched record, endorsed; the
/// failure of the fetch, passed on; or, without a fetch, a bulk record.
pub open spec fn spec_bulk_entry(
    fetched: Option<Result<RecordView, FetchErrorView>>,
    name: Seq<char>,
    score: Option<TrustScore>,
    today: Seq<char>,
) -> Result<RecordView, FetchErrorView> {
    match fetched {
        Some(Ok(record)) => Ok(spec_endorse(record, score, spec_bulk_import())),
        Some(Err(error)) => Err(error),
        None => Ok(spec_bulk_record(name, score, today)),
    }
}

/// The view of an optional record.
pub open spec fn optional_record(record: Option<PackageRecord>) -> Option<RecordView> {
    match record {
        Some(r) => Some(r@),
        None => None,
    }
}

/// The view of what a fetch gave, where there was one.
pub open spec fn optional_outcome(fetched: Option<Result<PackageRecord, FetchError>>) -> Option<
    Result<RecordView, FetchErrorView>,
> {
    match fetched {
        Some(outcome) => Some(outcome_view(outcome)),
        None => None,
    }
}

/// The score to record: `score` where the caller named one, else 5.0.
pub fn score_or_neutral(score: Option<TrustScore>) -> (chosen: TrustScore)
    ensures
        chosen == spec_score_or_neutral(score),
{
    match score {
        Some(s) => s,
        None => TrustScore::neutral(),
    }
}

/// Applies a trust decision to a fetched record.
pub fn endorse(record: PackageRecord, score: Option<TrustScore>, endorser: &str) -> (endorsed:
    PackageRecord)
    ensures
        endorsed@ == spec_endorse(record@, score, endorser@),
{
    let mut endorsed = record;
    match score {
        Some(s) => {
            endorsed.trust_score = s;
        },
        None => {},
    }
    let ghost before = texts(endorsed.endorsed_by@);
    endorsed.endorsed_by.push(String::from_str(endorser));
    proof {
        assert(texts(endorsed.endorsed_by@) =~= before.push(endorser@));
    }
    endorsed
}

/// The manual record of `package`, dated `today`.
pub fn manual_record_dated(
    package: &str,
    version: Option<&str>,
    score: Option<TrustScore>,
    today: &str,
) -> (record: PackageRecord)
    ensures
        record@ == spec_manual_record(package@, optional_str(version), score, today@),
{
    let version = match version {
        Some(v) => String::from_str(v),
        None => String::from_str("1.0.0"),
    };
    let mut endorsed_by: Vec<String> = Vec::new();
    endorsed_by.push(String::from_str("user"));
    proof {
        assert(texts(endorsed_by@) =~= seq![spec_user()]);
    }
    PackageRecord {
        name: String::from_str(package),
        version,
        hash: String::from_str("sha256:manual"),
        trust_score: score_or_neutral(score),
        endorsed_by,
        last_reviewed: String::from_str(today),
        source: Some(String::from_str("https://manual.entry")),
    }
}

/// The bulk record of `package`, dated `today`.
pub fn bulk_record_dated(package: &str, score: Option<TrustScore>, today: &str) -> (record:
    PackageRecord)
    ensures
        record@ == spec_bulk_record(package@, score, today@),
{
    let mut endorsed_by: Vec<String> = Vec::new();
    endorsed_by.push(String::from_str("bulk-import"));
    proof {
        assert(texts(endorsed_by@) =~= seq![spec_bulk_import()]);
    }
    PackageRecord {
        name: String::from_str(package),
        version: String::from_str("1.0.0"),
        hash: String::from_str("manual"),
        trust_score: score_or_neutral(score),
        endorsed_by,
        last_reviewed: String::from_str(today),
        source: Some(String::from_str("manual")),
    }
}

/// The record that a trust decision of the user inserts, a manual one
/// being dated `today`.
pub fn trusted_record_dated(
    fetched: Option<PackageRecord>,
    package: &str,
    version: Option<&str>,
    score: Option<TrustScore>,
    today: &str,
) -> (record: PackageRecord)
    ensures
        record@ == spec_trusted_record(
            optional_record(fetched),
            package@,
            optional_str(version),
            score,
            today@,
        ),
{
    match fetched {
        Some(found) => endorse(found, score, "user"),
        None => manual_record_dated(package, version, score, today),
    }
}

/// The record that a trust decision of the user inserts. A manual record
/// is dated with the current date; a fetched one keeps the date of its
/// fetch.
pub fn trusted_record(
    fetched: Option<PackageRecord>,
    package: &str,
    version: Option<&str>,
    score: Option<TrustScore>,
) -> (record: PackageRecord)
    ensures
        exists|today: Seq<char>|
            record@ == #[trigger] spec_trusted_record(
                optional_record(fetched),
                package@,
                optional_str(version),
                score,
                today,
            ),
{
    let today = current_date();
    let record = trusted_record_dated(fetched, package, version, score, today.as_str());
    proof {
        assert(record@ == spec_trusted_record(
            optional_record(fetched),
            package@,
            optional_str(version),
            score,
            today@,
        ));
    }
    record
}

/// What a bulk import makes of the name `package`, a bulk record being
/// dated `today`.
pub fn bulk_entry_dated(
    fetched: Option<Result<PackageRecord, FetchError>>,
    package: &str,
    score: Option<TrustScore>,
    today: &str,
) -> (entry: Result<PackageRecord, FetchError>)
    ensures
        outcome_view(entry) == spec_bulk_entry(optional_outcome(fetched), package@, score, today@),
{
    match fetched {
        Some(Ok(found)) => Ok(endorse(found, score, "bulk-import")),
        Some(Err(error)) => Err(error),
        None => Ok(bulk_record_dated(package, score, today)),
    }
}

/// What a bulk import makes of the name `package`. A bulk record is dated
/// with the current date.
pub fn bulk_entry(
    fetched: Option<Result<PackageRecord, FetchError>>,
    package: &str,
    score: Option<TrustScore>,
) -> (entry: Result<PackageRecord, FetchError>)
    ensures
        exists|today: Seq<char>|
            outcome_view(entry) == #[trigger] spec_bulk_entry(
                optional_outcome(fetched),
                package@,
                score,
                today,
            ),
{
    let today = current_date();
    let entry = bulk_entry_dated(fetched, package, score, today.as_str());
    proof {
        assert(outcome_view(entry) == spec_bulk_entry(
            optional_outcome(fetched),
            package@,
            score,
            today@,
        ));
    }
    entry
}

/// The count of a bulk import.
#[derive(Clone, Copy, Debug, PartialEq, Eq, Structural)]
pub struct BulkReport {
    /// How many names were taken into the registry.
    pub success_count: usize,
    /// How many names failed and were passed over.
    pub error_count: usize,
}

/// The records among the outcomes of a bulk import, in their order.
pub open spec fn spec_successful(outcomes: Seq<Result<RecordView, FetchErrorView>>) -> Seq<
    RecordView,
>
    decreases outcomes.len(),
{
    if outcomes.len() == 0 {
        Seq::empty()
    } else {
        let before = spec_successful(outcomes.drop_last());
        match outcomes.last() {
            Ok(record) => before.push(record),
            Err(_) => before,
        }
    }
}

/// The registry after a bulk import: the records among the outcomes are
/// inserted one after another, in their order; a failure is passed over
/// and changes nothing.
pub open spec fn spec_apply_bulk(
    registry: RegistryView,
    language: Language,
    outcomes: Seq<Result<RecordView, FetchErrorView>>,
) -> RegistryView
    decreases outcomes.len(),
{
    if outcomes.len() == 0 {
        registry
    } else {
        let before = spec_apply_bulk(registry, language, outcomes.drop_last());
        match outcomes.last() {
            Ok(record) => before.insert(record, language),
            Err(_) => before,
        }
    }
}

/// The outcomes of a bulk import, as plain values.
pub open spec fn outcome_views(outcomes: Seq<Result<PackageRecord, FetchError>>) -> Seq<
    Result<RecordView, FetchErrorView>,
> {
    outcomes.map_values(|o: Result<PackageRecord, FetchError>| outcome_view(o))
}

/// Takes the outcomes of a bulk import into the collection of `language`,
/// one after another, and counts. One failed name does not end the import:
/// it is counted and passed over.
pub fn apply_bulk(
    registry: &mut Registry,
    language: &Language,
    outcomes: &Vec<Result<PackageRecord, FetchError>>,
) -> (report: BulkReport)
    ensures
        final(registry)@ == spec_apply_bulk(old(registry)@, *language, outcome_views(outcomes@)),
        report.success_count == spec_successful(outcome_views(outcomes@)).len(),
        report.success_count + report.error_count == outcomes.len(),
{
    let ghost all = outcome_views(outcomes@);
    let mut success_count: usize = 0;
    let mut error_count: usize = 0;
    let mut i: usize = 0;
    proof {
        assert(all.take(0) =~= Seq::empty());
    }
    while i < outcomes.len()
        invariant
            0 <= i <= outcomes.len(),
            all == outcome_views(outcomes@),
            registry@ == spec_apply_bulk(old(registry)@, *language, all.take(i as int)),
            success_count == spec_successful(all.take(i as int)).len(),
            success_count + error_count == i,
        decreases outcomes.len() - i,
    {
        proof {
            let grown = all.take(i + 1);
            assert(grown.drop_last() =~= all.take(i as int));
            assert(grown.last() == outcome_view(outcomes@[i as int]));
        }
        match &outcomes[i] {
            Ok(record) => {
                registry.add_package(record.clone(), language);
                success_count = success_count + 1;
            },
            Err(_) => {
                error_count = error_count + 1;
            },
        }
        i = i + 1;
    }
    proof {
        assert(all.take(outcomes.len() as int) =~= all);
    }
    BulkReport { success_count, error_count }
}

/// Whether no two records of `records` share a name and none of them
/// bears a name that `existing` holds.
pub open spec fn all_new(records: Seq<RecordView>, existing: Seq<RecordView>) -> bool {
    &&& names_unique(records)
    &&& forall|i: int| 0 <= i < records.len() ==> !has_name(existing, #[trigger] records[i].name)
}

/// A bulk import of names that are new to the collection, and distinct
/// among themselves, appends exactly the records that were fetched, in
/// their order, to what the collection held; the failed names leave no
/// trace, and the other collections stay as they were.
pub proof fn lemma_bulk_appends_new_records(
    registry: RegistryView,
    language: Language,
    outcomes: Seq<Result<RecordView, FetchErrorView>>,
)
    requires
        all_new(spec_successful(outcomes), registry.records(language)),
    ensures
        spec_apply_bulk(registry, language, outcomes).records(language) == registry.records(
            language,
        ) + spec_successful(outcomes),
        forall|other: Language|
            other != language ==> spec_apply_bulk(registry, language, outcomes).records(other)
                == registry.records(other),
    decreases outcomes.len(),
{
    let existing = registry.records(language);
    if outcomes.len() > 0 {
        let front = outcomes.drop_last();
        let earlier = spec_successful(front);
        let all = spec_successful(outcomes);
        assert forall|i: int| 0 <= i < earlier.len() implies earlier[i] == all[i] by {}
        assert(all_new(earlier, existing)) by {
            assert forall|i: int, j: int|
                0 <= i < j < earlier.len() implies #[trigger] earlier[i].name
                != #[trigger] earlier[j].name by {
                assert(earlier[i] == all[i]);
                assert(earlier[j] == all[j]);
            }
            assert forall|i: int| 0 <= i < earlier.len() implies !has_name(
                existing,
                #[trigger] earlier[i].name,
            ) by {
                assert(earlier[i] == all[i]);
            }
        }
        lemma_bulk_appends_new_records(registry, language, front);
        let before = spec_apply_bulk(registry, language, front);
        match outcomes.last() {
            Ok(record) => {
                let held = before.records(language);
                assert(all[all.len() - 1] == record);
                assert(!has_name(existing, all[all.len() - 1].name));
                if has_name(held, record.name) {
                    let at = choose|i: int|
                        0 <= i < held.len() && #[trigger] held[i].name == record.name;
                    if at < existing.len() {
                        assert(existing[at].name == record.name);
                    } else {
                        let k = at - existing.len();
                        assert(held[at] == earlier[k]);
                        assert(all[k].name != all[all.len() - 1].name);
                    }
                }
                lemma_without_absent_name(held, record.name);
                assert(held.push(record) =~= existing + all);
            },
            Err(_) => {},
        }
    } else {
        assert(existing + spec_successful(outcomes) =~= existing);
    }
}

/// The report of a trust decision.
pub open spec fn spec_trust_message(package: Seq<char>, language: Language) -> Seq<char> {
    "\u{2713} added '"@ + package + "' to trusted "@ + language.spec_name() + " packages"@
}

/// The report of a removal: that the package left the registry, or that
/// it was not there.
pub open spec fn spec_untrust_message(
    package: Seq<char>,
    language: Language,
    removed: bool,
) -> Seq<char> {
    if removed {
        "\u{2713} removed '"@ + package + "' from trusted "@ + language.spec_name() + " packages"@
    } else {
        "\u{26a0} package '"@ + package + "' was not found in trusted "@ + language.spec_name()
            + " packages"@
    }
}

/// Says that `package` was added to the registry of `language`.
pub fn trust_message(package: &str, language: &Language) -> (message: String)
    ensures
        message@ == spec_trust_message(package@, *language),
{
    let mut message = glue3("\u{2713} added '", package, "' to trusted ");
    message.append(language.name());
    message.append(" packages");
    message
}

/// Says what a removal did: the two cases read differently.
pub fn untrust_message(package: &str, language: &Language, removed: bool) -> (message: String)
    ensures
        message@ == spec_untrust_message(package@, *language, removed),
{
    let mut message = if removed {
        glue3("\u{2713} removed '", package, "' from trusted ")
    } else {
        glue3("\u{26a0} package '", package, "' was not found in trusted ")
    };
    message.append(language.name());
    message.append(" packages");
    message
}

/// What a removal did.
#[derive(Debug)]
pub struct Removal {
    /// Whether a record left the registry.
    pub removed: bool,
    /// Whether the registry has to be saved: it has exactly when a record
    /// left it.
    pub must_save: bool,
    /// The report of the removal.
    pub message: String,
}

/// Withdraws the trust in `package`: removes its first record from the
/// collection of `language`. A registry that holds no such record stays as
/// it is and need not be saved.
pub fn untrust(registry: &mut Registry, package: &str, language: &Language) -> (removal: Removal)
    ensures
        final(registry)@ == old(registry)@.remove(package@, *language),
        removal.removed == has_name(old(registry)@.records(*language), package@),
        removal.must_save == removal.removed,
        removal.message@ == spec_untrust_message(package@, *language, removal.removed),
{
    let removed = registry.remove_package(package, language);
    Removal { removed, must_save: removed, message: untrust_message(package, language, removed) }
}

/// The line that heads a listing.
pub open spec fn spec_list_heading(language: Option<Language>) -> Seq<char> {
    match language {
        Some(l) => "trusted "@ + l.spec_name() + " packages:"@,
        None => "all trusted packages:"@,
    }
}

/// The line of one record in a listing. The score arrives as text, written
/// by the caller.
pub open spec fn spec_list_line(record: RecordView, score_text: Seq<char>) -> Seq<char> {
    "  "@ + record.name + " "@ + record.version + " (score: "@ + score_text + ") - "@
        + record.last_reviewed
}

/// The heading of a listing of `language`, or of all ecosystems.
pub fn list_heading(language: Option<&Language>) -> (heading: String)
    ensures
        heading@ == spec_list_heading(
            match language {
                Some(l) => Some(*l),
                None => None,
            },
        ),
{
    match language {
        Some(l) => glue3("trusted ", l.name(), " packages:"),
        None => String::from_str("all trusted packages:"),
    }
}

/// The line of `record` in a listing.
pub fn list_line(record: &PackageRecord, score_text: &str) -> (line: String)
    ensures
        line@ == spec_list_line(record@, score_text@),
{
    let mut line = glue3("  ", record.name.as_str(), " ");
    line.append(record.version.as_str());
    line.append(" (score: ");
    line.append(score_text);
    line.append(") - ");
    line.append(record.last_reviewed.as_str());
    line
}

} // verus!
