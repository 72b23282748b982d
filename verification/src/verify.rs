//! The verification engine: looks a package up and holds its trust score
//! against a threshold.

use vstd::prelude::*;
use crate::language::Language;
use crate::package::{PackageRecord, RecordView};
use crate::registry::{Registry, RegistryView};
use crate::score::TrustScore;
use crate::text::{glue, glue3, join, spec_join, texts};

verus! {

/// The three outcomes of a verification. `Unknown` means that the registry
/// holds no record of the package; `BelowThreshold` that it holds one whose
/// score does not reach the threshold.
#[derive(Clone, Copy, Debug, PartialEq, Eq, Structural)]
pub enum Verdict {
    Trusted,
    BelowThreshold,
    Unknown,
}

/// What a verification found. Derived from the registry and never stored.
#[derive(Debug)]
pub struct VerificationResult {
    pub package_name: String,
    pub package_entry: Option<PackageRecord>,
    pub trust_score: Option<TrustScore>,
    pub is_trusted: bool,
    pub trust_threshold: TrustScore,
}

/// What a verification result holds, as plain values.
pub struct ResultView {
    pub package_name: Seq<char>,
    pub package_entry: Option<RecordView>,
    pub trust_score: Option<TrustScore>,
    pub is_trusted: bool,
    pub trust_threshold: TrustScore,
}

impl ResultView {
    /// The outcome that the result stands for.
    pub open spec fn verdict(self) -> Verdict {
        if self.package_entry is None {
            Verdict::Unknown
        } else if self.is_trusted {
            Verdict::Trusted
        } else {
            Verdict::BelowThreshold
        }
    }
}

impl View for VerificationResult {
    type V = ResultView;

    open spec fn view(&self) -> ResultView {
        ResultView {
            package_name: self.package_name@,
            package_entry: match self.package_entry {
                Some(entry) => Some(entry@),
                None => None,
            },
            trust_score: self.trust_score,
            is_trusted: self.is_trusted,
            trust_threshold: self.trust_threshold,
        }
    }
}

/// The result of verifying `name` in `language` against `threshold`: the
/// record found, its score, and whether that score is at least the
/// threshold. Without a record there is no score and no trust.
pub open spec fn spec_verify(
    registry: RegistryView,
    name: Seq<char>,
    language: Language,
    threshold: TrustScore,
) -> ResultView {
    let found = registry.lookup(name, language);
    ResultView {
        package_name: name,
        package_entry: found,
        trust_score: match found {
            Some(entry) => Some(entry.trust_score),
            None => None,
        },
        is_trusted: match found {
            Some(entry) => entry.trust_score.meets(threshold),
            None => false,
        },
        trust_threshold: threshold,
    }
}

/// Verifies `package` in the ecosystem `lang` against `trust_threshold`. The
/// version asked for plays no part: trust is a statement about a package,
/// not about one of its versions.
pub fn verify_package(
    package: &str,
    _version: Option<&str>,
    lang: &Language,
    registry: &Registry,
    trust_threshold: TrustScore,
) -> (result: VerificationResult)
    ensures
        result@ == spec_verify(registry@, package@, *lang, trust_threshold),
{
    let package_entry = registry.lookup_package(package, lang);
    match package_entry {
        Some(entry) => {
            let score = entry.trust_score;
            VerificationResult {
                package_name: String::from_str(package),
                package_entry: Some(entry.clone()),
                trust_score: Some(score),
                is_trusted: score.at_least(&trust_threshold),
                trust_threshold,
            }
        },
        None => VerificationResult {
            package_name: String::from_str(package),
            package_entry: None,
            trust_score: None,
            is_trusted: false,
            trust_threshold,
        },
    }
}

/// The lines that report a result. The two numbers arrive as text, written
/// by the caller: `score_text` for the record's score and `threshold_text`
/// for the threshold.
pub open spec fn spec_display(
    result: ResultView,
    score_text: Seq<char>,
    threshold_text: Seq<char>,
) -> Seq<Seq<char>> {
    let head = seq!["package: "@ + result.package_name];
    match result.package_entry {
        Some(entry) => {
            let body = seq![
                "version: "@ + entry.version,
                "trust score: "@ + score_text + "/10.0"@,
                "last reviewed: "@ + entry.last_reviewed,
                "endorsed by: "@ + spec_join(entry.endorsed_by, ", "@),
            ];
            let origin = match entry.source {
                Some(uri) => seq!["source: "@ + uri],
                None => Seq::empty(),
            };
            let outcome = if result.is_trusted {
                seq!["\u{2713} trusted (meets threshold of "@ + threshold_text + ")"@]
            } else {
                seq!["\u{26a0} below trust threshold (requires "@ + threshold_text + ")"@]
            };
            head + body + origin + outcome
        },
        None => head + seq![
            "\u{2718} not found in trusted registry"@,
            "this package has not been reviewed or endorsed"@,
        ],
    }
}

impl VerificationResult {
    /// Which of the three outcomes the result stands for.
    pub fn verdict(&self) -> (verdict: Verdict)
        ensures
            verdict == self@.verdict(),
    {
        if self.package_entry.is_none() {
            Verdict::Unknown
        } else if self.is_trusted {
            Verdict::Trusted
        } else {
            Verdict::BelowThreshold
        }
    }

    /// The report of the result, line by line. A package without a record
    /// is reported as not found, in words that no other outcome uses.
    pub fn display(&self, score_text: &str, threshold_text: &str) -> (lines: Vec<String>)
        ensures
            texts(lines@) == spec_display(self@, score_text@, threshold_text@),
    {
        let mut lines: Vec<String> = Vec::new();
        lines.push(glue("package: ", self.package_name.as_str()));
        match &self.package_entry {
            Some(entry) => {
                lines.push(glue("version: ", entry.version.as_str()));
                lines.push(glue3("trust score: ", score_text, "/10.0"));
                lines.push(glue("last reviewed: ", entry.last_reviewed.as_str()));
                let endorsers = join(&entry.endorsed_by, ", ");
                lines.push(glue("endorsed by: ", endorsers.as_str()));
                match &entry.source {
                    Some(uri) => {
                        lines.push(glue("source: ", uri.as_str()));
                    },
                    None => {},
                }
                if self.is_trusted {
                    lines.push(glue3("\u{2713} trusted (meets threshold of ", threshold_text, ")"));
                } else {
                    lines.push(
                        glue3("\u{26a0} below trust threshold (requires ", threshold_text, ")"),
                    );
                }
            },
            None => {
                lines.push(String::from_str("\u{2718} not found in trusted registry"));
                lines.push(String::from_str("this package has not been reviewed or endorsed"));
            },
        }
        proof {
            assert(texts(lines@) =~= spec_display(self@, score_text@, threshold_text@));
        }
        lines
    }
}

/// The boundary of the trust rule. A record whose score equals the threshold
/// is trusted; one whose score is below it, by however little, is found but
/// not trusted; a package without a record is unknown, and that outcome
/// arises in no other way.
pub proof fn lemma_verdict_boundary(
    registry: RegistryView,
    name: Seq<char>,
    language: Language,
    threshold: TrustScore,
)
    ensures
        ({
            let found = registry.lookup(name, language);
            let verdict = spec_verify(registry, name, language, threshold).verdict();
            &&& found is None <==> verdict == Verdict::Unknown
            &&& found matches Some(entry) ==> {
                &&& entry.trust_score.same_number(threshold) ==> verdict == Verdict::Trusted
                &&& entry.trust_score.below(threshold) ==> verdict == Verdict::BelowThreshold
                &&& verdict == Verdict::Trusted <==> entry.trust_score.meets(threshold)
            }
        }),
{
}

} // verus!
