//! The canonical record of one trusted package.

use vstd::prelude::*;
use crate::score::TrustScore;
use crate::text::{copy_texts, optional_text, texts};

verus! {

/// One entry of a trust registry.
///
/// A record is never changed in place once it is in a registry: a new trust
/// decision replaces the record under the same name.
#[derive(Debug)]
pub struct PackageRecord {
    /// The package's name: its identity within an ecosystem.
    pub name: String,
    /// The version that was reviewed. Informational only.
    pub version: String,
    /// The published digest of the reviewed artifact, as `algorithm:hex`.
    pub hash: String,
    /// How much the package is trusted. Not clamped to any range.
    pub trust_score: TrustScore,
    /// Who endorsed the package, in the order in which they did.
    pub endorsed_by: Vec<String>,
    /// The date of the latest trust decision, as `YYYY-MM-DD`.
    pub last_reviewed: String,
    /// Where the artifact comes from. Older records carry none.
    pub source: Option<String>,
}

/// What a record holds, as plain values.
pub struct RecordView {
    pub name: Seq<char>,
    pub version: Seq<char>,
    pub hash: Seq<char>,
    pub trust_score: TrustScore,
    pub endorsed_by: Seq<Seq<char>>,
    pub last_reviewed: Seq<char>,
    pub source: Option<Seq<char>>,
}

impl View for PackageRecord {
    type V = RecordView;

    open spec fn view(&self) -> RecordView {
        RecordView {
            name: self.name@,
            version: self.version@,
            hash: self.hash@,
            trust_score: self.trust_score,
            endorsed_by: texts(self.endorsed_by@),
            last_reviewed: self.last_reviewed@,
            source: optional_text(self.source),
        }
    }
}

impl Clone for PackageRecord {
    /// A copy that holds the same values, field by field.
    fn clone(&self) -> (copy: PackageRecord)
        ensures
            copy@ == self@,
    {
        let source = match &self.source {
            Some(uri) => Some(uri.clone()),
            None => None,
        };
        PackageRecord {
            name: self.name.clone(),
            version: self.version.clone(),
            hash: self.hash.clone(),
            trust_score: self.trust_score,
            endorsed_by: copy_texts(&self.endorsed_by),
            last_reviewed: self.last_reviewed.clone(),
            source,
        }
    }
}

/// The views of a run of records, in order.
pub open spec fn record_views(records: Seq<PackageRecord>) -> Seq<RecordView> {
    records.map_values(|r: PackageRecord| r@)
}

} // verus!
