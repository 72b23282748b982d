//! The metadata normalizer: maps what a package index publishes about a
//! package to a canonical record. The index is queried by the caller; this
//! module says which addresses to ask and what to make of the answers.
//!
//! A normalized record never carries trust: its score is zero and nobody
//! has endorsed it. Trust is assigned by the caller afterwards.

use vstd::prelude::*;
use crate::package::{PackageRecord, RecordView};
use crate::score::TrustScore;
use crate::search::{first_where, lemma_first_where_absent, lemma_first_where_found};
use crate::clock::current_date;
use crate::text::{glue, glue3};

verus! {

/// One digest of a release file: the algorithm's name and the hex digest.
#[derive(Debug)]
pub struct Digest {
    pub algorithm: String,
    pub value: String,
}

/// One distributable artifact of a release.
#[derive(Debug)]
pub struct PyPiReleaseFile {
    pub packagetype: String,
    pub url: String,
    pub digests: Vec<Digest>,
}

/// The artifacts published for one version.
#[derive(Debug)]
pub struct PyPiRelease {
    pub version: String,
    pub files: Vec<PyPiReleaseFile>,
}

/// A labelled link of a project.
#[derive(Debug)]
pub struct ProjectUrl {
    pub label: String,
    pub url: String,
}

/// The general facts that the python index gives about a project.
#[derive(Debug)]
pub struct PyPiInfo {
    pub version: String,
    pub home_page: Option<String>,
    pub project_urls: Option<Vec<ProjectUrl>>,
}

/// The python index's answer about a project.
#[derive(Debug)]
pub struct PyPiResponse {
    pub info: PyPiInfo,
    pub releases: Vec<PyPiRelease>,
}

/// Why no record could be made.
#[derive(Debug)]
pub enum FetchError {
    /// The index could not be reached, answered with an error, or sent
    /// something that is not the expected document.
    Transport { message: String },
    /// The index lists no file for the version it names as the latest.
    NoReleaseFiles { version: String },
    /// The chosen file has no digest of the algorithm the registry records.
    NoDigest { algorithm: String },
}

/// What a fetch error holds, as plain values.
pub enum FetchErrorView {
    Transport { message: Seq<char> },
    NoReleaseFiles { version: Seq<char> },
    NoDigest { algorithm: Seq<char> },
}

impl View for FetchError {
    type V = FetchErrorView;

    open spec fn view(&self) -> FetchErrorView {
        match self {
            FetchError::Transport { message } => FetchErrorView::Transport { message: message@ },
            FetchError::NoReleaseFiles { version } => FetchErrorView::NoReleaseFiles {
                version: version@,
            },
            FetchError::NoDigest { algorithm } => FetchErrorView::NoDigest {
                algorithm: algorithm@,
            },
        }
    }
}

/// The address that describes a project in the python index.
pub open spec fn spec_pypi_metadata_url(name: Seq<char>) -> Seq<char> {
    "https://pypi.org/pypi/"@ + name + "/json"@
}

/// The project's page in the python index.
pub open spec fn spec_pypi_project_url(name: Seq<char>) -> Seq<char> {
    "https://pypi.org/project/"@ + name
}

/// The address that describes a crate in the rust index.
pub open spec fn spec_crates_metadata_url(name: Seq<char>) -> Seq<char> {
    "https://crates.io/api/v1/crates/"@ + name
}

/// The address that describes one version of a crate in the rust index.
pub open spec fn spec_crates_version_url(name: Seq<char>, version: Seq<char>) -> Seq<char> {
    "https://crates.io/api/v1/crates/"@ + name + "/"@ + version
}

/// The page of one version of a crate in the rust index.
pub open spec fn spec_crates_page_url(name: Seq<char>, version: Seq<char>) -> Seq<char> {
    "https://crates.io/crates/"@ + name + "/"@ + version
}

/// Whether the answer is what the index sends: a table of releases by
/// version, a table of digests by algorithm for each file, and a table of
/// links by label. In a table no key occurs twice, so that the first entry
/// under a key is the only one.
pub open spec fn is_keyed(response: PyPiResponse) -> bool {
    &&& forall|i: int, j: int|
        0 <= i < j < response.releases@.len() ==> (#[trigger] response.releases@[i]).version@ != (
        #[trigger] response.releases@[j]).version@
    &&& forall|r: int, f: int, i: int, j: int|
        0 <= r < response.releases@.len() && 0 <= f < response.releases@[r].files@.len() && 0 <= i
            < j < response.releases@[r].files@[f].digests@.len() ==> (
        #[trigger] response.releases@[r].files@[f].digests@[i]).algorithm@ != (
        #[trigger] response.releases@[r].files@[f].digests@[j]).algorithm@
    &&& response.info.project_urls matches Some(urls) ==> forall|i: int, j: int|
        0 <= i < j < urls@.len() ==> (#[trigger] urls@[i]).label@ != (#[trigger] urls@[j]).label@
}

/// In a keyed answer the release of a version is the only release listed
/// under it, wherever in the table it stands.
pub proof fn lemma_keyed_release_is_the_only_one(response: PyPiResponse, at: int)
    requires
        is_keyed(response),
        0 <= at < response.releases@.len(),
    ensures
        spec_release(response.releases@, response.releases@[at].version@) == Some(at),
{
    let wanted = |r: PyPiRelease| r.version@ == response.releases@[at].version@;
    assert forall|j: int| 0 <= j < at implies !wanted(#[trigger] response.releases@[j]) by {
        assert(response.releases@[j].version@ != response.releases@[at].version@);
    }
    lemma_first_where_found(response.releases@, wanted, at);
}

/// The release of `version`: the first one listed under that version.
pub open spec fn spec_release(releases: Seq<PyPiRelease>, version: Seq<char>) -> Option<int> {
    first_where(releases, |r: PyPiRelease| r.version@ == version)
}

/// The artifact whose digest is recorded: the source distribution where one
/// is published, else the first file listed. `None` for a release without
/// files.
pub open spec fn spec_primary_file(files: Seq<PyPiReleaseFile>) -> Option<int> {
    if files.len() == 0 {
        None
    } else {
        match first_where(files, |f: PyPiReleaseFile| f.packagetype@ == "sdist"@) {
            Some(i) => Some(i),
            None => Some(0),
        }
    }
}

/// The digest that `digests` holds for `algorithm`.
pub open spec fn spec_digest(digests: Seq<Digest>, algorithm: Seq<char>) -> Option<Seq<char>> {
    match first_where(digests, |d: Digest| d.algorithm@ == algorithm) {
        Some(i) => Some(digests[i].value@),
        None => None,
    }
}

/// The link of a project that is labelled `Homepage`.
pub open spec fn spec_homepage_link(urls: Option<Vec<ProjectUrl>>) -> Option<Seq<char>> {
    match urls {
        Some(list) => match first_where(list@, |u: ProjectUrl| u.label@ == "Homepage"@) {
            Some(i) => Some(list@[i].url@),
            None => None,
        },
        None => None,
    }
}

/// The source of a python project: the homepage it publishes, else its link
/// labelled `Homepage`, else its page in the index.
pub open spec fn spec_pypi_source(info: PyPiInfo, name: Seq<char>) -> Seq<char> {
    match info.home_page {
        Some(page) => page@,
        None => match spec_homepage_link(info.project_urls) {
            Some(link) => link,
            None => spec_pypi_project_url(name),
        },
    }
}

/// A record as the normalizer makes it: no trust, no endorser.
pub open spec fn spec_untrusted_record(
    name: Seq<char>,
    version: Seq<char>,
    digest: Seq<char>,
    today: Seq<char>,
    source: Seq<char>,
) -> RecordView {
    RecordView {
        name,
        version,
        hash: "sha256:"@ + digest,
        trust_score: TrustScore { bits: 0 },
        endorsed_by: Seq::empty(),
        last_reviewed: today,
        source: Some(source),
    }
}

/// What the python index's answer normalizes to: the record of the latest
/// version with the SHA-256 digest of its primary file, or the reason why
/// there is none.
pub open spec fn spec_record_from_pypi(
    name: Seq<char>,
    response: PyPiResponse,
    today: Seq<char>,
) -> Result<RecordView, FetchErrorView> {
    let version = response.info.version@;
    match spec_release(response.releases@, version) {
        None => Err(FetchErrorView::NoReleaseFiles { version }),
        Some(r) => {
            let files = response.releases@[r].files@;
            match spec_primary_file(files) {
                None => Err(FetchErrorView::NoReleaseFiles { version }),
                Some(f) => match spec_digest(files[f].digests@, "sha256"@) {
                    None => Err(FetchErrorView::NoDigest { algorithm: "sha256"@ }),
                    Some(digest) => Ok(
                        spec_untrusted_record(
                            name,
                            version,
                            digest,
                            today,
                            spec_pypi_source(response.info, name),
                        ),
                    ),
                },
            }
        },
    }
}

/// The view of a normalizer's result.
pub open spec fn outcome_view(outcome: Result<PackageRecord, FetchError>) -> Result<
    RecordView,
    FetchErrorView,
> {
    match outcome {
        Ok(record) => Ok(record@),
        Err(error) => Err(error@),
    }
}

/// The address to ask about the python project `name`.
pub fn pypi_metadata_url(name: &str) -> (url: String)
    ensures
        url@ == spec_pypi_metadata_url(name@),
{
    glue3("https://pypi.org/pypi/", name, "/json")
}

/// The address to ask about the crate `name`.
pub fn crates_metadata_url(name: &str) -> (url: String)
    ensures
        url@ == spec_crates_metadata_url(name@),
{
    glue("https://crates.io/api/v1/crates/", name)
}

/// The address to ask about `version` of the crate `name`: the second
/// question, asked once the first has named the latest version.
pub fn crates_version_url(name: &str, version: &str) -> (url: String)
    ensures
        url@ == spec_crates_version_url(name@, version@),
{
    let mut url = glue3("https://crates.io/api/v1/crates/", name, "/");
    url.append(version);
    url
}

/// The place of the release of `version` in `releases`.
fn find_release(releases: &Vec<PyPiRelease>, version: &String) -> (found: Option<usize>)
    ensures
        match found {
            Some(i) => spec_release(releases@, version@) == Some(i as int),
            None => spec_release(releases@, version@) is None,
        },
{
    let ghost wanted = |r: PyPiRelease| r.version@ == version@;
    let mut i: usize = 0;
    while i < releases.len()
        invariant
            0 <= i <= releases.len(),
            wanted == (|r: PyPiRelease| r.version@ == version@),
            forall|j: int| 0 <= j < i ==> !wanted(#[trigger] releases@[j]),
        decreases releases.len() - i,
    {
        if releases[i].version == *version {
            proof {
                lemma_first_where_found(releases@, wanted, i as int);
            }
            return Some(i);
        }
        i = i + 1;
    }
    proof {
        lemma_first_where_absent(releases@, wanted);
    }
    None
}

/// The place of the primary file in `files`.
fn find_primary_file(files: &Vec<PyPiReleaseFile>) -> (found: Option<usize>)
    ensures
        match found {
            Some(i) => spec_primary_file(files@) == Some(i as int) && i < files.len(),
            None => spec_primary_file(files@) is None,
        },
{
    if files.len() == 0 {
        return None;
    }
    let sdist = String::from_str("sdist");
    let ghost wanted = |f: PyPiReleaseFile| f.packagetype@ == "sdist"@;
    let mut i: usize = 0;
    while i < files.len()
        invariant
            0 <= i <= files.len(),
            sdist@ == "sdist"@,
            wanted == (|f: PyPiReleaseFile| f.packagetype@ == "sdist"@),
            forall|j: int| 0 <= j < i ==> !wanted(#[trigger] files@[j]),
        decreases files.len() - i,
    {
        if files[i].packagetype == sdist {
            proof {
                lemma_first_where_found(files@, wanted, i as int);
            }
            return Some(i);
        }
        i = i + 1;
    }
    proof {
        lemma_first_where_absent(files@, wanted);
    }
    Some(0)
}

/// The digest that `digests` holds for `algorithm`.
fn find_digest<'a>(digests: &'a Vec<Digest>, algorithm: &str) -> (found: Option<&'a String>)
    ensures
        match found {
            Some(value) => spec_digest(digests@, algorithm@) == Some(value@),
            None => spec_digest(digests@, algorithm@) is None,
        },
{
    let name = String::from_str(algorithm);
    let ghost wanted = |d: Digest| d.algorithm@ == algorithm@;
    let mut i: usize = 0;
    while i < digests.len()
        invariant
            0 <= i <= digests.len(),
            name@ == algorithm@,
            wanted == (|d: Digest| d.algorithm@ == algorithm@),
            forall|j: int| 0 <= j < i ==> !wanted(#[trigger] digests@[j]),
        decreases digests.len() - i,
    {
        if digests[i].algorithm == name {
            proof {
                lemma_first_where_found(digests@, wanted, i as int);
            }
            return Some(&digests[i].value);
        }
        i = i + 1;
    }
    proof {
        lemma_first_where_absent(digests@, wanted);
    }
    None
}

/// The link labelled `Homepage` in `list`.
fn find_labelled_homepage<'a>(list: &'a Vec<ProjectUrl>) -> (found: Option<&'a String>)
    ensures
        match found {
            Some(link) => spec_homepage_link(Some(*list)) == Some(link@),
            None => spec_homepage_link(Some(*list)) is None,
        },
{
    let label = String::from_str("Homepage");
    let ghost wanted = |u: ProjectUrl| u.label@ == "Homepage"@;
    let mut i: usize = 0;
    while i < list.len()
        invariant
            0 <= i <= list.len(),
            label@ == "Homepage"@,
            wanted == (|u: ProjectUrl| u.label@ == "Homepage"@),
            forall|j: int| 0 <= j < i ==> !wanted(#[trigger] list@[j]),
        decreases list.len() - i,
    {
        if list[i].label == label {
            proof {
                lemma_first_where_found(list@, wanted, i as int);
            }
            return Some(&list[i].url);
        }
        i = i + 1;
    }
    proof {
        lemma_first_where_absent(list@, wanted);
    }
    None
}

/// The link labelled `Homepage` among a project's links, where it has any.
fn find_homepage_link<'a>(urls: &'a Option<Vec<ProjectUrl>>) -> (found: Option<&'a String>)
    ensures
        match found {
            Some(link) => spec_homepage_link(*urls) == Some(link@),
            None => spec_homepage_link(*urls) is None,
        },
{
    match urls {
        None => None,
        Some(list) => find_labelled_homepage(list),
    }
}

/// The source that a python project's record names.
pub fn pypi_source(info: &PyPiInfo, name: &str) -> (source: String)
    ensures
        source@ == spec_pypi_source(*info, name@),
{
    match &info.home_page {
        Some(page) => page.clone(),
        None => match find_homepage_link(&info.project_urls) {
            Some(link) => link.clone(),
            None => glue("https://pypi.org/project/", name),
        },
    }
}

/// Makes the record of the python project `name` from the index's answer,
/// dated `today`.
pub fn record_from_pypi(name: &str, response: &PyPiResponse, today: &str) -> (outcome: Result<
    PackageRecord,
    FetchError,
>)
    ensures
        outcome_view(outcome) == spec_record_from_pypi(name@, *response, today@),
{
    let release = match find_release(&response.releases, &response.info.version) {
        Some(r) => r,
        None => {
            return Err(FetchError::NoReleaseFiles { version: response.info.version.clone() });
        },
    };
    let files = &response.releases[release].files;
    let file = match find_primary_file(files) {
        Some(f) => f,
        None => {
            return Err(FetchError::NoReleaseFiles { version: response.info.version.clone() });
        },
    };
    let digest = match find_digest(&files[file].digests, "sha256") {
        Some(d) => d,
        None => {
            return Err(FetchError::NoDigest { algorithm: String::from_str("sha256") });
        },
    };
    let record = PackageRecord {
        name: String::from_str(name),
        version: response.info.version.clone(),
        hash: glue("sha256:", digest.as_str()),
        trust_score: TrustScore::zero(),
        endorsed_by: Vec::new(),
        last_reviewed: String::from_str(today),
        source: Some(pypi_source(&response.info, name)),
    };
    proof {
        assert(record@.endorsed_by =~= Seq::empty());
    }
    Ok(record)
}

/// What the rust index's two answers normalize to: the record of the
/// latest version with the checksum the index publishes for it.
pub open spec fn spec_record_from_crates(
    name: Seq<char>,
    max_version: Seq<char>,
    checksum: Seq<char>,
    today: Seq<char>,
) -> RecordView {
    spec_untrusted_record(
        name,
        max_version,
        checksum,
        today,
        spec_crates_page_url(name, max_version),
    )
}

/// Makes the record of the crate `name` from the latest version that the
/// index named and the checksum it gave for that version, dated `today`.
pub fn record_from_crates(name: &str, max_version: &str, checksum: &str, today: &str) -> (record:
    PackageRecord)
    ensures
        record@ == spec_record_from_crates(name@, max_version@, checksum@, today@),
{
    let mut page = glue3("https://crates.io/crates/", name, "/");
    page.append(max_version);
    let record = PackageRecord {
        name: String::from_str(name),
        version: String::from_str(max_version),
        hash: glue("sha256:", checksum),
        trust_score: TrustScore::zero(),
        endorsed_by: Vec::new(),
        last_reviewed: String::from_str(today),
        source: Some(page),
    };
    proof {
        assert(record@.endorsed_by =~= Seq::empty());
    }
    record
}

/// Makes the record of the python project `name` from the index's answer,
/// dated with the current date: the date of the fetch, not that of the
/// release.
pub fn normalize_pypi(name: &str, response: &PyPiResponse) -> (outcome: Result<
    PackageRecord,
    FetchError,
>)
    ensures
        exists|today: Seq<char>|
            outcome_view(outcome) == #[trigger] spec_record_from_pypi(name@, *response, today),
{
    let today = current_date();
    let outcome = record_from_pypi(name, response, today.as_str());
    proof {
        assert(outcome_view(outcome) == spec_record_from_pypi(name@, *response, today@));
    }
    outcome
}

/// Makes the record of the crate `name` from the index's two answers, dated
/// with the current date.
pub fn normalize_crates(name: &str, max_version: &str, checksum: &str) -> (record: PackageRecord)
    ensures
        exists|today: Seq<char>|
            record@ == #[trigger] spec_record_from_crates(name@, max_version@, checksum@, today),
{
    let today = current_date();
    let record = record_from_crates(name, max_version, checksum, today.as_str());
    proof {
        assert(record@ == spec_record_from_crates(name@, max_version@, checksum@, today@));
    }
    record
}

} // verus!
