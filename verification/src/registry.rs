//! The registry store: three independent collections of records, one per
//! ecosystem, with lookup, insert-or-replace, removal and listing.

use vstd::prelude::*;
use crate::collection::{
    count_named, find_position, first_position, has_name, insert_or_replace,
    lemma_first_match_is_unique, lemma_insert_makes_name_unique, lemma_remove_keeps_unique,
    lemma_remove_length, names_unique, remove_named, spec_insert,
    spec_lookup, spec_remove,
};
use crate::language::Language;
use crate::package::{record_views, PackageRecord, RecordView};

verus! {

/// What a registry holds: for each ecosystem, its records in insertion order.
pub struct RegistryView {
    pub python: Seq<RecordView>,
    pub rust: Seq<RecordView>,
    pub go: Seq<RecordView>,
}

impl RegistryView {
    /// The collection of one ecosystem.
    pub open spec fn records(self, language: Language) -> Seq<RecordView> {
        match language {
            Language::Python => self.python,
            Language::Rust => self.rust,
            Language::Go => self.go,
        }
    }

    /// The registry with the collection of `language` replaced by `records`
    /// and the other two untouched.
    pub open spec fn with_records(
        self,
        language: Language,
        records: Seq<RecordView>,
    ) -> RegistryView {
        match language {
            Language::Python => RegistryView { python: records, ..self },
            Language::Rust => RegistryView { rust: records, ..self },
            Language::Go => RegistryView { go: records, ..self },
        }
    }

    /// Whether no name occurs twice within an ecosystem. A registry loaded
    /// from documents is as well-formed as they are; inserts and removals
    /// keep it so.
    pub open spec fn has_unique_names(self) -> bool {
        &&& names_unique(self.python)
        &&& names_unique(self.rust)
        &&& names_unique(self.go)
    }

    /// The first record named `name` in `language`, if any.
    pub open spec fn lookup(self, name: Seq<char>, language: Language) -> Option<RecordView> {
        spec_lookup(self.records(language), name)
    }

    /// The registry after `record` is inserted into `language`, replacing
    /// every record of the same name.
    pub open spec fn insert(self, record: RecordView, language: Language) -> RegistryView {
        self.with_records(language, spec_insert(self.records(language), record))
    }

    /// The registry after the first record named `name` is removed from
    /// `language`.
    pub open spec fn remove(self, name: Seq<char>, language: Language) -> RegistryView {
        self.with_records(language, spec_remove(self.records(language), name))
    }

    /// One ecosystem's records, or all three collections in the order
    /// python, rust, go.
    pub open spec fn list(self, language: Option<Language>) -> Seq<RecordView> {
        match language {
            Some(l) => self.records(l),
            None => self.python + self.rust + self.go,
        }
    }
}

/// The trust registry of one invocation.
#[derive(Debug)]
pub struct Registry {
    pub python_packages: Vec<PackageRecord>,
    pub rust_crates: Vec<PackageRecord>,
    pub go_modules: Vec<PackageRecord>,
}

impl View for Registry {
    type V = RegistryView;

    open spec fn view(&self) -> RegistryView {
        RegistryView {
            python: record_views(self.python_packages@),
            rust: record_views(self.rust_crates@),
            go: record_views(self.go_modules@),
        }
    }
}

/// The view of a borrowed record, where there is one.
pub open spec fn found_view(found: Option<&PackageRecord>) -> Option<RecordView> {
    match found {
        Some(record) => Some(record@),
        None => None,
    }
}

/// The views of a run of borrowed records, in order.
pub open spec fn listed_views(listed: Seq<&PackageRecord>) -> Seq<RecordView> {
    listed.map_values(|r: &PackageRecord| r@)
}

impl Registry {
    /// A registry with three empty collections.
    pub fn empty() -> (registry: Registry)
        ensures
            registry@ == (RegistryView {
                python: Seq::empty(),
                rust: Seq::empty(),
                go: Seq::empty(),
            }),
    {
        let registry = Registry {
            python_packages: Vec::new(),
            rust_crates: Vec::new(),
            go_modules: Vec::new(),
        };
        proof {
            assert(record_views(registry.python_packages@) =~= Seq::empty());
            assert(record_views(registry.rust_crates@) =~= Seq::empty());
            assert(record_views(registry.go_modules@) =~= Seq::empty());
        }
        registry
    }

    /// The registry that holds three collections as they are, record for
    /// record and in their order.
    pub fn from_collections(
        python: Vec<PackageRecord>,
        rust: Vec<PackageRecord>,
        go: Vec<PackageRecord>,
    ) -> (registry: Registry)
        ensures
            registry@ == (RegistryView {
                python: record_views(python@),
                rust: record_views(rust@),
                go: record_views(go@),
            }),
    {
        Registry { python_packages: python, rust_crates: rust, go_modules: go }
    }

    /// The first record named `name` in the collection of `lang`. The match
    /// is exact and case-sensitive; other ecosystems are not consulted.
    pub fn lookup_package(&self, name: &str, lang: &Language) -> (found: Option<&PackageRecord>)
        ensures
            found_view(found) == self@.lookup(name@, *lang),
    {
        let records = match lang {
            Language::Python => &self.python_packages,
            Language::Rust => &self.rust_crates,
            Language::Go => &self.go_modules,
        };
        match find_position(records, name) {
            Some(i) => {
                proof {
                    lemma_first_match_is_unique(record_views(records@), name@, i as int);
                }
                Some(&records[i])
            },
            None => None,
        }
    }

    /// Insert-or-replace: every record of the same name that the collection
    /// of `lang` holds leaves, and `package` is appended. The other
    /// collections stay as they are.
    pub fn add_package(&mut self, package: PackageRecord, lang: &Language)
        ensures
            final(self)@ == old(self)@.insert(package@, *lang),
    {
        match lang {
            Language::Python => insert_or_replace(&mut self.python_packages, package),
            Language::Rust => insert_or_replace(&mut self.rust_crates, package),
            Language::Go => insert_or_replace(&mut self.go_modules, package),
        }
    }

    /// Removes the first record named `name` from the collection of `lang`
    /// and says whether there was one. The other collections stay as they
    /// are.
    pub fn remove_package(&mut self, name: &str, lang: &Language) -> (removed: bool)
        ensures
            removed == has_name(old(self)@.records(*lang), name@),
            final(self)@ == old(self)@.remove(name@, *lang),
    {
        match lang {
            Language::Python => remove_named(&mut self.python_packages, name),
            Language::Rust => remove_named(&mut self.rust_crates, name),
            Language::Go => remove_named(&mut self.go_modules, name),
        }
    }

    /// The records of one ecosystem in insertion order, or, where `lang` is
    /// `None`, those of python, then rust, then go.
    pub fn list_packages(&self, lang: Option<&Language>) -> (listed: Vec<&PackageRecord>)
        ensures
            listed_views(listed@) == self@.list(
                match lang {
                    Some(l) => Some(*l),
                    None => None,
                },
            ),
    {
        let mut listed: Vec<&PackageRecord> = Vec::new();
        match lang {
            Some(Language::Python) => append_borrowed(&mut listed, &self.python_packages),
            Some(Language::Rust) => append_borrowed(&mut listed, &self.rust_crates),
            Some(Language::Go) => append_borrowed(&mut listed, &self.go_modules),
            None => {
                append_borrowed(&mut listed, &self.python_packages);
                append_borrowed(&mut listed, &self.rust_crates);
                append_borrowed(&mut listed, &self.go_modules);
            },
        }
        proof {
            assert(listed_views(Seq::<&PackageRecord>::empty()) =~= Seq::<RecordView>::empty());
            assert(Seq::<RecordView>::empty() + self@.python =~= self@.python);
            assert(Seq::<RecordView>::empty() + self@.rust =~= self@.rust);
            assert(Seq::<RecordView>::empty() + self@.go =~= self@.go);
        }
        listed
    }
}

/// Appends a borrow of each record of `records` to `listed`.
fn append_borrowed<'a>(listed: &mut Vec<&'a PackageRecord>, records: &'a Vec<PackageRecord>)
    ensures
        listed_views(final(listed)@) == listed_views(old(listed)@) + record_views(records@),
{
    let mut i: usize = 0;
    while i < records.len()
        invariant
            0 <= i <= records.len(),
            listed_views(listed@) == listed_views(old(listed)@) + record_views(records@).take(
                i as int,
            ),
        decreases records.len() - i,
    {
        let ghost before = listed_views(listed@);
        listed.push(&records[i]);
        proof {
            assert(listed_views(listed@) =~= before.push(records@[i as int]@));
            assert(record_views(records@).take(i + 1) =~= record_views(records@).take(
                i as int,
            ).push(records@[i as int]@));
        }
        i = i + 1;
    }
    proof {
        assert(record_views(records@).take(records@.len() as int) =~= record_views(records@));
    }
}

/// A record that was inserted is the one found under its name in that
/// ecosystem. The other ecosystems answer as before: a name that one of
/// them lacked is still absent there.
pub proof fn lemma_lookup_finds_inserted(
    registry: RegistryView,
    record: RecordView,
    language: Language,
    other: Language,
)
    requires
        other != language,
    ensures
        registry.insert(record, language).lookup(record.name, language) == Some(record),
        registry.insert(record, language).records(other) == registry.records(other),
        !has_name(registry.records(other), record.name) ==> registry.insert(
            record,
            language,
        ).lookup(record.name, other) is None,
{
    lemma_insert_makes_name_unique(registry.records(language), record);
}

/// After any insert exactly one record of the collection bears the
/// inserted name, and names that were unique are unique still.
pub proof fn lemma_insert_leaves_one_of_the_name(
    registry: RegistryView,
    record: RecordView,
    language: Language,
)
    ensures
        count_named(registry.insert(record, language).records(language), record.name) == 1,
        registry.has_unique_names() ==> registry.insert(record, language).has_unique_names(),
{
    lemma_insert_makes_name_unique(registry.records(language), record);
}

/// Inserting a second record under a name that was just inserted leaves
/// exactly one record of that name in the collection, the second one, and
/// the collection does not grow.
pub proof fn lemma_second_insert_replaces(
    registry: RegistryView,
    first: RecordView,
    second: RecordView,
    language: Language,
)
    requires
        first.name == second.name,
    ensures
        ({
            let once = registry.insert(first, language);
            let twice = once.insert(second, language);
            &&& count_named(twice.records(language), second.name) == 1
            &&& twice.lookup(second.name, language) == Some(second)
            &&& twice.records(language).len() == once.records(language).len()
        }),
{
    let before = registry.records(language);
    lemma_insert_makes_name_unique(before, first);
    let once = spec_insert(before, first);
    lemma_insert_makes_name_unique(once, second);
}

/// Removing a name that is not present changes nothing.
pub proof fn lemma_remove_absent_changes_nothing(
    registry: RegistryView,
    name: Seq<char>,
    language: Language,
)
    requires
        !has_name(registry.records(language), name),
    ensures
        registry.remove(name, language) == registry,
{
}

/// Removing a name that is present takes out exactly one record, the first
/// of that name, and keeps the others in their order. Where names are
/// unique the name is absent afterwards, so that a second removal changes
/// nothing.
pub proof fn lemma_remove_present_drops_one(
    registry: RegistryView,
    name: Seq<char>,
    language: Language,
)
    requires
        has_name(registry.records(language), name),
    ensures
        ({
            let before = registry.records(language);
            let after = registry.remove(name, language);
            &&& exists|at: int|
                0 <= at < before.len() && #[trigger] before[at].name == name && after.records(
                    language,
                ) == before.remove(at)
            &&& after.records(language).len() == before.len() - 1
            &&& forall|other: Language|
                other != language ==> after.records(other) == registry.records(other)
            &&& registry.has_unique_names() ==> {
                &&& after.has_unique_names()
                &&& !has_name(after.records(language), name)
                &&& after.remove(name, language) == after
            }
        }),
{
    let before = registry.records(language);
    lemma_remove_length(before, name);
    let at = first_position(before, name);
    assert(before[at].name == name);
    if registry.has_unique_names() {
        lemma_remove_keeps_unique(before, name);
    }
}

} // verus!
