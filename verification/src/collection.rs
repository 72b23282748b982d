//! One ecosystem's collection of records: the model of lookup, removal and
//! insert-or-replace on a sequence of records, and the same operations on a
//! vector.

use vstd::prelude::*;
use crate::package::{record_views, PackageRecord, RecordView};

verus! {

/// Whether some record of `records` is named `name`.
pub open spec fn has_name(records: Seq<RecordView>, name: Seq<char>) -> bool {
    exists|i: int| 0 <= i < records.len() && #[trigger] records[i].name == name
}

/// Whether no two records of `records` share a name.
pub open spec fn names_unique(records: Seq<RecordView>) -> bool {
    forall|i: int, j: int|
        0 <= i < j < records.len() ==> #[trigger] records[i].name != #[trigger] records[j].name
}

/// Whether `i` is the place of the first record named `name`.
pub open spec fn is_first_match(records: Seq<RecordView>, name: Seq<char>, i: int) -> bool {
    &&& 0 <= i < records.len()
    &&& records[i].name == name
    &&& forall|j: int| 0 <= j < i ==> #[trigger] records[j].name != name
}

/// The place of the first record named `name`. Meaningful only where
/// `has_name` holds.
pub open spec fn first_position(records: Seq<RecordView>, name: Seq<char>) -> int {
    choose|i: int| is_first_match(records, name, i)
}

/// The first record named `name`, if there is one. The match is exact and
/// case-sensitive.
pub open spec fn spec_lookup(records: Seq<RecordView>, name: Seq<char>) -> Option<RecordView> {
    if has_name(records, name) {
        Some(records[first_position(records, name)])
    } else {
        None
    }
}

/// `records` without the first record named `name`; `records` itself where
/// there is none.
pub open spec fn spec_remove(records: Seq<RecordView>, name: Seq<char>) -> Seq<RecordView> {
    if has_name(records, name) {
        records.remove(first_position(records, name))
    } else {
        records
    }
}

/// The records of `records` that are not named `name`, in their order.
pub open spec fn spec_without(records: Seq<RecordView>, name: Seq<char>) -> Seq<RecordView>
    decreases records.len(),
{
    if records.len() == 0 {
        records
    } else {
        let front = spec_without(records.drop_last(), name);
        if records.last().name == name {
            front
        } else {
            front.push(records.last())
        }
    }
}

/// Insert-or-replace: every record of the same name leaves, and `record`
/// is appended.
pub open spec fn spec_insert(records: Seq<RecordView>, record: RecordView) -> Seq<RecordView> {
    spec_without(records, record.name).push(record)
}

/// How many records of `records` are named `name`.
pub open spec fn count_named(records: Seq<RecordView>, name: Seq<char>) -> nat
    decreases records.len(),
{
    if records.len() == 0 {
        0
    } else {
        let rest = count_named(records.drop_last(), name);
        if records.last().name == name {
            rest + 1
        } else {
            rest
        }
    }
}

/// Wherever a record named `name` stands, a first one stands at or before it.
pub proof fn lemma_first_match_exists(records: Seq<RecordView>, name: Seq<char>, at: int)
    requires
        0 <= at < records.len(),
        records[at].name == name,
    ensures
        has_name(records, name),
        is_first_match(records, name, first_position(records, name)),
        first_position(records, name) <= at,
    decreases at,
{
    if exists|j: int| 0 <= j < at && #[trigger] records[j].name == name {
        let j = choose|j: int| 0 <= j < at && #[trigger] records[j].name == name;
        lemma_first_match_exists(records, name, j);
    } else {
        assert(is_first_match(records, name, at));
    }
    let first = first_position(records, name);
    if first > at {
        assert(records[at].name != name);
    }
}

/// The first match is the only place that `is_first_match` accepts.
pub proof fn lemma_first_match_is_unique(records: Seq<RecordView>, name: Seq<char>, i: int)
    requires
        is_first_match(records, name, i),
    ensures
        has_name(records, name),
        first_position(records, name) == i,
{
    lemma_first_match_exists(records, name, i);
    let first = first_position(records, name);
    if first < i {
        assert(records[first].name != name);
    }
}

/// What is left after every record of a name is taken out: no record of
/// that name, and of any other name `other` a record exactly where there
/// was one before. Names that were unique stay unique.
pub proof fn lemma_without_keeps_the_others(
    records: Seq<RecordView>,
    name: Seq<char>,
    other: Seq<char>,
)
    ensures
        !has_name(spec_without(records, name), name),
        spec_without(records, name).len() <= records.len(),
        has_name(spec_without(records, name), other) ==> has_name(records, other),
        other != name && has_name(records, other) ==> has_name(spec_without(records, name), other),
        names_unique(records) ==> names_unique(spec_without(records, name)),
    decreases records.len(),
{
    let left = spec_without(records, name);
    if records.len() > 0 {
        let front = records.drop_last();
        let last = records.last();
        let end = records.len() - 1;
        lemma_without_keeps_the_others(front, name, other);
        let before = spec_without(front, name);
        assert forall|i: int| 0 <= i < left.len() implies #[trigger] left[i].name != name by {
            if i < before.len() {
                assert(left[i] == before[i]);
            }
        }
        if has_name(left, other) {
            let i = choose|i: int| 0 <= i < left.len() && #[trigger] left[i].name == other;
            if i < before.len() {
                assert(left[i] == before[i]);
                assert(has_name(before, other));
                let j = choose|j: int| 0 <= j < front.len() && #[trigger] front[j].name == other;
                assert(records[j] == front[j]);
            } else {
                assert(records[end].name == other);
            }
        }
        if other != name && has_name(records, other) {
            let j = choose|j: int| 0 <= j < records.len() && #[trigger] records[j].name == other;
            if j < end {
                assert(front[j] == records[j]);
                assert(has_name(front, other));
                let i = choose|i: int| 0 <= i < before.len() && #[trigger] before[i].name == other;
                assert(left[i] == before[i]);
            } else {
                assert(left[left.len() - 1] == last);
            }
        }
        if names_unique(records) {
            assert(names_unique(front)) by {
                assert forall|i: int, j: int|
                    0 <= i < j < front.len() implies #[trigger] front[i].name
                    != #[trigger] front[j].name by {
                    assert(front[i] == records[i]);
                    assert(front[j] == records[j]);
                }
            }
            lemma_without_keeps_the_others(front, name, last.name);
            assert forall|i: int, j: int| 0 <= i < j < left.len() implies #[trigger] left[i].name
                != #[trigger] left[j].name by {
                assert(left[i] == before[i]);
                if j < before.len() {
                    assert(left[j] == before[j]);
                } else {
                    assert(left[j] == last);
                    if before[i].name == last.name {
                        assert(has_name(before, last.name));
                        let k = choose|k: int|
                            0 <= k < front.len() && #[trigger] front[k].name == last.name;
                        assert(front[k] == records[k]);
                        assert(records[k].name != records[end].name);
                    }
                }
            }
        }
    }
}

/// Taking out a name that no record bears changes nothing.
pub proof fn lemma_without_absent_name(records: Seq<RecordView>, name: Seq<char>)
    requires
        !has_name(records, name),
    ensures
        spec_without(records, name) == records,
        count_named(records, name) == 0,
    decreases records.len(),
{
    if records.len() > 0 {
        let front = records.drop_last();
        let end = records.len() - 1;
        assert(records[end].name != name);
        assert forall|i: int| 0 <= i < front.len() implies #[trigger] front[i].name != name by {
            assert(front[i] == records[i]);
        }
        lemma_without_absent_name(front, name);
        assert(front.push(records.last()) =~= records);
    }
}

/// After an insert exactly one record bears the inserted name, and it is
/// the record inserted; the records of other names stay in their order.
/// Names that were unique stay unique.
pub proof fn lemma_insert_makes_name_unique(records: Seq<RecordView>, record: RecordView)
    ensures
        count_named(spec_insert(records, record), record.name) == 1,
        spec_lookup(spec_insert(records, record), record.name) == Some(record),
        spec_insert(records, record).len() <= records.len() + 1,
        spec_without(spec_insert(records, record), record.name) == spec_without(
            records,
            record.name,
        ),
        names_unique(records) ==> names_unique(spec_insert(records, record)),
{
    let kept = spec_without(records, record.name);
    let after = spec_insert(records, record);
    let last = after.len() - 1;
    lemma_without_keeps_the_others(records, record.name, record.name);
    lemma_without_absent_name(kept, record.name);
    assert(after.drop_last() =~= kept);
    assert(after[last] == record);
    assert(is_first_match(after, record.name, last)) by {
        assert forall|j: int| 0 <= j < last implies #[trigger] after[j].name != record.name by {
            assert(after[j] == kept[j]);
        }
    }
    lemma_first_match_is_unique(after, record.name, last);
    if names_unique(records) {
        assert forall|i: int, j: int| 0 <= i < j < after.len() implies #[trigger] after[i].name
            != #[trigger] after[j].name by {
            assert(after[i] == kept[i]);
            if j < kept.len() {
                assert(after[j] == kept[j]);
            }
        }
    }
}

/// A removal takes out one record, the first of the name, where the name
/// is present, and none where it is not.
pub proof fn lemma_remove_length(records: Seq<RecordView>, name: Seq<char>)
    ensures
        spec_remove(records, name).len() == if has_name(records, name) {
            records.len() - 1
        } else {
            records.len() as int
        },
        has_name(records, name) ==> is_first_match(records, name, first_position(records, name)),
{
    if has_name(records, name) {
        let at = choose|i: int| 0 <= i < records.len() && #[trigger] records[i].name == name;
        lemma_first_match_exists(records, name, at);
    }
}

/// A removal keeps names unique where they were, and then no record of
/// the removed name is left.
pub proof fn lemma_remove_keeps_unique(records: Seq<RecordView>, name: Seq<char>)
    requires
        names_unique(records),
    ensures
        !has_name(spec_remove(records, name), name),
        names_unique(spec_remove(records, name)),
{
    let after = spec_remove(records, name);
    if has_name(records, name) {
        let at = choose|i: int| 0 <= i < records.len() && #[trigger] records[i].name == name;
        lemma_first_match_exists(records, name, at);
        let first = first_position(records, name);
        assert forall|i: int| 0 <= i < after.len() implies #[trigger] after[i].name != name by {
            if i < first {
                assert(after[i] == records[i]);
                assert(records[i].name != records[first].name);
            } else {
                assert(after[i] == records[i + 1]);
                assert(records[first].name != records[i + 1].name);
            }
        }
        assert forall|i: int, j: int| 0 <= i < j < after.len() implies #[trigger] after[i].name
            != #[trigger] after[j].name by {
            let from_i = if i < first { i } else { i + 1 };
            let from_j = if j < first { j } else { j + 1 };
            assert(after[i] == records[from_i]);
            assert(after[j] == records[from_j]);
            assert(records[from_i].name != records[from_j].name);
        }
    }
}

/// The place of the first record named `name`, by a scan from the front.
pub fn find_position(records: &Vec<PackageRecord>, name: &str) -> (found: Option<usize>)
    ensures
        match found {
            Some(i) => is_first_match(record_views(records@), name@, i as int),
            None => !has_name(record_views(records@), name@),
        },
{
    let wanted = String::from_str(name);
    let mut i: usize = 0;
    while i < records.len()
        invariant
            0 <= i <= records.len(),
            wanted@ == name@,
            forall|j: int| 0 <= j < i ==> #[trigger] record_views(records@)[j].name != name@,
        decreases records.len() - i,
    {
        if records[i].name == wanted {
            return Some(i);
        }
        i = i + 1;
    }
    None
}

/// Removes the first record named `name` and says whether there was one.
pub fn remove_named(records: &mut Vec<PackageRecord>, name: &str) -> (removed: bool)
    ensures
        removed == has_name(record_views(old(records)@), name@),
        record_views(final(records)@) == spec_remove(record_views(old(records)@), name@),
{
    match find_position(records, name) {
        Some(i) => {
            proof {
                lemma_first_match_is_unique(record_views(records@), name@, i as int);
            }
            records.remove(i);
            proof {
                assert(record_views(records@) =~= record_views(old(records)@).remove(i as int));
            }
            true
        },
        None => false,
    }
}

/// Removes every record named `name`.
pub fn remove_all_named(records: &mut Vec<PackageRecord>, name: &str)
    ensures
        record_views(final(records)@) == spec_without(record_views(old(records)@), name@),
{
    let wanted = String::from_str(name);
    let ghost whole = record_views(records@);
    let ghost mut seen: int = 0;
    let mut i: usize = 0;
    proof {
        assert(whole.take(0) =~= Seq::<RecordView>::empty());
        assert(whole.skip(0) =~= whole);
        assert(Seq::<RecordView>::empty() + whole =~= whole);
    }
    while i < records.len()
        invariant
            wanted@ == name@,
            whole == record_views(old(records)@),
            0 <= seen <= whole.len(),
            i == spec_without(whole.take(seen), name@).len(),
            record_views(records@) == spec_without(whole.take(seen), name@) + whole.skip(seen),
        decreases whole.len() - seen,
    {
        proof {
            let grown = whole.take(seen + 1);
            assert(grown.drop_last() =~= whole.take(seen));
            assert(grown.last() == whole[seen]);
            assert(record_views(records@)[i as int] == whole.skip(seen)[0]);
            assert(whole.skip(seen + 1) =~= whole.skip(seen).drop_first());
        }
        if records[i].name == wanted {
            let ghost before = record_views(records@);
            records.remove(i);
            proof {
                assert(record_views(records@) =~= before.remove(i as int));
                assert(before.remove(i as int) =~= spec_without(whole.take(seen + 1), name@)
                    + whole.skip(seen + 1));
                seen = seen + 1;
            }
        } else {
            proof {
                assert(record_views(records@) =~= spec_without(whole.take(seen + 1), name@)
                    + whole.skip(seen + 1));
                seen = seen + 1;
            }
            i = i + 1;
        }
    }
    proof {
        assert(seen == whole.len()) by {
            assert(record_views(records@).len() == i + whole.skip(seen).len());
        }
        assert(whole.take(seen) =~= whole);
        assert(whole.skip(seen) =~= Seq::<RecordView>::empty());
        assert(spec_without(whole, name@) + Seq::<RecordView>::empty() =~= spec_without(
            whole,
            name@,
        ));
    }
}

/// Insert-or-replace: drops every record of the same name, then appends
/// `record`.
pub fn insert_or_replace(records: &mut Vec<PackageRecord>, record: PackageRecord)
    ensures
        record_views(final(records)@) == spec_insert(record_views(old(records)@), record@),
{
    remove_all_named(records, record.name.as_str());
    let ghost kept = record_views(records@);
    records.push(record);
    proof {
        assert(record_views(records@) =~= kept.push(record@));
    }
}

} // verus!
