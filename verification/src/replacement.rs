//! Replacing the set that a record has in one collection, seen on the two tables of that
//! collection alone.

use crate::links::Link;
use crate::statement::Reply;
use crate::store::{is_id, member_interned, member_linked, record_unlinked, CollectionView};
use crate::table::{extends, interning_again, interning_extends, well_formed, CAPACITY};
use vstd::prelude::*;

verus! {

/// The tables of a collection after the first `count` of `values` were associated with
/// `record`: each is interned, and then the junction row of the record and its id is
/// inserted. The flag says whether all of that was carried out; after the first statement
/// that fails nothing more is done. `records` is the number of advisory rows.
pub open spec fn associated(
    tables: CollectionView,
    records: nat,
    record: i64,
    values: Seq<Seq<char>>,
    count: nat,
) -> (CollectionView, bool)
    decreases count,
{
    if count == 0 {
        (tables, true)
    } else {
        let (before, complete) = associated(tables, records, record, values, (count - 1) as nat);
        if complete {
            let (held, id) = member_interned(before, values[count - 1]);
            match id {
                Reply::Id(member) => {
                    let (after, reply) = member_linked(held, records, record, member);
                    (after, reply == Reply::Done)
                },
                _ => (held, false),
            }
        } else {
            (before, false)
        }
    }
}

/// The tables of a collection after the set of `record` was replaced by `values`: its
/// junction rows are deleted, and then the values are associated with it.
pub open spec fn set_replaced(
    tables: CollectionView,
    records: nat,
    record: i64,
    values: Seq<Seq<char>>,
) -> (CollectionView, bool) {
    associated(record_unlinked(tables, record), records, record, values, values.len())
}

/// Whether `after` has the junction rows of `before` for every record but `record`.
pub open spec fn same_links_elsewhere(after: Set<Link>, before: Set<Link>, record: i64) -> bool {
    forall|link: Link| link.record != record ==> (after.contains(link) <==> before.contains(link))
}

/// Once a statement has failed, associating more values changes nothing.
pub proof fn association_stops(
    tables: CollectionView,
    records: nat,
    record: i64,
    values: Seq<Seq<char>>,
    count: nat,
    more: nat,
)
    requires
        count <= more,
        !associated(tables, records, record, values, count).1,
    ensures
        associated(tables, records, record, values, more) == associated(
            tables,
            records,
            record,
            values,
            count,
        ),
    decreases more,
{
    if count < more {
        association_stops(tables, records, record, values, count, (more - 1) as nat);
    }
}

/// Associating values only adds: the member table afterwards extends the one before and
/// is well formed as it was, it is exactly what interning the next value gives, and the
/// junction rows of other records are untouched.
pub proof fn association_grows(
    tables: CollectionView,
    records: nat,
    record: i64,
    values: Seq<Seq<char>>,
    count: nat,
    more: nat,
)
    requires
        count <= more,
        well_formed(tables.values),
    ensures
        well_formed(associated(tables, records, record, values, more).0.values),
        extends(
            associated(tables, records, record, values, more).0.values,
            associated(tables, records, record, values, count).0.values,
        ),
        same_links_elsewhere(
            associated(tables, records, record, values, more).0.links,
            associated(tables, records, record, values, count).0.links,
            record,
        ),
        forall|link: Link|
            associated(tables, records, record, values, count).0.links.contains(link)
                ==> associated(tables, records, record, values, more).0.links.contains(link),
    decreases more,
{
    if more > 0 {
        let fewer = (more - 1) as nat;
        if count < more {
            association_grows(tables, records, record, values, count, fewer);
        } else {
            association_grows(tables, records, record, values, fewer, fewer);
        }
        let before = associated(tables, records, record, values, fewer);
        if before.1 {
            interning_extends(before.0.values, values[more - 1]);
        }
    }
}

/// Replacing a set a second time changes nothing: associating the same values again,
/// with the member table as the first run left it and the junction rows as they were when
/// the first run began, gives at every point the junction rows that the first run had at
/// that point, leaves the member table alone, and fails exactly where the first run failed.
pub proof fn association_again(
    tables: CollectionView,
    records: nat,
    record: i64,
    values: Seq<Seq<char>>,
    count: nat,
)
    requires
        well_formed(tables.values),
        count <= values.len(),
    ensures
        ({
            let last = associated(tables, records, record, values, values.len()).0;
            let first = associated(tables, records, record, values, count);
            let second = associated(
                CollectionView { values: last.values, links: tables.links },
                records,
                record,
                values,
                count,
            );
            &&& second.1 == first.1
            &&& second.0.links == first.0.links
            &&& second.0.values == last.values
        }),
    decreases count,
{
    let last = associated(tables, records, record, values, values.len()).0;
    let again = CollectionView { values: last.values, links: tables.links };
    if count > 0 {
        let fewer = (count - 1) as nat;
        association_again(tables, records, record, values, fewer);
        let first = associated(tables, records, record, values, fewer);
        let second = associated(again, records, record, values, fewer);
        if first.1 {
            let value = values[count - 1];
            association_grows(tables, records, record, values, fewer, fewer);
            association_grows(tables, records, record, values, count, values.len());
            interning_extends(first.0.values, value);
            let held = member_interned(first.0, value);
            assert(associated(tables, records, record, values, count).0.values == held.0.values);
            match crate::table::interned(first.0.values, value).1 {
                Some(id) => {
                    assert(last.values[id - 1] == value);
                    interning_again(last.values, value, id);
                    assert(member_interned(second.0, value).1 == held.1);
                    assert(member_interned(second.0, value).0 == second.0);
                },
                None => {
                    association_stops(tables, records, record, values, count, values.len());
                    assert(last.values == first.0.values);
                },
            }
        }
    }
}

/// Replacing the set of a record a second time, on the tables that the first time left,
/// leaves them as they are and fails exactly where the first time failed.
pub proof fn replacing_again(
    tables: CollectionView,
    records: nat,
    record: i64,
    values: Seq<Seq<char>>,
)
    requires
        well_formed(tables.values),
    ensures
        set_replaced(set_replaced(tables, records, record, values).0, records, record, values)
            == set_replaced(tables, records, record, values),
{
    let emptied = record_unlinked(tables, record);
    let first = set_replaced(tables, records, record, values);
    association_grows(emptied, records, record, values, 0, values.len());
    association_again(emptied, records, record, values, values.len());
    let again = record_unlinked(first.0, record);
    assert(again.links =~= emptied.links);
    assert(again == CollectionView { values: first.0.values, links: emptied.links });
    let second = set_replaced(first.0, records, record, values);
    assert(second.0.links == first.0.links);
    assert(second.0.values == first.0.values);
}

/// What a successful association leaves: every value that was associated is a member
/// value, the record has a junction row to a member exactly where the member's value is
/// one of those that were associated, and no value was associated twice. The junction rows
/// of the record must have been deleted before.
pub proof fn association_is_exact(
    tables: CollectionView,
    records: nat,
    record: i64,
    values: Seq<Seq<char>>,
    count: nat,
)
    requires
        well_formed(tables.values),
        count <= values.len(),
        forall|link: Link| tables.links.contains(link) ==> link.record != record,
        associated(tables, records, record, values, count).1,
    ensures
        ({
            let after = associated(tables, records, record, values, count).0;
            &&& values.take(count as int).no_duplicates()
            &&& forall|i: int| 0 <= i < count ==> after.values.contains(values[i])
            &&& forall|link: Link|
                after.links.contains(link) <==> tables.links.contains(link) || (link.record
                    == record && is_id(link.member, after.values.len()) && values.take(
                    count as int,
                ).contains(after.values[link.member - 1]))
        }),
    decreases count,
{
    let after = associated(tables, records, record, values, count).0;
    if count == 0 {
        assert(values.take(0) =~= Seq::empty());
    } else {
        let fewer = (count - 1) as nat;
        let before = associated(tables, records, record, values, fewer).0;
        let value = values[count - 1];
        let taken = values.take(count as int);
        let earlier = values.take(fewer as int);
        association_is_exact(tables, records, record, values, fewer);
        association_grows(tables, records, record, values, fewer, fewer);
        association_grows(tables, records, record, values, fewer, count);
        interning_extends(before.values, value);
        let id = crate::table::interned(before.values, value).1->0;
        let member = id as i64;
        assert(taken =~= earlier.push(value));
        assert(after.values[id - 1] == value);
        assert(after.links == before.links.insert(Link { record, member }));
        assert(!before.links.contains(Link { record, member }));
        assert forall|i: int| 0 <= i < count implies after.values.contains(values[i]) by {
            if i < fewer {
                let at = choose|at: int| 0 <= at < before.values.len() && before.values[at] == values[i];
                assert(after.values[at] == values[i]);
            }
        }
        // The value is new among those taken so far: else its junction row would exist.
        assert(!earlier.contains(value)) by {
            if earlier.contains(value) {
                let i = choose|i: int| 0 <= i < earlier.len() && earlier[i] == value;
                assert(before.values.contains(values[i]));
                let at = choose|at: int| 0 <= at < before.values.len() && before.values[at] == value;
                assert(after.values[at] == after.values[id - 1]);
                assert(before.links.contains(Link { record, member }));
            }
        }
        assert forall|i: int, j: int|
            0 <= i < taken.len() && 0 <= j < taken.len() && i != j implies taken[i]
            != taken[j] by {
            if i < fewer && j < fewer {
                assert(earlier[i] != earlier[j]);
            } else if i < fewer {
                assert(earlier[i] == taken[i]);
            } else {
                assert(earlier[j] == taken[j]);
            }
        }
        assert forall|link: Link|
            after.links.contains(link) <==> tables.links.contains(link) || (link.record == record
                && is_id(link.member, after.values.len()) && taken.contains(
                after.values[link.member - 1],
            )) by {
            vstd::seq_lib::lemma_seq_contains_after_push(
                earlier,
                value,
                after.values[link.member - 1],
            );
            if link.record == record && is_id(link.member, after.values.len()) {
                let held = after.values[link.member - 1];
                if held == value {
                    if link.member != member {
                        assert(after.values[link.member - 1] == after.values[id - 1]);
                    }
                } else if earlier.contains(held) {
                    let i = choose|i: int| 0 <= i < earlier.len() && earlier[i] == held;
                    assert(before.values.contains(values[i]));
                    let at = choose|at: int|
                        0 <= at < before.values.len() && before.values[at] == held;
                    if at != link.member - 1 {
                        assert(after.values[at] == after.values[link.member - 1]);
                    }
                }
            }
            if before.links.contains(link) && link.record == record {
                assert(after.values[link.member - 1] == before.values[link.member - 1]);
            }
        }
    }
}

/// When association is owed: values that differ from one another are all associated with
/// a record that exists and has no junction rows in the collection, as long as the member
/// table has room for them.
pub proof fn association_succeeds(
    tables: CollectionView,
    records: nat,
    record: i64,
    values: Seq<Seq<char>>,
    count: nat,
)
    requires
        well_formed(tables.values),
        count <= values.len(),
        forall|link: Link| tables.links.contains(link) ==> link.record != record,
        is_id(record, records),
        values.no_duplicates(),
        tables.values.len() + values.len() <= CAPACITY,
    ensures
        associated(tables, records, record, values, count).1,
        associated(tables, records, record, values, count).0.values.len() <= tables.values.len()
            + count,
    decreases count,
{
    if count > 0 {
        let fewer = (count - 1) as nat;
        association_succeeds(tables, records, record, values, fewer);
        association_is_exact(tables, records, record, values, fewer);
        association_grows(tables, records, record, values, fewer, fewer);
        let before = associated(tables, records, record, values, fewer).0;
        let value = values[count - 1];
        interning_extends(before.values, value);
        let held = member_interned(before, value).0;
        let id = crate::table::interned(before.values, value).1->0;
        let member = id as i64;
        if before.links.contains(Link { record, member }) {
            assert(before.values[id - 1] == held.values[id - 1]);
            let earlier = values.take(fewer as int);
            let i = choose|i: int| 0 <= i < earlier.len() && earlier[i] == value;
            assert(values[i] == values[count - 1]);
        }
    }
}

} // verus!
