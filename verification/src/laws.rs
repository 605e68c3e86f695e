//! What holds of ingestion whatever the store and the record.

use crate::circl::Cve;
use crate::ingest::{access_value, impact_value, members, row_of, RecordTimes};
use crate::links::Link;
use crate::normalize::{
    cleared, collection_at, headed, ingested, ingested_atomically, linked, rank, replaced,
    replaced_through,
};
use crate::records::{upsert_again, upsert_writes};
use crate::replacement::{
    associated, association_grows, association_is_exact, association_succeeds, replacing_again,
    set_replaced,
};
use crate::statement::{Collection, Reply, StatementView};
use crate::store::{
    executed, is_id, record_unlinked, stored_set, stored_set_lists_members, CollectionView,
    StoreView,
};
use crate::table::{extends, interning_again, interning_extends, well_formed, CAPACITY};
use vstd::prelude::*;

verus! {

/// Associating values with a record in a collection touches the two tables of that
/// collection and nothing else, and what it does to them depends on them and on the
/// number of advisory rows alone.
pub proof fn linked_in_collection(
    store: StoreView,
    collection: Collection,
    record: i64,
    values: Seq<Seq<char>>,
    count: nat,
)
    ensures
        linked(store, collection, record, values, count) == (
            store.with_collection(
                collection,
                associated(
                    store.collection(collection),
                    store.records.len(),
                    record,
                    values,
                    count,
                ).0,
            ),
            associated(store.collection(collection), store.records.len(), record, values, count).1,
        ),
    decreases count,
{
    if count > 0 {
        linked_in_collection(store, collection, record, values, (count - 1) as nat);
    }
}

/// Replacing the set of a record in a collection touches the two tables of that
/// collection and nothing else.
pub proof fn replaced_in_collection(
    store: StoreView,
    collection: Collection,
    record: i64,
    values: Seq<Seq<char>>,
)
    ensures
        replaced(store, collection, record, values) == (
            store.with_collection(
                collection,
                set_replaced(store.collection(collection), store.records.len(), record, values).0,
            ),
            set_replaced(store.collection(collection), store.records.len(), record, values).1,
        ),
{
    linked_in_collection(
        cleared(store, collection, record),
        collection,
        record,
        values,
        values.len(),
    );
}

/// The tables of `collection` after the set that `record` has in it was replaced by the
/// one in `cve`, starting from `store`.
pub open spec fn settled(store: StoreView, cve: Cve, record: i64, collection: Collection) -> (
    CollectionView,
    bool,
) {
    set_replaced(
        store.collection(collection),
        store.records.len(),
        record,
        members(cve, collection),
    )
}

/// Replacing the sets of the first `count` collections leaves the three other tables
/// alone, and leaves in each collection what replacing the set of that collection alone
/// gives, where it came that far.
pub proof fn replaced_through_settles(
    store: StoreView,
    cve: Cve,
    record: i64,
    count: nat,
    collection: Collection,
)
    requires
        count <= 4,
    ensures
        ({
            let after = replaced_through(store, cve, record, count);
            &&& after.0.accesses == store.accesses
            &&& after.0.impacts == store.impacts
            &&& after.0.records == store.records
            &&& after.0.collection(collection) == if rank(collection) < count
                && replaced_through(store, cve, record, rank(collection)).1 {
                settled(store, cve, record, collection).0
            } else {
                store.collection(collection)
            }
            &&& rank(collection) < count && replaced_through(store, cve, record, rank(collection)).1
                ==> (replaced_through(store, cve, record, rank(collection) + 1).1 == settled(
                store,
                cve,
                record,
                collection,
            ).1)
        }),
    decreases count,
{
    if count > 0 {
        let fewer = (count - 1) as nat;
        let turn = collection_at(fewer);
        replaced_through_settles(store, cve, record, fewer, collection);
        replaced_through_settles(store, cve, record, fewer, turn);
        let before = replaced_through(store, cve, record, fewer);
        if before.1 {
            replaced_in_collection(before.0, turn, record, members(cve, turn));
        }
    }
}

/// What writing the access value, the impact value and the advisory row does, on a store
/// whose unique constraints hold: the constraints hold afterwards, the collections are
/// untouched, and interned rows stay. On success the row with the returned id holds the
/// fields of the record and the ids of rows that hold its access and impact values, and
/// every row with another natural id is as it was.
pub proof fn heading_writes(store: StoreView, cve: Cve, times: RecordTimes)
    requires
        store.wf(),
    ensures
        ({
            let head = headed(store, cve, times);
            &&& head.0.wf()
            &&& head.0.references == store.references
            &&& head.0.configurations == store.configurations
            &&& head.0.configurations_cpe22 == store.configurations_cpe22
            &&& head.0.products == store.products
            &&& extends(head.0.accesses, store.accesses)
            &&& extends(head.0.impacts, store.impacts)
            &&& store.records.len() <= head.0.records.len()
            &&& forall|i: int|
                0 <= i < store.records.len() && store.records[i].cve_id != cve.id@
                    ==> head.0.records[i] == store.records[i]
            &&& head.1 is Id || head.1 is Failed
            &&& head.1 matches Reply::Id(record) ==> {
                &&& is_id(record, head.0.records.len())
                &&& is_id(head.0.records[record - 1].access_id, head.0.accesses.len())
                &&& is_id(head.0.records[record - 1].impact_id, head.0.impacts.len())
                &&& head.0.accesses[head.0.records[record - 1].access_id - 1] == access_value(cve)
                &&& head.0.impacts[head.0.records[record - 1].impact_id - 1] == impact_value(cve)
                &&& head.0.records[record - 1] == row_of(
                    cve,
                    times,
                    head.0.records[record - 1].access_id,
                    head.0.records[record - 1].impact_id,
                )
            }
        }),
{
    interning_extends(store.accesses, access_value(cve));
    interning_extends(store.impacts, impact_value(cve));
    let first = executed(store, StatementView::InternAccess { access: access_value(cve) });
    if let Reply::Id(access) = first.1 {
        let second = executed(first.0, StatementView::InternImpact { impact: impact_value(cve) });
        if let Reply::Id(impact) = second.1 {
            upsert_writes(second.0.records, row_of(cve, times, access, impact));
        }
    }
}

/// Writing the access value, the impact value and the advisory row of a record a second
/// time, on any store that holds the three tables as the first time left them, changes
/// nothing and is answered as the first time.
pub proof fn heading_again(store: StoreView, cve: Cve, times: RecordTimes, later: StoreView)
    requires
        store.wf(),
        later.accesses == headed(store, cve, times).0.accesses,
        later.impacts == headed(store, cve, times).0.impacts,
        later.records == headed(store, cve, times).0.records,
    ensures
        headed(later, cve, times) == (later, headed(store, cve, times).1),
{
    interning_extends(store.accesses, access_value(cve));
    interning_extends(store.impacts, impact_value(cve));
    let first = executed(store, StatementView::InternAccess { access: access_value(cve) });
    let first_again = executed(later, StatementView::InternAccess { access: access_value(cve) });
    if let Reply::Id(access) = first.1 {
        interning_again(first.0.accesses, access_value(cve), access as int);
        assert(first_again.0 == later);
        let second = executed(first.0, StatementView::InternImpact { impact: impact_value(cve) });
        let second_again = executed(
            later,
            StatementView::InternImpact { impact: impact_value(cve) },
        );
        if let Reply::Id(impact) = second.1 {
            interning_again(second.0.impacts, impact_value(cve), impact as int);
            assert(second_again.0 == later);
            upsert_again(second.0.records, row_of(cve, times, access, impact));
            upsert_writes(second.0.records, row_of(cve, times, access, impact));
            let third_again = executed(
                later,
                StatementView::UpsertRecord { row: row_of(cve, times, access, impact) },
            );
            assert(third_again.0 == later);
        } else {
            assert(second_again.0 == later);
        }
    } else {
        assert(first_again.0 == later);
    }
}

/// Replacing the sets of a record a second time, on the store that the first time left,
/// changes nothing and comes as far as the first time came.
pub proof fn replacing_through_again(store: StoreView, cve: Cve, record: i64, count: nat)
    requires
        store.wf(),
        count <= 4,
    ensures
        replaced_through(replaced_through(store, cve, record, 4).0, cve, record, count) == (
            replaced_through(store, cve, record, 4).0,
            replaced_through(store, cve, record, count).1,
        ),
    decreases count,
{
    let last = replaced_through(store, cve, record, 4).0;
    if count > 0 {
        let fewer = (count - 1) as nat;
        let turn = collection_at(fewer);
        replacing_through_again(store, cve, record, fewer);
        if replaced_through(store, cve, record, fewer).1 {
            replaced_through_settles(store, cve, record, 4, turn);
            replaced_in_collection(last, turn, record, members(cve, turn));
            replacing_again(
                store.collection(turn),
                store.records.len(),
                record,
                members(cve, turn),
            );
            assert(last.with_collection(turn, last.collection(turn)) == last);
        }
    }
}

/// Idempotence: ingesting a record a second time leaves the store as the first time
/// left it, advisory rows, interned values and junction rows alike, and succeeds or fails
/// as the first time did.
pub proof fn ingestion_is_idempotent(store: StoreView, cve: Cve, times: RecordTimes)
    requires
        store.wf(),
    ensures
        ingested(ingested(store, cve, times).0, cve, times) == ingested(store, cve, times),
{
    let head = headed(store, cve, times);
    heading_writes(store, cve, times);
    match head.1 {
        Reply::Id(record) => {
            let last = replaced_through(head.0, cve, record, 4).0;
            replaced_through_settles(head.0, cve, record, 4, Collection::References);
            heading_again(store, cve, times, last);
            replacing_through_again(head.0, cve, record, 4);
        },
        _ => {
            heading_again(store, cve, times, head.0);
        },
    }
}

/// Ingestion keeps the unique constraints of the store: afterwards no intern table holds
/// a value twice, and there is one advisory row for each natural id.
pub proof fn ingestion_keeps_constraints(store: StoreView, cve: Cve, times: RecordTimes)
    requires
        store.wf(),
    ensures
        ingested(store, cve, times).0.wf(),
{
    let head = headed(store, cve, times);
    heading_writes(store, cve, times);
    if let Reply::Id(record) = head.1 {
        replaced_through_settles(head.0, cve, record, 4, Collection::References);
        replaced_through_settles(head.0, cve, record, 4, Collection::Configurations);
        replaced_through_settles(head.0, cve, record, 4, Collection::ConfigurationsCpe22);
        replaced_through_settles(head.0, cve, record, 4, Collection::Products);
        settling_keeps_constraints(head.0, cve, record, Collection::References);
        settling_keeps_constraints(head.0, cve, record, Collection::Configurations);
        settling_keeps_constraints(head.0, cve, record, Collection::ConfigurationsCpe22);
        settling_keeps_constraints(head.0, cve, record, Collection::Products);
    }
}

/// Replacing a set keeps the member table well formed and keeps its rows.
pub proof fn settling_keeps_constraints(
    store: StoreView,
    cve: Cve,
    record: i64,
    collection: Collection,
)
    requires
        store.wf(),
    ensures
        well_formed(settled(store, cve, record, collection).0.values),
        extends(
            settled(store, cve, record, collection).0.values,
            store.collection(collection).values,
        ),
{
    association_grows(
        record_unlinked(store.collection(collection), record),
        store.records.len(),
        record,
        members(cve, collection),
        0,
        members(cve, collection).len(),
    );
}

/// Interned values are never changed or removed: after an ingestion, complete or not,
/// every row of every intern table is where it was, under the id it had.
pub proof fn ingestion_keeps_interned_rows(
    store: StoreView,
    cve: Cve,
    times: RecordTimes,
    collection: Collection,
)
    requires
        store.wf(),
    ensures
        extends(ingested(store, cve, times).0.accesses, store.accesses),
        extends(ingested(store, cve, times).0.impacts, store.impacts),
        extends(
            ingested(store, cve, times).0.collection(collection).values,
            store.collection(collection).values,
        ),
{
    let head = headed(store, cve, times);
    heading_writes(store, cve, times);
    if let Reply::Id(record) = head.1 {
        replaced_through_settles(head.0, cve, record, 4, collection);
        settling_keeps_constraints(head.0, cve, record, collection);
    }
}

/// Last write wins on the natural key: after a complete ingestion the one advisory row
/// with the natural id of the record holds the fields of the record, and refers to the
/// rows that hold its access and impact values. Every row with another natural id is as
/// it was.
pub proof fn ingestion_writes_the_row(store: StoreView, cve: Cve, times: RecordTimes)
    requires
        store.wf(),
        ingested(store, cve, times).1,
    ensures
        ({
            let after = ingested(store, cve, times).0;
            let head = headed(store, cve, times);
            &&& head.1 matches Reply::Id(record)
            &&& is_id(record, after.records.len())
            &&& after.records[record - 1].cve_id == cve.id@
            &&& after.records[record - 1] == row_of(
                cve,
                times,
                after.records[record - 1].access_id,
                after.records[record - 1].impact_id,
            )
            &&& is_id(after.records[record - 1].access_id, after.accesses.len())
            &&& is_id(after.records[record - 1].impact_id, after.impacts.len())
            &&& after.accesses[after.records[record - 1].access_id - 1] == access_value(cve)
            &&& after.impacts[after.records[record - 1].impact_id - 1] == impact_value(cve)
            &&& forall|i: int|
                0 <= i < store.records.len() && store.records[i].cve_id != cve.id@
                    ==> after.records[i] == store.records[i]
        }),
{
    let head = headed(store, cve, times);
    heading_writes(store, cve, times);
    if let Reply::Id(record) = head.1 {
        replaced_through_settles(head.0, cve, record, 4, Collection::References);
    }
}

/// Set replacement: after a complete ingestion the record has, in each collection, a
/// junction row to a member exactly where the member's value is in the record's set, so
/// the stored set is the set of the record, whatever it was before, and also where it is
/// empty. The junction rows of other records are as they were, and every value of the
/// set is interned. A set that was stored in full holds no value twice.
pub proof fn ingestion_replaces_sets(
    store: StoreView,
    cve: Cve,
    times: RecordTimes,
    collection: Collection,
)
    requires
        store.wf(),
        ingested(store, cve, times).1,
    ensures
        ({
            let after = ingested(store, cve, times).0.collection(collection);
            let before = store.collection(collection);
            let set = members(cve, collection);
            &&& headed(store, cve, times).1 matches Reply::Id(record)
            &&& set.no_duplicates()
            &&& forall|i: int| 0 <= i < set.len() ==> after.values.contains(set[i])
            &&& forall|link: Link|
                after.links.contains(link) <==> if link.record == record {
                    is_id(link.member, after.values.len()) && set.contains(
                        after.values[link.member - 1],
                    )
                } else {
                    before.links.contains(link)
                }
        }),
{
    let head = headed(store, cve, times);
    heading_writes(store, cve, times);
    if let Reply::Id(record) = head.1 {
        let set = members(cve, collection);
        if !replaced_through(head.0, cve, record, rank(collection) + 1).1 {
            crate::normalize::replaced_through_stops(
                head.0,
                cve,
                record,
                rank(collection) + 1,
                4,
            );
        }
        if !replaced_through(head.0, cve, record, rank(collection)).1 {
            crate::normalize::replaced_through_stops(head.0, cve, record, rank(collection), 4);
        }
        replaced_through_settles(head.0, cve, record, 4, collection);
        let emptied = record_unlinked(head.0.collection(collection), record);
        association_is_exact(emptied, head.0.records.len(), record, set, set.len());
        assert(set.take(set.len() as int) =~= set);
    }
}

/// Whether the store has room for what ingesting `cve` may add: a row in each of the three
/// tables of the record itself, and a member row for each value of each of its sets.
pub open spec fn has_room(store: StoreView, cve: Cve) -> bool {
    &&& store.accesses.len() < CAPACITY
    &&& store.impacts.len() < CAPACITY
    &&& store.records.len() < CAPACITY
    &&& store.references.values.len() + cve.references.deep_view().len() <= CAPACITY
    &&& store.configurations.values.len() + cve.vulnerable_configuration.deep_view().len()
        <= CAPACITY
    &&& store.configurations_cpe22.values.len()
        + cve.vulnerable_configuration_cpe22.deep_view().len() <= CAPACITY
    &&& store.products.values.len() + cve.vulnerable_product.deep_view().len() <= CAPACITY
}

/// Whether no set-valued field of `cve` holds a value twice.
pub open spec fn holds_sets(cve: Cve) -> bool {
    &&& cve.references.deep_view().no_duplicates()
    &&& cve.vulnerable_configuration.deep_view().no_duplicates()
    &&& cve.vulnerable_configuration_cpe22.deep_view().no_duplicates()
    &&& cve.vulnerable_product.deep_view().no_duplicates()
}

/// Replacing the set of a record in one collection is carried out in full where the
/// record exists, the set holds no value twice and the member table has room for it.
pub proof fn settling_succeeds(store: StoreView, cve: Cve, record: i64, collection: Collection)
    requires
        store.wf(),
        is_id(record, store.records.len()),
        members(cve, collection).no_duplicates(),
        store.collection(collection).values.len() + members(cve, collection).len() <= CAPACITY,
    ensures
        settled(store, cve, record, collection).1,
{
    association_succeeds(
        record_unlinked(store.collection(collection), record),
        store.records.len(),
        record,
        members(cve, collection),
        members(cve, collection).len(),
    );
}

/// When success is owed: on a store that has room, a record whose sets hold no value twice
/// is ingested in full.
pub proof fn ingestion_succeeds(store: StoreView, cve: Cve, times: RecordTimes)
    requires
        store.wf(),
        has_room(store, cve),
        holds_sets(cve),
    ensures
        ingested(store, cve, times).1,
{
    let head = headed(store, cve, times);
    heading_writes(store, cve, times);
    interning_extends(store.accesses, access_value(cve));
    interning_extends(store.impacts, impact_value(cve));
    let first = executed(store, StatementView::InternAccess { access: access_value(cve) });
    let access = first.1->0;
    let second = executed(first.0, StatementView::InternImpact { impact: impact_value(cve) });
    let impact = second.1->0;
    upsert_writes(second.0.records, row_of(cve, times, access, impact));
    assert(head.1 is Id);
    let record = head.1->0;
    settling_succeeds(head.0, cve, record, Collection::References);
    settling_succeeds(head.0, cve, record, Collection::Configurations);
    settling_succeeds(head.0, cve, record, Collection::ConfigurationsCpe22);
    settling_succeeds(head.0, cve, record, Collection::Products);
    replaced_through_settles(head.0, cve, record, 4, Collection::References);
    replaced_through_settles(head.0, cve, record, 4, Collection::Configurations);
    replaced_through_settles(head.0, cve, record, 4, Collection::ConfigurationsCpe22);
    replaced_through_settles(head.0, cve, record, 4, Collection::Products);
}

/// Set replacement, as it is read back: after a complete ingestion the stored set of the
/// record in each collection holds exactly the values of the record's set.
pub proof fn ingestion_stores_the_set(
    store: StoreView,
    cve: Cve,
    times: RecordTimes,
    collection: Collection,
    value: Seq<char>,
)
    requires
        store.wf(),
        ingested(store, cve, times).1,
    ensures
        headed(store, cve, times).1 is Id,
        stored_set(
            ingested(store, cve, times).0.collection(collection),
            headed(store, cve, times).1->0,
            ingested(store, cve, times).0.collection(collection).values.len(),
        ).contains(value) <==> members(cve, collection).contains(value),
{
    let after = ingested(store, cve, times).0.collection(collection);
    let record = headed(store, cve, times).1->0;
    let set = members(cve, collection);
    ingestion_replaces_sets(store, cve, times, collection);
    ingestion_keeps_constraints(store, cve, times);
    stored_set_lists_members(after, record, after.values.len(), value);
    if set.contains(value) {
        let i = choose|i: int| 0 <= i < set.len() && set[i] == value;
        assert(after.values.contains(set[i]));
        let at = choose|at: int| 0 <= at < after.values.len() && after.values[at] == value;
        let member = (at + 1) as i64;
        assert(after.links.contains(Link { record, member }));
    }
}

/// Idempotence of ingestion in one transaction: a second ingestion of the record leaves
/// the store as the first left it, and succeeds or fails as the first did.
pub proof fn atomic_ingestion_is_idempotent(store: StoreView, cve: Cve, times: RecordTimes)
    requires
        store.wf(),
    ensures
        ingested_atomically(ingested_atomically(store, cve, times).0, cve, times)
            == ingested_atomically(store, cve, times),
{
    ingestion_is_idempotent(store, cve, times);
}

} // verus!
