//! Normalisation of one canonical record into the relational store: what it leaves in the
//! store, and the in-memory run of it.

use crate::circl::Cve;
use crate::error::Error;
use crate::ingest::{
    access_value, advance, advanced, following, impact_value, members, read_times, remaining,
    row_of, times_of, Action, ActionView, RecordTimes, Stage,
};
use crate::statement::{Collection, Reply, StatementView};
use crate::store::{executed, Store, StoreView};
use vstd::prelude::*;

verus! {

/// The place of a collection in the order in which the collections are handled.
pub open spec fn rank(collection: Collection) -> nat {
    match collection {
        Collection::References => 0,
        Collection::Configurations => 1,
        Collection::ConfigurationsCpe22 => 2,
        Collection::Products => 3,
    }
}

/// The collection that is handled at place `rank`.
pub open spec fn collection_at(rank: nat) -> Collection {
    if rank == 0 {
        Collection::References
    } else if rank == 1 {
        Collection::Configurations
    } else if rank == 2 {
        Collection::ConfigurationsCpe22
    } else {
        Collection::Products
    }
}

/// The store after the first `count` of `values` were associated with `record` in
/// `collection`, one after another: each is interned and then the junction row of the
/// record and its id is inserted. The flag says whether all of that was carried out; after
/// the first statement that fails nothing more is done.
pub open spec fn linked(
    store: StoreView,
    collection: Collection,
    record: i64,
    values: Seq<Seq<char>>,
    count: nat,
) -> (StoreView, bool)
    decreases count,
{
    if count == 0 {
        (store, true)
    } else {
        let (before, complete) = linked(store, collection, record, values, (count - 1) as nat);
        if complete {
            let (held, id) = executed(
                before,
                StatementView::InternMember { collection, value: values[count - 1] },
            );
            match id {
                Reply::Id(member) => {
                    let (after, reply) = executed(
                        held,
                        StatementView::Link { collection, record, member },
                    );
                    (after, reply == Reply::Done)
                },
                _ => (held, false),
            }
        } else {
            (before, false)
        }
    }
}

/// The store after the junction rows that `record` has in `collection` were deleted.
pub open spec fn cleared(store: StoreView, collection: Collection, record: i64) -> StoreView {
    executed(store, StatementView::ClearLinks { collection, record }).0
}

/// The store after the set that `record` has in `collection` was replaced by `values`:
/// its junction rows are deleted, and then the values are associated with it.
pub open spec fn replaced(
    store: StoreView,
    collection: Collection,
    record: i64,
    values: Seq<Seq<char>>,
) -> (StoreView, bool) {
    linked(cleared(store, collection, record), collection, record, values, values.len())
}

/// The store after the sets of `record` were replaced by those of `cve` in the first
/// `count` collections, and whether all of that was carried out.
pub open spec fn replaced_through(store: StoreView, cve: Cve, record: i64, count: nat) -> (
    StoreView,
    bool,
)
    decreases count,
{
    if count == 0 {
        (store, true)
    } else {
        let (before, complete) = replaced_through(store, cve, record, (count - 1) as nat);
        if complete {
            let collection = collection_at((count - 1) as nat);
            replaced(before, collection, record, members(cve, collection))
        } else {
            (before, false)
        }
    }
}

/// The store after the access value, the impact value and the advisory row of `cve` were
/// written, with the answer to the last of these statements that was issued.
pub open spec fn headed(store: StoreView, cve: Cve, times: RecordTimes) -> (StoreView, Reply) {
    let (first, access) = executed(
        store,
        StatementView::InternAccess { access: access_value(cve) },
    );
    match access {
        Reply::Id(access) => {
            let (second, impact) = executed(
                first,
                StatementView::InternImpact { impact: impact_value(cve) },
            );
            match impact {
                Reply::Id(impact) => executed(
                    second,
                    StatementView::UpsertRecord { row: row_of(cve, times, access, impact) },
                ),
                _ => (second, Reply::Failed),
            }
        },
        _ => (first, Reply::Failed),
    }
}

/// What ingesting `cve` leaves in the store, and whether the ingestion was carried out in
/// full.
///
/// The access value and the impact value are interned and the advisory row is written
/// under the natural id, with their ids. Then, collection after collection, the set that
/// the record has is replaced by the one in `cve`. The first statement that fails ends the
/// ingestion; what was written before it stays.
pub open spec fn ingested(store: StoreView, cve: Cve, times: RecordTimes) -> (StoreView, bool) {
    let (head, reply) = headed(store, cve, times);
    match reply {
        Reply::Id(record) => replaced_through(head, cve, record, 4),
        _ => (head, false),
    }
}

/// Once a statement has failed, associating more values changes nothing.
pub proof fn linked_stops(
    store: StoreView,
    collection: Collection,
    record: i64,
    values: Seq<Seq<char>>,
    count: nat,
    more: nat,
)
    requires
        count <= more,
        !linked(store, collection, record, values, count).1,
    ensures
        linked(store, collection, record, values, more) == linked(
            store,
            collection,
            record,
            values,
            count,
        ),
    decreases more,
{
    if count < more {
        linked_stops(store, collection, record, values, count, (more - 1) as nat);
    }
}

/// Once a statement has failed, no further collection is touched.
pub proof fn replaced_through_stops(store: StoreView, cve: Cve, record: i64, count: nat, more: nat)
    requires
        count <= more,
        !replaced_through(store, cve, record, count).1,
    ensures
        replaced_through(store, cve, record, more) == replaced_through(
            store,
            cve,
            record,
            count,
        ),
    decreases more,
{
    if count < more {
        replaced_through_stops(store, cve, record, count, (more - 1) as nat);
    }
}

/// Whether a run of the ingestion of `cve` that began on the store `origin` is where it
/// should be: the store is `now`, the run is in `stage`, and `action` is what is to be done
/// next.
pub open spec fn on_track(
    origin: StoreView,
    now: StoreView,
    cve: Cve,
    times: RecordTimes,
    stage: Stage,
    action: ActionView,
) -> bool {
    let intern_access = StatementView::InternAccess { access: access_value(cve) };
    let intern_impact = StatementView::InternImpact { impact: impact_value(cve) };
    let first = executed(origin, intern_access);
    let second = executed(first.0, intern_impact);
    match stage {
        Stage::Start => false,
        Stage::Access => now == origin && action == ActionView::Run(intern_access),
        Stage::Impact { access } => {
            &&& first == (now, Reply::Id(access))
            &&& action == ActionView::Run(intern_impact)
        },
        Stage::Record => {
            &&& first.1 is Id
            &&& second.1 is Id
            &&& now == second.0
            &&& action == ActionView::Run(
                StatementView::UpsertRecord { row: row_of(cve, times, first.1->0, second.1->0) },
            )
        },
        Stage::Clear { collection, record } => {
            &&& headed(origin, cve, times).1 == Reply::Id(record)
            &&& replaced_through(headed(origin, cve, times).0, cve, record, rank(collection)) == (
                now,
                true,
            )
            &&& action == ActionView::Run(StatementView::ClearLinks { collection, record })
        },
        Stage::Member { collection, record, index } => {
            let before = replaced_through(
                headed(origin, cve, times).0,
                cve,
                record,
                rank(collection),
            );
            &&& headed(origin, cve, times).1 == Reply::Id(record)
            &&& before.1
            &&& index < members(cve, collection).len()
            &&& linked(
                cleared(before.0, collection, record),
                collection,
                record,
                members(cve, collection),
                index as nat,
            ) == (now, true)
            &&& action == ActionView::Run(
                StatementView::InternMember {
                    collection,
                    value: members(cve, collection)[index as int],
                },
            )
        },
        Stage::Link { collection, record, index } => {
            let before = replaced_through(
                headed(origin, cve, times).0,
                cve,
                record,
                rank(collection),
            );
            let so_far = linked(
                cleared(before.0, collection, record),
                collection,
                record,
                members(cve, collection),
                index as nat,
            );
            let held = executed(
                so_far.0,
                StatementView::InternMember {
                    collection,
                    value: members(cve, collection)[index as int],
                },
            );
            &&& headed(origin, cve, times).1 == Reply::Id(record)
            &&& before.1
            &&& index < members(cve, collection).len()
            &&& so_far.1
            &&& held.0 == now
            &&& held.1 is Id
            &&& action == ActionView::Run(
                StatementView::Link { collection, record, member: held.1->0 },
            )
        },
        Stage::Done => ingested(origin, cve, times) == (now, true) && action == ActionView::Finish,
        Stage::Failed => {
            &&& ingested(origin, cve, times) == (now, false)
            &&& action == ActionView::Abort(Error::StoreFailure)
        },
    }
}

/// A run that has failed within a collection leaves what ingestion as a whole leaves.
proof fn failing_in_collection(
    origin: StoreView,
    cve: Cve,
    times: RecordTimes,
    collection: Collection,
    record: i64,
    count: nat,
)
    requires
        headed(origin, cve, times).1 == Reply::Id(record),
        replaced_through(headed(origin, cve, times).0, cve, record, rank(collection)).1,
        count <= members(cve, collection).len(),
        !linked(
            cleared(
                replaced_through(headed(origin, cve, times).0, cve, record, rank(collection)).0,
                collection,
                record,
            ),
            collection,
            record,
            members(cve, collection),
            count,
        ).1,
    ensures
        ingested(origin, cve, times) == linked(
            cleared(
                replaced_through(headed(origin, cve, times).0, cve, record, rank(collection)).0,
                collection,
                record,
            ),
            collection,
            record,
            members(cve, collection),
            count,
        ),
{
    let head = headed(origin, cve, times).0;
    let before = replaced_through(head, cve, record, rank(collection));
    linked_stops(
        cleared(before.0, collection, record),
        collection,
        record,
        members(cve, collection),
        count,
        members(cve, collection).len(),
    );
    assert(collection_at(rank(collection)) == collection);
    assert(replaced_through(head, cve, record, rank(collection) + 1) == replaced(
        before.0,
        collection,
        record,
        members(cve, collection),
    ));
    replaced_through_stops(head, cve, record, rank(collection) + 1, 4);
}

/// A run that has come to the end of a collection is where it should be in the stage
/// that follows.
proof fn leaving_collection(
    origin: StoreView,
    now: StoreView,
    cve: Cve,
    times: RecordTimes,
    collection: Collection,
    record: i64,
)
    requires
        headed(origin, cve, times).1 == Reply::Id(record),
        replaced_through(headed(origin, cve, times).0, cve, record, rank(collection)).1,
        linked(
            cleared(
                replaced_through(headed(origin, cve, times).0, cve, record, rank(collection)).0,
                collection,
                record,
            ),
            collection,
            record,
            members(cve, collection),
            members(cve, collection).len(),
        ) == (now, true),
    ensures
        match following(collection) {
            Some(next) => replaced_through(
                headed(origin, cve, times).0,
                cve,
                record,
                rank(next),
            ) == (now, true),
            None => ingested(origin, cve, times) == (now, true),
        },
{
    let head = headed(origin, cve, times).0;
    let before = replaced_through(head, cve, record, rank(collection));
    assert(collection_at(rank(collection)) == collection);
    assert(replaced_through(head, cve, record, rank(collection) + 1) == replaced(
        before.0,
        collection,
        record,
        members(cve, collection),
    ));
}

/// Whether a run in `stage` that is to issue `statement` is where it should be after the
/// store has carried out the statement and the next step was chosen from its answer.
pub open spec fn kept_on_track(
    origin: StoreView,
    now: StoreView,
    cve: Cve,
    times: RecordTimes,
    stage: Stage,
    statement: StatementView,
) -> bool {
    on_track(
        origin,
        executed(now, statement).0,
        cve,
        times,
        advanced(cve, times, stage, executed(now, statement).1).0,
        advanced(cve, times, stage, executed(now, statement).1).1,
    )
}

proof fn track_header(
    origin: StoreView,
    now: StoreView,
    cve: Cve,
    times: RecordTimes,
    stage: Stage,
    statement: StatementView,
)
    requires
        stage is Access || stage is Impact || stage is Record,
        on_track(origin, now, cve, times, stage, ActionView::Run(statement)),
    ensures
        kept_on_track(origin, now, cve, times, stage, statement),
{
    let (after, reply) = executed(now, statement);
    let head = headed(origin, cve, times);
    if stage is Record {
        assert(head == (after, reply));
    }
}

proof fn track_clear(
    origin: StoreView,
    now: StoreView,
    cve: Cve,
    times: RecordTimes,
    stage: Stage,
    statement: StatementView,
)
    requires
        stage is Clear,
        on_track(origin, now, cve, times, stage, ActionView::Run(statement)),
    ensures
        kept_on_track(origin, now, cve, times, stage, statement),
{
    let (after, reply) = executed(now, statement);
    if let Stage::Clear { collection, record } = stage {
        assert(reply == Reply::Done);
        if members(cve, collection).len() == 0 {
            leaving_collection(origin, after, cve, times, collection, record);
        }
    }
}

proof fn track_member(
    origin: StoreView,
    now: StoreView,
    cve: Cve,
    times: RecordTimes,
    stage: Stage,
    statement: StatementView,
)
    requires
        stage is Member,
        on_track(origin, now, cve, times, stage, ActionView::Run(statement)),
    ensures
        kept_on_track(origin, now, cve, times, stage, statement),
{
    let (after, reply) = executed(now, statement);
    if let Stage::Member { collection, record, index } = stage {
        if !(reply is Id) {
            failing_in_collection(origin, cve, times, collection, record, (index + 1) as nat);
        }
    }
}

proof fn track_link(
    origin: StoreView,
    now: StoreView,
    cve: Cve,
    times: RecordTimes,
    stage: Stage,
    statement: StatementView,
)
    requires
        stage is Link,
        on_track(origin, now, cve, times, stage, ActionView::Run(statement)),
    ensures
        kept_on_track(origin, now, cve, times, stage, statement),
{
    let (after, reply) = executed(now, statement);
    if let Stage::Link { collection, record, index } = stage {
        crate::ingest::members_are_countable(cve, collection);
        if reply == Reply::Done {
            if index + 1 == members(cve, collection).len() {
                leaving_collection(origin, after, cve, times, collection, record);
            }
        } else {
            failing_in_collection(origin, cve, times, collection, record, (index + 1) as nat);
        }
    }
}

/// A run that is where it should be is so again after one more statement: after the store
/// has carried out the statement that was to be issued, and the next step was chosen from
/// its answer.
pub proof fn step_keeps_track(
    origin: StoreView,
    now: StoreView,
    cve: Cve,
    times: RecordTimes,
    stage: Stage,
    statement: StatementView,
)
    requires
        on_track(origin, now, cve, times, stage, ActionView::Run(statement)),
    ensures
        kept_on_track(origin, now, cve, times, stage, statement),
{
    match stage {
        Stage::Access | Stage::Impact { .. } | Stage::Record => {
            track_header(origin, now, cve, times, stage, statement);
        },
        Stage::Clear { .. } => {
            track_clear(origin, now, cve, times, stage, statement);
        },
        Stage::Member { .. } => {
            track_member(origin, now, cve, times, stage, statement);
        },
        Stage::Link { .. } => {
            track_link(origin, now, cve, times, stage, statement);
        },
        _ => {},
    }
}

/// Ingests one canonical record into the store.
///
/// Fails with [`Error::MalformedTimestamp`], and leaves the store as it is, where a date
/// of the record is not a canonical date. Else the store afterwards holds what
/// [`ingested`] says, and the result is [`Error::StoreFailure`] exactly where a statement
/// failed on the way.
pub fn store_cve(store: &mut Store, cve: &Cve) -> (r: Result<(), Error>)
    requires
        old(store).wf(),
    ensures
        final(store).wf(),
        match times_of(*cve) {
            Some(times) => {
                &&& final(store)@ == ingested(old(store)@, *cve, times).0
                &&& r == if ingested(old(store)@, *cve, times).1 {
                    Ok::<(), Error>(())
                } else {
                    Err(Error::StoreFailure)
                }
            },
            None => final(store)@ == old(store)@ && r == Err::<(), Error>(
                Error::MalformedTimestamp,
            ),
        },
{
    let times = match read_times(cve) {
        Ok(times) => times,
        Err(e) => { return Err(e); },
    };
    let (mut stage, mut action) = advance(cve, &times, Stage::Start, Reply::Done);
    loop
        invariant
            store.wf(),
            times_of(*cve) == Some(times),
            on_track(old(store)@, store@, *cve, times, stage, action.deep_view()),
        decreases remaining(*cve, stage) + if action is Run { 1nat } else { 0nat },
    {
        match action {
            Action::Run(statement) => {
                proof {
                    step_keeps_track(
                        old(store)@,
                        store@,
                        *cve,
                        times,
                        stage,
                        statement.deep_view(),
                    );
                }
                let reply = store.execute(statement);
                let next = advance(cve, &times, stage, reply);
                stage = next.0;
                action = next.1;
            },
            Action::Finish => { return Ok(()); },
            Action::Abort(e) => { return Err(e); },
        }
    }
}

/// What ingesting `cve` in one transaction leaves in the store: what [`ingested`] says
/// where the ingestion is carried out in full, else the store as it was.
pub open spec fn ingested_atomically(store: StoreView, cve: Cve, times: RecordTimes) -> (
    StoreView,
    bool,
) {
    if ingested(store, cve, times).1 {
        (ingested(store, cve, times).0, true)
    } else {
        (store, false)
    }
}

/// Ingests one canonical record into the store in one transaction: in full or not at all.
///
/// Fails with [`Error::MalformedTimestamp`] where a date of the record is not a canonical
/// date, and with [`Error::StoreFailure`] where a statement fails on the way. After a
/// failure the store is as it was before.
pub fn store_cve_atomically(store: &mut Store, cve: &Cve) -> (r: Result<(), Error>)
    requires
        old(store).wf(),
    ensures
        final(store).wf(),
        match times_of(*cve) {
            Some(times) => {
                &&& final(store)@ == ingested_atomically(old(store)@, *cve, times).0
                &&& r == if ingested_atomically(old(store)@, *cve, times).1 {
                    Ok::<(), Error>(())
                } else {
                    Err(Error::StoreFailure)
                }
            },
            None => final(store)@ == old(store)@ && r == Err::<(), Error>(
                Error::MalformedTimestamp,
            ),
        },
{
    let saved = store.snapshot();
    match store_cve(store, cve) {
        Ok(()) => Ok(()),
        Err(e) => {
            *store = saved;
            Err(e)
        },
    }
}

} // verus!
