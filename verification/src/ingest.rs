//! Ingestion of one canonical record: the statements to issue, one after another, each
//! chosen from what the store answered to the one before.

use crate::circl::Cve;
use crate::error::Error;
use crate::records::{RecordRow, RecordView};
use crate::statement::{Collection, Reply, Statement, StatementView};
use crate::table::Triple;
use crate::timestamp::{canonical_reading, Timestamp};
use vstd::prelude::*;

verus! {

/// The dates of a canonical record, read as points in time.
#[derive(Default, Debug, Clone, Copy, PartialEq, Eq, Structural)]
pub struct RecordTimes {
    pub modified: Timestamp,
    pub published: Timestamp,
    pub cvss_time: Option<Timestamp>,
    pub last_modified: Timestamp,
}

/// The dates of `cve` as points in time, where each of them reads as a canonical date.
pub open spec fn times_of(cve: Cve) -> Option<RecordTimes> {
    if canonical_reading(cve.modified@) is Some && canonical_reading(cve.published@) is Some && (
    cve.cvss_time matches Some(text) ==> canonical_reading(text@) is Some) && canonical_reading(
        cve.last_modified@,
    ) is Some {
        Some(
            RecordTimes {
                modified: canonical_reading(cve.modified@)->0,
                published: canonical_reading(cve.published@)->0,
                cvss_time: match cve.cvss_time {
                    Some(text) => canonical_reading(text@),
                    None => None,
                },
                last_modified: canonical_reading(cve.last_modified@)->0,
            },
        )
    } else {
        None
    }
}

/// Reads the dates of a canonical record.
///
/// Fails with [`Error::MalformedTimestamp`] exactly where one of them is not a canonical
/// date.
pub fn read_times(cve: &Cve) -> (r: Result<RecordTimes, Error>)
    ensures
        match r {
            Ok(times) => times_of(*cve) == Some(times),
            Err(e) => e == Error::MalformedTimestamp && times_of(*cve) is None,
        },
{
    let modified = match Timestamp::parse_canonical(cve.modified.as_str()) {
        Ok(at) => at,
        Err(e) => { return Err(e); },
    };
    let published = match Timestamp::parse_canonical(cve.published.as_str()) {
        Ok(at) => at,
        Err(e) => { return Err(e); },
    };
    let cvss_time = match &cve.cvss_time {
        None => None,
        Some(text) => match Timestamp::parse_canonical(text.as_str()) {
            Ok(at) => Some(at),
            Err(e) => { return Err(e); },
        },
    };
    let last_modified = match Timestamp::parse_canonical(cve.last_modified.as_str()) {
        Ok(at) => at,
        Err(e) => { return Err(e); },
    };
    Ok(RecordTimes { modified, published, cvss_time, last_modified })
}

/// An optional text as it is stored: the empty text where it is absent.
pub open spec fn text_or_empty(text: Option<String>) -> Seq<char> {
    match text {
        Some(text) => text@,
        None => Seq::empty(),
    }
}

/// The access value that is interned for `cve`: authentication, complexity, vector.
pub open spec fn access_value(cve: Cve) -> (Seq<char>, Seq<char>, Seq<char>) {
    (
        text_or_empty(cve.access.authentication),
        text_or_empty(cve.access.complexity),
        text_or_empty(cve.access.vector),
    )
}

/// The impact value that is interned for `cve`: confidentiality, integrity, availability.
pub open spec fn impact_value(cve: Cve) -> (Seq<char>, Seq<char>, Seq<char>) {
    (
        text_or_empty(cve.impact.confidentiality),
        text_or_empty(cve.impact.integrity),
        text_or_empty(cve.impact.availability),
    )
}

/// The row that is written for `cve`, given the ids of its access and impact values.
pub open spec fn row_of(cve: Cve, times: RecordTimes, access_id: i64, impact_id: i64) -> RecordView {
    RecordView {
        modified: times.modified,
        published: times.published,
        access_id,
        assigner: cve.assigner@,
        cvss: cve.cvss,
        cvss_time: times.cvss_time,
        cvss_vector: cve.cvss_vector.deep_view(),
        cwe: cve.cwe@,
        cve_id: cve.id@,
        impact_id,
        last_modified: times.last_modified,
        summary: cve.summary@,
    }
}

/// The members that `cve` has in `collection`, in their order.
pub open spec fn members(cve: Cve, collection: Collection) -> Seq<Seq<char>> {
    match collection {
        Collection::References => cve.references.deep_view(),
        Collection::Configurations => cve.vulnerable_configuration.deep_view(),
        Collection::ConfigurationsCpe22 => cve.vulnerable_configuration_cpe22.deep_view(),
        Collection::Products => cve.vulnerable_product.deep_view(),
    }
}

/// The collection that is handled after `collection`, if any.
pub open spec fn following(collection: Collection) -> Option<Collection> {
    match collection {
        Collection::References => Some(Collection::Configurations),
        Collection::Configurations => Some(Collection::ConfigurationsCpe22),
        Collection::ConfigurationsCpe22 => Some(Collection::Products),
        Collection::Products => None,
    }
}

/// How far the ingestion of a record has come: which statement is under way.
#[derive(Debug, Clone, Copy, PartialEq, Eq, Structural)]
pub enum Stage {
    /// Nothing was issued yet.
    Start,
    /// The access value is being interned.
    Access,
    /// The impact value is being interned; the access value has this id.
    Impact { access: i64 },
    /// The advisory row is being written.
    Record,
    /// The junction rows that the record has in a collection are being deleted.
    Clear { collection: Collection, record: i64 },
    /// The member at `index` of a collection is being interned.
    Member { collection: Collection, record: i64, index: usize },
    /// The junction row for the member at `index` of a collection is being inserted.
    Link { collection: Collection, record: i64, index: usize },
    /// The record was ingested.
    Done,
    /// A statement failed, and the ingestion was given up.
    Failed,
}

/// What is to be done next.
#[derive(Debug, Clone, PartialEq)]
pub enum Action {
    /// Issue this statement, and come back with the store's answer.
    Run(Statement),
    /// Nothing more: the record was ingested.
    Finish,
    /// Nothing more: the ingestion failed.
    Abort(Error),
}

/// An [`Action`] as a mathematical value.
pub enum ActionView {
    Run(StatementView),
    Finish,
    Abort(Error),
}

impl DeepView for Action {
    type V = ActionView;

    open spec fn deep_view(&self) -> ActionView {
        match self {
            Action::Run(statement) => ActionView::Run(statement.deep_view()),
            Action::Finish => ActionView::Finish,
            Action::Abort(error) => ActionView::Abort(*error),
        }
    }
}

/// The step into the stage in which the ingestion has failed.
pub open spec fn failure() -> (Stage, ActionView) {
    (Stage::Failed, ActionView::Abort(Error::StoreFailure))
}

/// The step that starts on `collection`: the junction rows of the record are deleted.
pub open spec fn clearing(collection: Collection, record: i64) -> (Stage, ActionView) {
    (
        Stage::Clear { collection, record },
        ActionView::Run(StatementView::ClearLinks { collection, record }),
    )
}

/// The step that goes on with the member at `index` of `collection`: it is interned, or,
/// where the collection has no such member, the next collection is started on, or, after
/// the last collection, the ingestion is finished.
pub open spec fn member_or_next(cve: Cve, collection: Collection, record: i64, index: int) -> (
    Stage,
    ActionView,
) {
    if 0 <= index < members(cve, collection).len() {
        (
            Stage::Member { collection, record, index: index as usize },
            ActionView::Run(
                StatementView::InternMember {
                    collection,
                    value: members(cve, collection)[index],
                },
            ),
        )
    } else {
        match following(collection) {
            Some(next) => clearing(next, record),
            None => (Stage::Done, ActionView::Finish),
        }
    }
}

/// The step that follows when the store has answered `reply` in `stage`: the next stage
/// and what is to be done in it.
///
/// The access and the impact value are interned, then the advisory row is written with
/// their ids. Then each collection in turn has the record's junction rows deleted and,
/// member after member, the member interned and its junction row inserted. An answer
/// that reports a failure, or that is not of the kind the statement under way gives, ends
/// the ingestion with [`Error::StoreFailure`].
pub open spec fn advanced(cve: Cve, times: RecordTimes, stage: Stage, reply: Reply) -> (
    Stage,
    ActionView,
) {
    match stage {
        Stage::Start => (
            Stage::Access,
            ActionView::Run(StatementView::InternAccess { access: access_value(cve) }),
        ),
        Stage::Access => match reply {
            Reply::Id(access) => (
                Stage::Impact { access },
                ActionView::Run(StatementView::InternImpact { impact: impact_value(cve) }),
            ),
            _ => failure(),
        },
        Stage::Impact { access } => match reply {
            Reply::Id(impact) => (
                Stage::Record,
                ActionView::Run(
                    StatementView::UpsertRecord { row: row_of(cve, times, access, impact) },
                ),
            ),
            _ => failure(),
        },
        Stage::Record => match reply {
            Reply::Id(record) => clearing(Collection::References, record),
            _ => failure(),
        },
        Stage::Clear { collection, record } => match reply {
            Reply::Done => member_or_next(cve, collection, record, 0),
            _ => failure(),
        },
        Stage::Member { collection, record, index } => match reply {
            Reply::Id(member) => (
                Stage::Link { collection, record, index },
                ActionView::Run(StatementView::Link { collection, record, member }),
            ),
            _ => failure(),
        },
        Stage::Link { collection, record, index } => match reply {
            Reply::Done => member_or_next(cve, collection, record, index + 1),
            _ => failure(),
        },
        Stage::Done => (Stage::Done, ActionView::Finish),
        Stage::Failed => failure(),
    }
}

/// The statements that a collection takes: one to delete the junction rows of the record,
/// and two for each member.
pub open spec fn cost(cve: Cve, collection: Collection) -> nat {
    1 + 2 * members(cve, collection).len()
}

/// The statements that the collections after `collection` take.
pub open spec fn cost_after(cve: Cve, collection: Collection) -> nat {
    match collection {
        Collection::References => cost(cve, Collection::Configurations) + cost(
            cve,
            Collection::ConfigurationsCpe22,
        ) + cost(cve, Collection::Products),
        Collection::Configurations => cost(cve, Collection::ConfigurationsCpe22) + cost(
            cve,
            Collection::Products,
        ),
        Collection::ConfigurationsCpe22 => cost(cve, Collection::Products),
        Collection::Products => 0,
    }
}

/// The members of `collection` from the one at `index` on, counted; one where there is no
/// member at `index`.
pub open spec fn members_left(cve: Cve, collection: Collection, index: usize) -> nat {
    if index < members(cve, collection).len() {
        (members(cve, collection).len() - index) as nat
    } else {
        1
    }
}

/// A bound on the statements that are still to be answered from `stage` on. It is zero
/// where the ingestion has ended.
pub open spec fn remaining(cve: Cve, stage: Stage) -> nat {
    let first = Collection::References;
    match stage {
        Stage::Start => 4 + cost(cve, first) + cost_after(cve, first),
        Stage::Access => 3 + cost(cve, first) + cost_after(cve, first),
        Stage::Impact { .. } => 2 + cost(cve, first) + cost_after(cve, first),
        Stage::Record => 1 + cost(cve, first) + cost_after(cve, first),
        Stage::Clear { collection, .. } => cost(cve, collection) + cost_after(cve, collection),
        Stage::Member { collection, index, .. } => 2 * members_left(cve, collection, index)
            + cost_after(cve, collection),
        Stage::Link { collection, index, .. } => (2 * members_left(cve, collection, index) - 1
            + cost_after(cve, collection)) as nat,
        Stage::Done => 0,
        Stage::Failed => 0,
    }
}

/// The text of an optional field as it is stored.
fn stored_text(text: &Option<String>) -> (stored: String)
    ensures
        stored@ == text_or_empty(*text),
{
    match text {
        Some(text) => text.clone(),
        None => String::new(),
    }
}

/// The access value to intern for a record.
pub fn access_of(cve: &Cve) -> (value: Triple)
    ensures
        value.deep_view() == access_value(*cve),
{
    Triple {
        first: stored_text(&cve.access.authentication),
        second: stored_text(&cve.access.complexity),
        third: stored_text(&cve.access.vector),
    }
}

/// The impact value to intern for a record.
pub fn impact_of(cve: &Cve) -> (value: Triple)
    ensures
        value.deep_view() == impact_value(*cve),
{
    Triple {
        first: stored_text(&cve.impact.confidentiality),
        second: stored_text(&cve.impact.integrity),
        third: stored_text(&cve.impact.availability),
    }
}

/// The row to write for a record.
pub fn record_row(cve: &Cve, times: &RecordTimes, access_id: i64, impact_id: i64) -> (row:
    RecordRow)
    ensures
        row.deep_view() == row_of(*cve, *times, access_id, impact_id),
{
    RecordRow {
        modified: times.modified,
        published: times.published,
        access_id,
        assigner: cve.assigner.clone(),
        cvss: cve.cvss,
        cvss_time: times.cvss_time,
        cvss_vector: match &cve.cvss_vector {
            Some(text) => Some(text.clone()),
            None => None,
        },
        cwe: cve.cwe.clone(),
        cve_id: cve.id.clone(),
        impact_id,
        last_modified: times.last_modified,
        summary: cve.summary.clone(),
    }
}

/// The members that a record has in a collection.
pub fn members_of(cve: &Cve, collection: Collection) -> (list: &Vec<String>)
    ensures
        list.deep_view() == members(*cve, collection),
{
    match collection {
        Collection::References => &cve.references,
        Collection::Configurations => &cve.vulnerable_configuration,
        Collection::ConfigurationsCpe22 => &cve.vulnerable_configuration_cpe22,
        Collection::Products => &cve.vulnerable_product,
    }
}

/// The step that starts on a collection.
fn clear(collection: Collection, record: i64) -> (next: (Stage, Action))
    ensures
        (next.0, next.1.deep_view()) == clearing(collection, record),
{
    (Stage::Clear { collection, record }, Action::Run(Statement::ClearLinks { collection, record }))
}

/// The step that leaves a collection behind.
fn leave(cve: &Cve, collection: Collection, record: i64) -> (next: (Stage, Action))
    ensures
        (next.0, next.1.deep_view()) == member_or_next(
            *cve,
            collection,
            record,
            members(*cve, collection).len() as int,
        ),
{
    match collection {
        Collection::References => clear(Collection::Configurations, record),
        Collection::Configurations => clear(Collection::ConfigurationsCpe22, record),
        Collection::ConfigurationsCpe22 => clear(Collection::Products, record),
        Collection::Products => (Stage::Done, Action::Finish),
    }
}

/// The step that goes on with the member at `index` of a collection.
fn go_on(cve: &Cve, collection: Collection, record: i64, index: usize) -> (next: (Stage, Action))
    ensures
        (next.0, next.1.deep_view()) == member_or_next(*cve, collection, record, index as int),
{
    let list = members_of(cve, collection);
    if index < list.len() {
        (
            Stage::Member { collection, record, index },
            Action::Run(Statement::InternMember { collection, value: list[index].clone() }),
        )
    } else {
        leave(cve, collection, record)
    }
}

/// Each step that issues a statement brings the end of the ingestion nearer.
pub proof fn every_step_counts(cve: Cve, times: RecordTimes, stage: Stage, reply: Reply)
    ensures
        advanced(cve, times, stage, reply).1 is Run ==> remaining(
            cve,
            advanced(cve, times, stage, reply).0,
        ) < remaining(cve, stage),
{
    if let Stage::Link { collection, .. } = stage {
        members_are_countable(cve, collection);
    }
}

/// A record has no more members in a collection than a machine word counts.
pub proof fn members_are_countable(cve: Cve, collection: Collection)
    ensures
        members(cve, collection).len() <= usize::MAX,
{
    assert(cve.references.deep_view().len() == cve.references.len());
    assert(cve.vulnerable_configuration.deep_view().len() == cve.vulnerable_configuration.len());
    assert(cve.vulnerable_configuration_cpe22.deep_view().len()
        == cve.vulnerable_configuration_cpe22.len());
    assert(cve.vulnerable_product.deep_view().len() == cve.vulnerable_product.len());
}

/// Takes the ingestion of `cve` one step further: given the stage it is in and what the
/// store answered to the statement under way, returns the next stage and what is to be
/// done in it. The first step is taken from [`Stage::Start`], with any answer.
///
/// Each step that issues a statement brings the end nearer: [`remaining`] goes down.
pub fn advance(cve: &Cve, times: &RecordTimes, stage: Stage, reply: Reply) -> (next: (
    Stage,
    Action,
))
    ensures
        (next.0, next.1.deep_view()) == advanced(*cve, *times, stage, reply),
        next.1 is Run ==> remaining(*cve, next.0) < remaining(*cve, stage),
{
    proof {
        every_step_counts(*cve, *times, stage, reply);
    }
    match stage {
        Stage::Start => (
            Stage::Access,
            Action::Run(Statement::InternAccess { access: access_of(cve) }),
        ),
        Stage::Access => match reply {
            Reply::Id(access) => (
                Stage::Impact { access },
                Action::Run(Statement::InternImpact { impact: impact_of(cve) }),
            ),
            _ => (Stage::Failed, Action::Abort(Error::StoreFailure)),
        },
        Stage::Impact { access } => match reply {
            Reply::Id(impact) => (
                Stage::Record,
                Action::Run(
                    Statement::UpsertRecord { row: record_row(cve, times, access, impact) },
                ),
            ),
            _ => (Stage::Failed, Action::Abort(Error::StoreFailure)),
        },
        Stage::Record => match reply {
            Reply::Id(record) => clear(Collection::References, record),
            _ => (Stage::Failed, Action::Abort(Error::StoreFailure)),
        },
        Stage::Clear { collection, record } => match reply {
            Reply::Done => go_on(cve, collection, record, 0),
            _ => (Stage::Failed, Action::Abort(Error::StoreFailure)),
        },
        Stage::Member { collection, record, index } => match reply {
            Reply::Id(member) => (
                Stage::Link { collection, record, index },
                Action::Run(Statement::Link { collection, record, member }),
            ),
            _ => (Stage::Failed, Action::Abort(Error::StoreFailure)),
        },
        Stage::Link { collection, record, index } => match reply {
            Reply::Done => {
                if index < members_of(cve, collection).len() {
                    go_on(cve, collection, record, index + 1)
                } else {
                    leave(cve, collection, record)
                }
            },
            _ => (Stage::Failed, Action::Abort(Error::StoreFailure)),
        },
        Stage::Done => (Stage::Done, Action::Finish),
        Stage::Failed => (Stage::Failed, Action::Abort(Error::StoreFailure)),
    }
}

} // verus!
