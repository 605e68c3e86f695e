//! The statements that ingestion issues to the relational store, and what comes back.

use crate::records::{RecordRow, RecordView};
use crate::table::Triple;
use vstd::prelude::*;

verus! {

/// The four set-valued collections of an advisory. Each has an intern table of its member
/// values and a junction table that associates records with members.
#[derive(Debug, Clone, Copy, PartialEq, Eq, Structural)]
pub enum Collection {
    References,
    Configurations,
    ConfigurationsCpe22,
    Products,
}

/// One write to the relational store.
#[derive(Debug, Clone, PartialEq)]
pub enum Statement {
    /// Intern an access value (authentication, complexity, vector); yields its id.
    InternAccess { access: Triple },
    /// Intern an impact value (confidentiality, integrity, availability); yields its id.
    InternImpact { impact: Triple },
    /// Write an advisory row under its natural id; yields its surrogate id.
    UpsertRecord { row: RecordRow },
    /// Delete the junction rows that a record has in a collection.
    ClearLinks { collection: Collection, record: i64 },
    /// Intern a member value of a collection; yields its id.
    InternMember { collection: Collection, value: String },
    /// Insert the junction row of a record and a member.
    Link { collection: Collection, record: i64, member: i64 },
}

/// A [`Statement`] as a mathematical value.
pub enum StatementView {
    InternAccess { access: (Seq<char>, Seq<char>, Seq<char>) },
    InternImpact { impact: (Seq<char>, Seq<char>, Seq<char>) },
    UpsertRecord { row: RecordView },
    ClearLinks { collection: Collection, record: i64 },
    InternMember { collection: Collection, value: Seq<char> },
    Link { collection: Collection, record: i64, member: i64 },
}

impl DeepView for Statement {
    type V = StatementView;

    open spec fn deep_view(&self) -> StatementView {
        match self {
            Statement::InternAccess { access } => StatementView::InternAccess {
                access: access.deep_view(),
            },
            Statement::InternImpact { impact } => StatementView::InternImpact {
                impact: impact.deep_view(),
            },
            Statement::UpsertRecord { row } => StatementView::UpsertRecord {
                row: row.deep_view(),
            },
            Statement::ClearLinks { collection, record } => StatementView::ClearLinks {
                collection: *collection,
                record: *record,
            },
            Statement::InternMember { collection, value } => StatementView::InternMember {
                collection: *collection,
                value: value@,
            },
            Statement::Link { collection, record, member } => StatementView::Link {
                collection: *collection,
                record: *record,
                member: *member,
            },
        }
    }
}

/// What the store answers to a statement.
#[derive(Debug, Clone, Copy, PartialEq, Eq, Structural)]
pub enum Reply {
    /// The statement was carried out and yielded this id.
    Id(i64),
    /// The statement was carried out and yielded nothing.
    Done,
    /// The statement failed.
    Failed,
}

/// The answer that carries `id`, or the failure where there is no id.
pub open spec fn reply_of(id: Option<int>) -> Reply {
    match id {
        Some(id) => Reply::Id(id as i64),
        None => Reply::Failed,
    }
}

} // verus!
