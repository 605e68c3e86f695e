//! Ingestion of vulnerability advisories.
//!
//! Advisories arrive from two feeds: a small feed of latest changes, already in the
//! canonical shape of [`circl::Cve`], and a yearly archive in the nested shape of
//! [`nvd::CveItem`]. The archive shape is adapted to the canonical one, and each
//! canonical record is normalised into a relational store of interned value tables
//! and per-record junction rows.

pub mod circl;
pub mod error;
pub mod ingest;
pub mod laws;
pub mod links;
pub mod normalize;
pub mod nvd;
pub mod ordered_set;
pub mod records;
pub mod replacement;
pub mod statement;
pub mod store;
pub mod table;
pub mod timestamp;
