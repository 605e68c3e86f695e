use parse_cve::circl::{Access, Cve, Impact};
use parse_cve::error::Error;
use parse_cve::nvd::{CveItem, DescriptionDaum, ReferenceDaum, Score};
use parse_cve::normalize::{store_cve, store_cve_atomically};
use parse_cve::records::RecordRow;
use parse_cve::statement::{Collection, Reply, Statement};
use parse_cve::store::Store;
use parse_cve::table::Triple;
use parse_cve::timestamp::Timestamp;

fn texts(values: &[&str]) -> Vec<String> {
    values.iter().map(|v| v.to_string()).collect()
}

fn triple(first: &str, second: &str, third: &str) -> Triple {
    Triple { first: first.to_string(), second: second.to_string(), third: third.to_string() }
}

fn record(id: &str, references: &[&str]) -> Cve {
    Cve {
        modified: "2021-11-30T23:59:00".to_string(),
        published: "2020-01-02T03:04:00".to_string(),
        last_modified: "2021-11-30T23:59:00".to_string(),
        id: id.to_string(),
        assigner: "cve@mitre.org".to_string(),
        cwe: "CWE-79".to_string(),
        summary: "A flaw.".to_string(),
        cvss: Some(Score { bits: 7.5f64.to_bits() }),
        access: Access {
            authentication: Some("NONE".to_string()),
            complexity: Some("LOW".to_string()),
            vector: None,
        },
        impact: Impact {
            availability: Some("PARTIAL".to_string()),
            confidentiality: None,
            integrity: Some("NONE".to_string()),
        },
        references: texts(references),
        ..Cve::default()
    }
}

fn row(id: &str, access_id: i64, impact_id: i64) -> RecordRow {
    RecordRow {
        cve_id: id.to_string(),
        access_id,
        impact_id,
        summary: "s".to_string(),
        ..RecordRow::default()
    }
}

fn stored_references(store: &Store, id: &str) -> Vec<String> {
    let record = store.record_id(&id.to_string()).unwrap();
    store.tables(Collection::References).set_of(record)
}

#[test]
fn new_store_is_empty() {
    let store = Store::new();
    assert_eq!(store.record_id(&"CVE-1".to_string()), None);
    assert_eq!(store.access_id(&triple("", "", "")), None);
    assert_eq!(store.impact_id(&triple("", "", "")), None);
    assert_eq!(store.tables(Collection::Products).member_id(&"p".to_string()), None);
    assert!(store.record(1).is_none());
}

#[test]
fn ingested_record_is_stored() {
    let mut store = Store::new();
    assert_eq!(store_cve(&mut store, &record("CVE-1", &["x", "y"])), Ok(()));
    let id = store.record_id(&"CVE-1".to_string()).unwrap();
    assert_eq!(id, 1);
    let row = store.record(id).unwrap();
    assert_eq!(row.cve_id, "CVE-1");
    assert_eq!(row.assigner, "cve@mitre.org");
    assert_eq!(row.cwe, "CWE-79");
    assert_eq!(row.summary, "A flaw.");
    assert_eq!(row.cvss, Some(Score { bits: 7.5f64.to_bits() }));
    assert_eq!(row.cvss_time, None);
    assert_eq!(row.cvss_vector, None);
    assert_eq!(store.access(row.access_id), Some(&triple("NONE", "LOW", "")));
    assert_eq!(store.impact(row.impact_id), Some(&triple("", "NONE", "PARTIAL")));
    assert_eq!(stored_references(&store, "CVE-1"), texts(&["x", "y"]));
}

#[test]
fn timestamps_pass_through_storage_unchanged() {
    let mut item = CveItem::default();
    item.published_date = "2020-01-02T03:04Z".to_string();
    item.last_modified_date = "2020-01-02T03:04Z".to_string();
    item.cve.cve_data_meta.id = "CVE-6".to_string();
    item.cve.description.description_data.push(DescriptionDaum {
        lang: "en".to_string(),
        value: "A flaw.".to_string(),
    });
    let cve = Cve::from(item).unwrap();
    assert_eq!(cve.published, "2020-01-02T03:04:00");
    let mut store = Store::new();
    assert_eq!(store_cve(&mut store, &cve), Ok(()));
    let row = store.record(store.record_id(&"CVE-6".to_string()).unwrap()).unwrap();
    assert_eq!(row.published, Timestamp { seconds: 1577934240, nanos: 0 });
    assert_eq!(row.modified, Timestamp { seconds: 1577934240, nanos: 0 });
    assert_eq!(row.last_modified, Timestamp { seconds: 1577934240, nanos: 0 });
    assert_eq!(row.published.to_canonical(), Some("2020-01-02T03:04:00".to_string()));
}

#[test]
fn cvss_time_is_stored_as_a_point_in_time() {
    let mut cve = record("CVE-1", &[]);
    cve.cvss_time = Some("2019-06-07T08:09:10".to_string());
    cve.cvss_vector = Some("AV:N/AC:L/Au:N/C:P/I:N/A:N".to_string());
    let mut store = Store::new();
    assert_eq!(store_cve(&mut store, &cve), Ok(()));
    let row = store.record(1).unwrap();
    assert_eq!(row.cvss_time, Some(Timestamp { seconds: 1559894950, nanos: 0 }));
    assert_eq!(row.cvss_vector, Some("AV:N/AC:L/Au:N/C:P/I:N/A:N".to_string()));
}

#[test]
fn ingesting_twice_is_ingesting_once() {
    let cve = record("CVE-1", &["x", "y"]);
    let mut once = Store::new();
    assert_eq!(store_cve(&mut once, &cve), Ok(()));
    let mut twice = once.clone();
    assert_eq!(store_cve(&mut twice, &cve), Ok(()));
    assert_eq!(twice, once);
}

#[test]
fn ingesting_twice_among_other_records_keeps_every_set() {
    let mut store = Store::new();
    let mut first = record("CVE-1", &["x", "y"]);
    first.vulnerable_product = texts(&["prod-a", "prod-b"]);
    first.vulnerable_configuration = texts(&["c1"]);
    first.vulnerable_configuration_cpe22 = texts(&["{\"a\":1}"]);
    let second = record("CVE-2", &["y", "z"]);
    assert_eq!(store_cve(&mut store, &first), Ok(()));
    assert_eq!(store_cve(&mut store, &second), Ok(()));
    assert_eq!(store_cve(&mut store, &first), Ok(()));
    assert_eq!(store.record_id(&"CVE-1".to_string()), Some(1));
    assert_eq!(store.record_id(&"CVE-2".to_string()), Some(2));
    assert!(store.record(3).is_none());
    assert_eq!(stored_references(&store, "CVE-1"), texts(&["x", "y"]));
    assert_eq!(stored_references(&store, "CVE-2"), texts(&["y", "z"]));
    assert_eq!(store.tables(Collection::Products).set_of(1), texts(&["prod-a", "prod-b"]));
    assert_eq!(store.tables(Collection::Products).set_of(2), texts(&[]));
    assert_eq!(store.tables(Collection::Configurations).set_of(1), texts(&["c1"]));
    assert_eq!(store.tables(Collection::ConfigurationsCpe22).set_of(1), texts(&["{\"a\":1}"]));
}

#[test]
fn reingestion_replaces_the_reference_set() {
    let mut store = Store::new();
    assert_eq!(store_cve(&mut store, &record("CVE-1", &["x", "y"])), Ok(()));
    assert_eq!(store_cve(&mut store, &record("CVE-1", &["y", "z"])), Ok(()));
    assert_eq!(stored_references(&store, "CVE-1"), texts(&["y", "z"]));
    let references = store.tables(Collection::References);
    let x = references.member_id(&"x".to_string()).unwrap();
    assert_eq!(x, 1);
    assert!(!references.is_linked(1, x));
    assert_eq!(references.member_id(&"y".to_string()), Some(2));
    assert_eq!(references.member_id(&"z".to_string()), Some(3));
    assert!(references.is_linked(1, 2));
    assert!(references.is_linked(1, 3));
}

#[test]
fn reingestion_can_shrink_a_set_to_empty() {
    let mut store = Store::new();
    assert_eq!(store_cve(&mut store, &record("CVE-1", &["x", "y"])), Ok(()));
    assert_eq!(store_cve(&mut store, &record("CVE-1", &[])), Ok(()));
    assert_eq!(stored_references(&store, "CVE-1"), texts(&[]));
    assert_eq!(store.tables(Collection::References).member_id(&"y".to_string()), Some(2));
}

#[test]
fn reingestion_overwrites_the_row_and_keeps_its_id() {
    let mut store = Store::new();
    assert_eq!(store_cve(&mut store, &record("CVE-1", &[])), Ok(()));
    assert_eq!(store_cve(&mut store, &record("CVE-2", &[])), Ok(()));
    let mut changed = record("CVE-1", &[]);
    changed.summary = "Another flaw.".to_string();
    changed.access.vector = Some("NETWORK".to_string());
    assert_eq!(store_cve(&mut store, &changed), Ok(()));
    assert_eq!(store.record_id(&"CVE-1".to_string()), Some(1));
    let row = store.record(1).unwrap();
    assert_eq!(row.summary, "Another flaw.");
    assert_eq!(row.access_id, 2);
    assert_eq!(store.access(1), Some(&triple("NONE", "LOW", "")));
    assert_eq!(store.access(2), Some(&triple("NONE", "LOW", "NETWORK")));
    assert_eq!(store.record(2).unwrap().summary, "A flaw.");
}

#[test]
fn equal_access_and_impact_values_share_a_row() {
    let mut store = Store::new();
    assert_eq!(store_cve(&mut store, &record("CVE-1", &[])), Ok(()));
    assert_eq!(store_cve(&mut store, &record("CVE-2", &[])), Ok(()));
    assert_eq!(store.record(1).unwrap().access_id, 1);
    assert_eq!(store.record(2).unwrap().access_id, 1);
    assert_eq!(store.record(1).unwrap().impact_id, 1);
    assert_eq!(store.record(2).unwrap().impact_id, 1);
    assert!(store.access(2).is_none());
    assert!(store.impact(2).is_none());
}

#[test]
fn absent_access_fields_are_stored_as_empty_text() {
    let mut cve = record("CVE-1", &[]);
    cve.access = Access::default();
    cve.impact = Impact::default();
    let mut store = Store::new();
    assert_eq!(store_cve(&mut store, &cve), Ok(()));
    assert_eq!(store.access_id(&triple("", "", "")), Some(1));
    assert_eq!(store.impact_id(&triple("", "", "")), Some(1));
}

#[test]
fn repeated_member_is_a_store_failure() {
    let mut store = Store::new();
    let r = store_cve(&mut store, &record("CVE-1", &["x", "y", "x", "z"]));
    assert_eq!(r, Err(Error::StoreFailure));
    assert_eq!(stored_references(&store, "CVE-1"), texts(&["x", "y"]));
    assert_eq!(store.tables(Collection::References).member_id(&"z".to_string()), None);
}

#[test]
fn failed_ingestion_is_idempotent_too() {
    let cve = record("CVE-1", &["x", "y", "x", "z"]);
    let mut once = Store::new();
    assert_eq!(store_cve(&mut once, &cve), Err(Error::StoreFailure));
    let mut twice = once.clone();
    assert_eq!(store_cve(&mut twice, &cve), Err(Error::StoreFailure));
    assert_eq!(twice, once);
}

#[test]
fn malformed_date_leaves_the_store_alone() {
    let mut store = Store::new();
    assert_eq!(store_cve(&mut store, &record("CVE-1", &["x"])), Ok(()));
    let before = store.clone();
    let mut cve = record("CVE-2", &["y"]);
    cve.modified = "2021-11-30T23:59Z".to_string();
    assert_eq!(store_cve(&mut store, &cve), Err(Error::MalformedTimestamp));
    assert_eq!(store, before);
    let mut cve = record("CVE-2", &["y"]);
    cve.cvss_time = Some("soon".to_string());
    assert_eq!(store_cve(&mut store, &cve), Err(Error::MalformedTimestamp));
    assert_eq!(store, before);
}

#[test]
fn adapted_record_is_ingested_in_full() {
    let mut item = CveItem::default();
    item.published_date = "2020-01-02T03:04Z".to_string();
    item.last_modified_date = "2020-02-03T04:05Z".to_string();
    item.cve.cve_data_meta.id = "CVE-7".to_string();
    item.cve.description.description_data.push(DescriptionDaum {
        lang: "en".to_string(),
        value: "A flaw.".to_string(),
    });
    for url in ["http://a", "http://b", "http://a"] {
        item.cve.references.reference_data.push(ReferenceDaum {
            url: url.to_string(),
            ..ReferenceDaum::default()
        });
    }
    let mut store = Store::new();
    assert_eq!(store_cve(&mut store, &Cve::from(item).unwrap()), Ok(()));
    assert_eq!(stored_references(&store, "CVE-7"), texts(&["http://a", "http://b"]));
}

#[test]
fn interning_returns_the_same_id_for_the_same_value() {
    let mut store = Store::new();
    let intern = |value: &str| Statement::InternMember {
        collection: Collection::Products,
        value: value.to_string(),
    };
    assert_eq!(store.execute(intern("p")), Reply::Id(1));
    assert_eq!(store.execute(intern("q")), Reply::Id(2));
    assert_eq!(store.execute(intern("p")), Reply::Id(1));
    assert_eq!(store.tables(Collection::Products).member_id(&"q".to_string()), Some(2));
    assert_eq!(store.tables(Collection::References).member_id(&"q".to_string()), None);
}

#[test]
fn access_and_impact_tables_are_apart() {
    let mut store = Store::new();
    assert_eq!(store.execute(Statement::InternAccess { access: triple("a", "b", "c") }), Reply::Id(1));
    assert_eq!(store.execute(Statement::InternImpact { impact: triple("x", "y", "z") }), Reply::Id(1));
    assert_eq!(store.execute(Statement::InternAccess { access: triple("a", "b", "d") }), Reply::Id(2));
    assert_eq!(store.execute(Statement::InternAccess { access: triple("a", "b", "c") }), Reply::Id(1));
    assert_eq!(store.access_id(&triple("x", "y", "z")), None);
    assert_eq!(store.impact_id(&triple("x", "y", "z")), Some(1));
}

#[test]
fn row_must_refer_to_existing_access_and_impact() {
    let mut store = Store::new();
    assert_eq!(store.execute(Statement::UpsertRecord { row: row("CVE-1", 1, 1) }), Reply::Failed);
    assert_eq!(store.execute(Statement::InternAccess { access: triple("a", "b", "c") }), Reply::Id(1));
    assert_eq!(store.execute(Statement::UpsertRecord { row: row("CVE-1", 1, 1) }), Reply::Failed);
    assert_eq!(store.execute(Statement::InternImpact { impact: triple("x", "y", "z") }), Reply::Id(1));
    assert_eq!(store.execute(Statement::UpsertRecord { row: row("CVE-1", 0, 1) }), Reply::Failed);
    assert_eq!(store.execute(Statement::UpsertRecord { row: row("CVE-1", 1, 2) }), Reply::Failed);
    assert_eq!(store.record_id(&"CVE-1".to_string()), None);
    assert_eq!(store.execute(Statement::UpsertRecord { row: row("CVE-1", 1, 1) }), Reply::Id(1));
    assert_eq!(store.execute(Statement::UpsertRecord { row: row("CVE-2", 1, 1) }), Reply::Id(2));
    assert_eq!(store.execute(Statement::UpsertRecord { row: row("CVE-1", 1, 1) }), Reply::Id(1));
}

#[test]
fn junction_row_needs_record_and_member_and_is_unique() {
    let mut store = Store::new();
    let c = Collection::Configurations;
    let link = |record: i64, member: i64| Statement::Link { collection: c, record, member };
    store.execute(Statement::InternAccess { access: triple("a", "b", "c") });
    store.execute(Statement::InternImpact { impact: triple("x", "y", "z") });
    assert_eq!(store.execute(link(1, 1)), Reply::Failed);
    assert_eq!(store.execute(Statement::UpsertRecord { row: row("CVE-1", 1, 1) }), Reply::Id(1));
    assert_eq!(store.execute(link(1, 1)), Reply::Failed);
    assert_eq!(
        store.execute(Statement::InternMember { collection: c, value: "u".to_string() }),
        Reply::Id(1)
    );
    assert_eq!(store.execute(link(2, 1)), Reply::Failed);
    assert_eq!(store.execute(link(1, 2)), Reply::Failed);
    assert_eq!(store.execute(link(1, 1)), Reply::Done);
    assert_eq!(store.execute(link(1, 1)), Reply::Failed);
    assert!(store.tables(c).is_linked(1, 1));
    assert!(!store.tables(Collection::References).is_linked(1, 1));
}

#[test]
fn clearing_removes_the_rows_of_one_record_only() {
    let mut store = Store::new();
    assert_eq!(store_cve(&mut store, &record("CVE-1", &["x", "y"])), Ok(()));
    assert_eq!(store_cve(&mut store, &record("CVE-2", &["y"])), Ok(()));
    let clear = Statement::ClearLinks { collection: Collection::References, record: 1 };
    assert_eq!(store.execute(clear.clone()), Reply::Done);
    assert_eq!(stored_references(&store, "CVE-1"), texts(&[]));
    assert_eq!(stored_references(&store, "CVE-2"), texts(&["y"]));
    assert_eq!(store.execute(clear), Reply::Done);
    assert_eq!(stored_references(&store, "CVE-2"), texts(&["y"]));
}

#[test]
fn transaction_that_fails_leaves_the_store_as_it_was() {
    let mut store = Store::new();
    assert_eq!(store_cve_atomically(&mut store, &record("CVE-1", &["x"])), Ok(()));
    let before = store.clone();
    let r = store_cve_atomically(&mut store, &record("CVE-2", &["y", "z", "y"]));
    assert_eq!(r, Err(Error::StoreFailure));
    assert_eq!(store, before);
    assert_eq!(store.record_id(&"CVE-2".to_string()), None);
    assert_eq!(store.tables(Collection::References).member_id(&"y".to_string()), None);
}

#[test]
fn transaction_that_succeeds_leaves_what_plain_ingestion_leaves() {
    let cve = record("CVE-1", &["x", "y"]);
    let mut plain = Store::new();
    let mut atomic = Store::new();
    assert_eq!(store_cve(&mut plain, &cve), Ok(()));
    assert_eq!(store_cve_atomically(&mut atomic, &cve), Ok(()));
    assert_eq!(atomic, plain);
    assert_eq!(store_cve_atomically(&mut atomic, &cve), Ok(()));
    assert_eq!(atomic, plain);
}

#[test]
fn transaction_with_a_malformed_date_changes_nothing() {
    let mut store = Store::new();
    let mut cve = record("CVE-1", &["x"]);
    cve.published = "2020-01-02".to_string();
    assert_eq!(store_cve_atomically(&mut store, &cve), Err(Error::MalformedTimestamp));
    assert_eq!(store, Store::new());
}

#[test]
fn snapshot_is_a_copy() {
    let mut store = Store::new();
    assert_eq!(store_cve(&mut store, &record("CVE-1", &["x", "y"])), Ok(()));
    let copy = store.snapshot();
    assert_eq!(copy, store);
    assert_eq!(store_cve(&mut store, &record("CVE-2", &["z"])), Ok(()));
    assert_eq!(copy.record_id(&"CVE-2".to_string()), None);
    assert_eq!(copy.tables(Collection::References).member_id(&"z".to_string()), None);
}
