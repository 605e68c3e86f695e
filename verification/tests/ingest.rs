use parse_cve::circl::{Access, Cve, Impact};
use parse_cve::error::Error;
use parse_cve::ingest::{
    access_of, advance, impact_of, members_of, read_times, record_row, Action, RecordTimes, Stage,
};
use parse_cve::statement::{Collection, Reply, Statement};
use parse_cve::table::Triple;
use parse_cve::timestamp::Timestamp;

fn record() -> Cve {
    Cve {
        modified: "2021-11-30T23:59:00".to_string(),
        published: "2020-01-02T03:04:00".to_string(),
        last_modified: "2021-12-01T00:00:01".to_string(),
        id: "CVE-1".to_string(),
        summary: "A flaw.".to_string(),
        access: Access { authentication: Some("NONE".to_string()), complexity: None, vector: None },
        impact: Impact { availability: None, confidentiality: Some("HIGH".to_string()), integrity: None },
        references: vec!["x".to_string(), "y".to_string()],
        vulnerable_product: vec!["p".to_string()],
        ..Cve::default()
    }
}

fn times() -> RecordTimes {
    RecordTimes {
        modified: Timestamp { seconds: 1638316740, nanos: 0 },
        published: Timestamp { seconds: 1577934240, nanos: 0 },
        cvss_time: None,
        last_modified: Timestamp { seconds: 1638316801, nanos: 0 },
    }
}

fn run(statement: Statement) -> Action {
    Action::Run(statement)
}

#[test]
fn dates_of_a_record_are_read() {
    assert_eq!(read_times(&record()), Ok(times()));
}

#[test]
fn record_with_a_malformed_date_has_no_times() {
    let mut cve = record();
    cve.published = "2020-01-02".to_string();
    assert_eq!(read_times(&cve), Err(Error::MalformedTimestamp));
    let mut cve = record();
    cve.last_modified = "".to_string();
    assert_eq!(read_times(&cve), Err(Error::MalformedTimestamp));
}

#[test]
fn access_value_has_empty_text_for_absent_fields() {
    assert_eq!(
        access_of(&record()),
        Triple { first: "NONE".to_string(), second: "".to_string(), third: "".to_string() }
    );
}

#[test]
fn impact_value_is_confidentiality_integrity_availability() {
    let mut cve = record();
    cve.impact = Impact {
        availability: Some("A".to_string()),
        confidentiality: Some("C".to_string()),
        integrity: Some("I".to_string()),
    };
    assert_eq!(
        impact_of(&cve),
        Triple { first: "C".to_string(), second: "I".to_string(), third: "A".to_string() }
    );
}

#[test]
fn row_carries_the_fields_and_the_ids() {
    let row = record_row(&record(), &times(), 4, 9);
    assert_eq!(row.cve_id, "CVE-1");
    assert_eq!(row.access_id, 4);
    assert_eq!(row.impact_id, 9);
    assert_eq!(row.summary, "A flaw.");
    assert_eq!(row.modified, times().modified);
    assert_eq!(row.published, times().published);
    assert_eq!(row.last_modified, times().last_modified);
}

#[test]
fn each_collection_has_its_members() {
    let cve = record();
    assert_eq!(members_of(&cve, Collection::References), &cve.references);
    assert_eq!(members_of(&cve, Collection::Products), &cve.vulnerable_product);
    assert!(members_of(&cve, Collection::Configurations).is_empty());
    assert!(members_of(&cve, Collection::ConfigurationsCpe22).is_empty());
}

#[test]
fn statements_come_in_the_order_of_the_algorithm() {
    let cve = record();
    let t = times();
    let (stage, action) = advance(&cve, &t, Stage::Start, Reply::Done);
    assert_eq!(stage, Stage::Access);
    assert_eq!(action, run(Statement::InternAccess { access: access_of(&cve) }));

    let (stage, action) = advance(&cve, &t, stage, Reply::Id(7));
    assert_eq!(stage, Stage::Impact { access: 7 });
    assert_eq!(action, run(Statement::InternImpact { impact: impact_of(&cve) }));

    let (stage, action) = advance(&cve, &t, stage, Reply::Id(8));
    assert_eq!(stage, Stage::Record);
    assert_eq!(action, run(Statement::UpsertRecord { row: record_row(&cve, &t, 7, 8) }));

    let (stage, action) = advance(&cve, &t, stage, Reply::Id(3));
    let c = Collection::References;
    assert_eq!(stage, Stage::Clear { collection: c, record: 3 });
    assert_eq!(action, run(Statement::ClearLinks { collection: c, record: 3 }));

    let (stage, action) = advance(&cve, &t, stage, Reply::Done);
    assert_eq!(stage, Stage::Member { collection: c, record: 3, index: 0 });
    assert_eq!(action, run(Statement::InternMember { collection: c, value: "x".to_string() }));

    let (stage, action) = advance(&cve, &t, stage, Reply::Id(11));
    assert_eq!(stage, Stage::Link { collection: c, record: 3, index: 0 });
    assert_eq!(action, run(Statement::Link { collection: c, record: 3, member: 11 }));

    let (stage, action) = advance(&cve, &t, stage, Reply::Done);
    assert_eq!(stage, Stage::Member { collection: c, record: 3, index: 1 });
    assert_eq!(action, run(Statement::InternMember { collection: c, value: "y".to_string() }));

    let (stage, action) = advance(&cve, &t, stage, Reply::Id(12));
    assert_eq!(action, run(Statement::Link { collection: c, record: 3, member: 12 }));

    let (stage, action) = advance(&cve, &t, stage, Reply::Done);
    let c = Collection::Configurations;
    assert_eq!(stage, Stage::Clear { collection: c, record: 3 });
    assert_eq!(action, run(Statement::ClearLinks { collection: c, record: 3 }));

    let (stage, action) = advance(&cve, &t, stage, Reply::Done);
    let c = Collection::ConfigurationsCpe22;
    assert_eq!(stage, Stage::Clear { collection: c, record: 3 });
    assert_eq!(action, run(Statement::ClearLinks { collection: c, record: 3 }));

    let (stage, action) = advance(&cve, &t, stage, Reply::Done);
    let c = Collection::Products;
    assert_eq!(stage, Stage::Clear { collection: c, record: 3 });
    assert_eq!(action, run(Statement::ClearLinks { collection: c, record: 3 }));

    let (stage, action) = advance(&cve, &t, stage, Reply::Done);
    assert_eq!(stage, Stage::Member { collection: c, record: 3, index: 0 });
    assert_eq!(action, run(Statement::InternMember { collection: c, value: "p".to_string() }));

    let (stage, action) = advance(&cve, &t, stage, Reply::Id(1));
    assert_eq!(action, run(Statement::Link { collection: c, record: 3, member: 1 }));

    let (stage, action) = advance(&cve, &t, stage, Reply::Done);
    assert_eq!(stage, Stage::Done);
    assert_eq!(action, Action::Finish);

    let (stage, action) = advance(&cve, &t, stage, Reply::Done);
    assert_eq!(stage, Stage::Done);
    assert_eq!(action, Action::Finish);
}

#[test]
fn record_without_members_is_done_after_four_deletions() {
    let cve = Cve { references: vec![], vulnerable_product: vec![], ..record() };
    let t = times();
    let (mut stage, mut action) = advance(&cve, &t, Stage::Record, Reply::Id(5));
    let mut cleared = vec![];
    while let Action::Run(Statement::ClearLinks { collection, record }) = action {
        assert_eq!(record, 5);
        cleared.push(collection);
        (stage, action) = advance(&cve, &t, stage, Reply::Done);
    }
    assert_eq!(
        cleared,
        vec![
            Collection::References,
            Collection::Configurations,
            Collection::ConfigurationsCpe22,
            Collection::Products
        ]
    );
    assert_eq!(stage, Stage::Done);
    assert_eq!(action, Action::Finish);
}

#[test]
fn failure_of_any_statement_ends_the_ingestion() {
    let cve = record();
    let t = times();
    let c = Collection::References;
    let stages = [
        Stage::Access,
        Stage::Impact { access: 1 },
        Stage::Record,
        Stage::Clear { collection: c, record: 1 },
        Stage::Member { collection: c, record: 1, index: 0 },
        Stage::Link { collection: c, record: 1, index: 0 },
    ];
    for stage in stages {
        let (next, action) = advance(&cve, &t, stage, Reply::Failed);
        assert_eq!(next, Stage::Failed);
        assert_eq!(action, Action::Abort(Error::StoreFailure));
    }
    let (next, action) = advance(&cve, &t, Stage::Failed, Reply::Done);
    assert_eq!(next, Stage::Failed);
    assert_eq!(action, Action::Abort(Error::StoreFailure));
}

#[test]
fn answer_of_the_wrong_kind_ends_the_ingestion() {
    let cve = record();
    let t = times();
    let c = Collection::References;
    let (next, action) = advance(&cve, &t, Stage::Access, Reply::Done);
    assert_eq!((next, action), (Stage::Failed, Action::Abort(Error::StoreFailure)));
    let (next, action) = advance(&cve, &t, Stage::Clear { collection: c, record: 1 }, Reply::Id(1));
    assert_eq!((next, action), (Stage::Failed, Action::Abort(Error::StoreFailure)));
    let (next, action) =
        advance(&cve, &t, Stage::Link { collection: c, record: 1, index: 0 }, Reply::Id(1));
    assert_eq!((next, action), (Stage::Failed, Action::Abort(Error::StoreFailure)));
}

#[test]
fn stage_beyond_the_last_member_moves_on() {
    let cve = record();
    let t = times();
    let stage = Stage::Link { collection: Collection::Products, record: 2, index: usize::MAX };
    let (next, action) = advance(&cve, &t, stage, Reply::Done);
    assert_eq!(next, Stage::Done);
    assert_eq!(action, Action::Finish);
}
