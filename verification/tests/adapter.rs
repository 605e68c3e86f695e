use parse_cve::circl::{
    reference_urls, resolve_score, vulnerable_configurations, weakness, Access, Cve, Impact,
};
use parse_cve::error::Error;
use parse_cve::nvd::{
    BaseMetricV2, BaseMetricV3, Children, CpeMatch, CpeMatch2, CveItem, CvssV2, CvssV3,
    Description, DescriptionDaum, Node, Problemtype, ProblemtypeDaum, ReferenceDaum, Score,
};

fn some(text: &str) -> Option<String> {
    Some(text.to_string())
}

fn reference(url: &str) -> ReferenceDaum {
    ReferenceDaum {
        url: url.to_string(),
        name: "n".to_string(),
        refsource: "MISC".to_string(),
        tags: vec![],
    }
}

fn cpe(vulnerable: bool, uri: &str) -> CpeMatch2 {
    CpeMatch2 { vulnerable, cpe23_uri: uri.to_string(), ..CpeMatch2::default() }
}

fn v3() -> BaseMetricV3 {
    BaseMetricV3 {
        cvss_v3: CvssV3 {
            attack_vector: "NETWORK".to_string(),
            attack_complexity: "LOW".to_string(),
            privileges_required: "NONE".to_string(),
            confidentiality_impact: "HIGH".to_string(),
            integrity_impact: "LOW".to_string(),
            availability_impact: "NONE".to_string(),
            base_score: Score { bits: 9.8f64.to_bits() },
            ..CvssV3::default()
        },
        ..BaseMetricV3::default()
    }
}

fn v2() -> BaseMetricV2 {
    BaseMetricV2 {
        cvss_v2: CvssV2 {
            access_vector: "LOCAL".to_string(),
            access_complexity: "MEDIUM".to_string(),
            authentication: "SINGLE".to_string(),
            confidentiality_impact: "PARTIAL".to_string(),
            integrity_impact: "COMPLETE".to_string(),
            availability_impact: "PARTIAL".to_string(),
            base_score: Score { bits: 4.3f64.to_bits() },
            ..CvssV2::default()
        },
        ..BaseMetricV2::default()
    }
}

fn item_with_dates(published: &str, modified: &str) -> CveItem {
    let mut item = CveItem::default();
    item.published_date = published.to_string();
    item.last_modified_date = modified.to_string();
    item.cve.cve_data_meta.id = "CVE-2020-0001".to_string();
    item.cve.cve_data_meta.assigner = "cve@mitre.org".to_string();
    item.cve.description.description_data.push(DescriptionDaum {
        lang: "en".to_string(),
        value: "A flaw.".to_string(),
    });
    item
}

fn item() -> CveItem {
    item_with_dates("2020-01-02T03:04Z", "2021-11-30T23:59Z")
}

#[test]
fn timestamps_are_recast_to_seconds_precision() {
    let cve = Cve::from(item()).unwrap();
    assert_eq!(cve.published, "2020-01-02T03:04:00");
    assert_eq!(cve.modified, "2021-11-30T23:59:00");
    assert_eq!(cve.last_modified, "2021-11-30T23:59:00");
}

#[test]
fn malformed_published_date_is_rejected() {
    let r = Cve::from(item_with_dates("2020-01-02 03:04", "2021-11-30T23:59Z"));
    assert_eq!(r, Err(Error::MalformedTimestamp));
}

#[test]
fn malformed_modified_date_is_rejected() {
    let r = Cve::from(item_with_dates("2020-01-02T03:04Z", "yesterday"));
    assert_eq!(r, Err(Error::MalformedTimestamp));
}

#[test]
fn date_with_seconds_is_not_in_the_upstream_form() {
    let r = Cve::from(item_with_dates("2020-01-02T03:04:05Z", "2021-11-30T23:59Z"));
    assert_eq!(r, Err(Error::MalformedTimestamp));
}

#[test]
fn date_that_does_not_exist_is_rejected() {
    let r = Cve::from(item_with_dates("2021-02-30T03:04Z", "2021-11-30T23:59Z"));
    assert_eq!(r, Err(Error::MalformedTimestamp));
}

#[test]
fn scalar_fields_are_carried_over() {
    let cve = Cve::from(item()).unwrap();
    assert_eq!(cve.id, "CVE-2020-0001");
    assert_eq!(cve.assigner, "cve@mitre.org");
    assert_eq!(cve.summary, "A flaw.");
}

#[test]
fn summary_is_the_first_description() {
    let mut item = item();
    item.cve.description.description_data.push(DescriptionDaum {
        lang: "fr".to_string(),
        value: "Un défaut.".to_string(),
    });
    assert_eq!(Cve::from(item).unwrap().summary, "A flaw.");
}

#[test]
fn fields_of_the_delta_path_stay_empty() {
    let mut item = item();
    item.impact.base_metric_v3 = Some(v3());
    let cve = Cve::from(item).unwrap();
    assert!(cve.capec.is_empty());
    assert_eq!(cve.cvss_time, None);
    assert_eq!(cve.cvss_vector, None);
    assert!(cve.vulnerable_configuration_cpe22.is_empty());
    assert!(cve.vulnerable_product.is_empty());
}

#[test]
fn v2_block_alone_fills_access_and_impact() {
    let mut item = item();
    item.impact.base_metric_v2 = Some(v2());
    let cve = Cve::from(item).unwrap();
    assert_eq!(
        cve.access,
        Access { authentication: some("SINGLE"), complexity: some("MEDIUM"), vector: some("LOCAL") }
    );
    assert_eq!(
        cve.impact,
        Impact {
            availability: some("PARTIAL"),
            confidentiality: some("PARTIAL"),
            integrity: some("COMPLETE"),
        }
    );
}

#[test]
fn v2_score_is_not_a_fallback() {
    let mut item = item();
    item.impact.base_metric_v2 = Some(v2());
    assert_eq!(resolve_score(&item.impact), None);
    assert_eq!(Cve::from(item).unwrap().cvss, None);
}

#[test]
fn v3_block_wins_over_v2_block() {
    let mut item = item();
    item.impact.base_metric_v3 = Some(v3());
    item.impact.base_metric_v2 = Some(v2());
    let cve = Cve::from(item).unwrap();
    assert_eq!(
        cve.access,
        Access { authentication: some("NONE"), complexity: some("LOW"), vector: some("NETWORK") }
    );
    assert_eq!(
        cve.impact,
        Impact { availability: some("NONE"), confidentiality: some("HIGH"), integrity: some("LOW") }
    );
    assert_eq!(cve.cvss.map(|s| f64::from_bits(s.bits)), Some(9.8));
}

#[test]
fn v3_block_alone_fills_access_and_impact() {
    let mut item = item();
    item.impact.base_metric_v3 = Some(v3());
    let access = Access::resolve(&item.impact);
    let impact = Impact::resolve(&item.impact);
    assert_eq!(access.authentication, some("NONE"));
    assert_eq!(access.complexity, some("LOW"));
    assert_eq!(access.vector, some("NETWORK"));
    assert_eq!(impact.confidentiality, some("HIGH"));
    assert_eq!(impact.integrity, some("LOW"));
    assert_eq!(impact.availability, some("NONE"));
}

#[test]
fn no_metric_block_leaves_access_and_impact_unset() {
    let cve = Cve::from(item()).unwrap();
    assert_eq!(cve.access, Access::default());
    assert_eq!(cve.impact, Impact::default());
    assert_eq!(cve.cvss, None);
}

#[test]
fn repeated_reference_is_kept_once() {
    let mut item = item();
    item.cve.references.reference_data =
        vec![reference("http://a"), reference("http://b"), reference("http://a")];
    let cve = Cve::from(item).unwrap();
    assert_eq!(cve.references, vec!["http://a".to_string(), "http://b".to_string()]);
}

#[test]
fn references_compare_by_exact_text() {
    let found = reference_urls(&vec![
        reference("http://a"),
        reference("http://A"),
        reference("http://a/"),
        reference("http://a"),
    ]);
    assert_eq!(found, vec!["http://a".to_string(), "http://A".to_string(), "http://a/".to_string()]);
}

#[test]
fn no_references_give_an_empty_set() {
    assert!(reference_urls(&vec![]).is_empty());
}

#[test]
fn only_vulnerable_matches_are_collected() {
    let mut item = item();
    item.configurations.nodes = vec![Node {
        operator: "OR".to_string(),
        children: None,
        cpe_match: vec![cpe(true, "cpe:2.3:a:x:y:1"), cpe(false, "cpe:2.3:a:x:y:2")],
    }];
    let cve = Cve::from(item).unwrap();
    assert_eq!(cve.vulnerable_configuration, vec!["cpe:2.3:a:x:y:1".to_string()]);
}

#[test]
fn nested_nodes_do_not_contribute() {
    let nodes = vec![Node {
        operator: "AND".to_string(),
        children: Some(vec![Children {
            operator: "OR".to_string(),
            cpe_match: vec![CpeMatch {
                vulnerable: true,
                cpe23_uri: "cpe:2.3:a:nested:z:1".to_string(),
                ..CpeMatch::default()
            }],
        }]),
        cpe_match: vec![cpe(true, "cpe:2.3:a:top:z:1")],
    }];
    assert_eq!(vulnerable_configurations(&nodes), vec!["cpe:2.3:a:top:z:1".to_string()]);
}

#[test]
fn configurations_are_deduplicated_across_nodes() {
    let nodes = vec![
        Node {
            operator: "OR".to_string(),
            children: None,
            cpe_match: vec![cpe(true, "u1"), cpe(true, "u2"), cpe(false, "u3")],
        },
        Node { operator: "OR".to_string(), children: None, cpe_match: vec![] },
        Node {
            operator: "OR".to_string(),
            children: None,
            cpe_match: vec![cpe(true, "u2"), cpe(true, "u3"), cpe(true, "u1"), cpe(true, "u4")],
        },
    ];
    assert_eq!(
        vulnerable_configurations(&nodes),
        vec!["u1".to_string(), "u2".to_string(), "u3".to_string(), "u4".to_string()]
    );
}

#[test]
fn empty_problemtype_data_gives_empty_cwe() {
    let mut item = item();
    item.cve.problemtype.problemtype_data = vec![];
    assert_eq!(Cve::from(item).unwrap().cwe, "");
}

#[test]
fn problem_type_without_description_gives_empty_cwe() {
    let problemtype = Problemtype {
        problemtype_data: vec![
            ProblemtypeDaum { description: vec![] },
            ProblemtypeDaum {
                description: vec![Description {
                    lang: "en".to_string(),
                    value: "CWE-20".to_string(),
                }],
            },
        ],
    };
    assert_eq!(weakness(&problemtype), "");
}

#[test]
fn cwe_is_the_first_description_of_the_first_problem_type() {
    let mut item = item();
    item.cve.problemtype.problemtype_data = vec![
        ProblemtypeDaum {
            description: vec![
                Description { lang: "en".to_string(), value: "CWE-79".to_string() },
                Description { lang: "en".to_string(), value: "CWE-80".to_string() },
            ],
        },
        ProblemtypeDaum {
            description: vec![Description { lang: "en".to_string(), value: "CWE-20".to_string() }],
        },
    ];
    assert_eq!(Cve::from(item).unwrap().cwe, "CWE-79");
}

#[test]
fn assemble_takes_the_dates_as_given() {
    let cve = Cve::assemble(item(), "M".to_string(), "P".to_string());
    assert_eq!(cve.modified, "M");
    assert_eq!(cve.last_modified, "M");
    assert_eq!(cve.published, "P");
    assert_eq!(cve.id, "CVE-2020-0001");
}
