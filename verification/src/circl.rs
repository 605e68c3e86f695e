//! The canonical advisory record, and the adapter that builds it from an archive item.

use crate::error::Error;
use crate::nvd;
use crate::nvd::Score;
use crate::ordered_set::{distinct, distinct_is_a_set, distinct_of_push, insert};
use crate::timestamp::{canonical_from_upstream, recast};
use vstd::prelude::*;

verus! {

/// One advisory in the canonical flat shape. The feed of latest changes delivers this shape
/// as it is; archive items are adapted to it by [`Cve::from`].
#[derive(Default, Debug, Clone, PartialEq)]
pub struct Cve {
    pub modified: String,
    pub published: String,
    pub access: Access,
    pub assigner: String,
    pub capec: Vec<Capec>,
    pub cvss: Option<Score>,
    pub cvss_time: Option<String>,
    pub cvss_vector: Option<String>,
    pub cwe: String,
    pub id: String,
    pub impact: Impact,
    pub last_modified: String,
    pub references: Vec<String>,
    pub summary: String,
    pub vulnerable_configuration: Vec<String>,
    /// Each entry is the JSON text of one structured value, which is never looked into.
    pub vulnerable_configuration_cpe22: Vec<String>,
    pub vulnerable_product: Vec<String>,
}

/// How a vulnerability is reached.
#[derive(Default, Debug, Clone, PartialEq)]
pub struct Access {
    pub authentication: Option<String>,
    pub complexity: Option<String>,
    pub vector: Option<String>,
}

#[derive(Default, Debug, Clone, PartialEq)]
pub struct Capec {
    pub id: String,
    pub name: String,
    pub prerequisites: String,
    pub related_weakness: Vec<String>,
    pub solutions: String,
    pub summary: String,
}

/// What a vulnerability does to confidentiality, integrity and availability.
#[derive(Default, Debug, Clone, PartialEq)]
pub struct Impact {
    pub availability: Option<String>,
    pub confidentiality: Option<String>,
    pub integrity: Option<String>,
}

/// An [`Access`] as a mathematical value.
pub struct AccessView {
    pub authentication: Option<Seq<char>>,
    pub complexity: Option<Seq<char>>,
    pub vector: Option<Seq<char>>,
}

/// An [`Impact`] as a mathematical value.
pub struct ImpactView {
    pub availability: Option<Seq<char>>,
    pub confidentiality: Option<Seq<char>>,
    pub integrity: Option<Seq<char>>,
}

impl View for Access {
    type V = AccessView;

    open spec fn view(&self) -> AccessView {
        AccessView {
            authentication: self.authentication.deep_view(),
            complexity: self.complexity.deep_view(),
            vector: self.vector.deep_view(),
        }
    }
}

impl View for Impact {
    type V = ImpactView;

    open spec fn view(&self) -> ImpactView {
        ImpactView {
            availability: self.availability.deep_view(),
            confidentiality: self.confidentiality.deep_view(),
            integrity: self.integrity.deep_view(),
        }
    }
}

/// The access fields that the metric blocks give: those of the v3 block where there is one,
/// else those of the v2 block, else none.
pub open spec fn resolved_access(metrics: nvd::Impact) -> AccessView {
    match metrics.base_metric_v3 {
        Some(v3) => AccessView {
            authentication: Some(v3.cvss_v3.privileges_required@),
            complexity: Some(v3.cvss_v3.attack_complexity@),
            vector: Some(v3.cvss_v3.attack_vector@),
        },
        None => match metrics.base_metric_v2 {
            Some(v2) => AccessView {
                authentication: Some(v2.cvss_v2.authentication@),
                complexity: Some(v2.cvss_v2.access_complexity@),
                vector: Some(v2.cvss_v2.access_vector@),
            },
            None => AccessView { authentication: None, complexity: None, vector: None },
        },
    }
}

/// The impact fields that the metric blocks give: those of the v3 block where there is one,
/// else those of the v2 block, else none.
pub open spec fn resolved_impact(metrics: nvd::Impact) -> ImpactView {
    match metrics.base_metric_v3 {
        Some(v3) => ImpactView {
            availability: Some(v3.cvss_v3.availability_impact@),
            confidentiality: Some(v3.cvss_v3.confidentiality_impact@),
            integrity: Some(v3.cvss_v3.integrity_impact@),
        },
        None => match metrics.base_metric_v2 {
            Some(v2) => ImpactView {
                availability: Some(v2.cvss_v2.availability_impact@),
                confidentiality: Some(v2.cvss_v2.confidentiality_impact@),
                integrity: Some(v2.cvss_v2.integrity_impact@),
            },
            None => ImpactView { availability: None, confidentiality: None, integrity: None },
        },
    }
}

/// The numeric score that the metric blocks give: the v3 base score where there is a v3
/// block. A v2 score never stands in for it.
pub open spec fn resolved_score(metrics: nvd::Impact) -> Option<Score> {
    match metrics.base_metric_v3 {
        Some(v3) => Some(v3.cvss_v3.base_score),
        None => None,
    }
}

/// The weakness identifier of an advisory: the value of the first description of its first
/// problem type, or the empty text where there is no such description.
pub open spec fn first_weakness(problemtype: nvd::Problemtype) -> Seq<char> {
    if problemtype.problemtype_data@.len() > 0
        && problemtype.problemtype_data@[0].description@.len() > 0 {
        problemtype.problemtype_data@[0].description@[0].value@
    } else {
        Seq::empty()
    }
}

/// The URLs of a reference list, in its order.
pub open spec fn urls(references: Seq<nvd::ReferenceDaum>) -> Seq<Seq<char>> {
    references.map_values(|reference: nvd::ReferenceDaum| reference.url@)
}

/// The CPE 2.3 URIs of those matches that are flagged vulnerable, in the order of the list.
pub open spec fn vulnerable_uris(matches: Seq<nvd::CpeMatch2>) -> Seq<Seq<char>> {
    matches.filter(|m: nvd::CpeMatch2| m.vulnerable).map_values(|m: nvd::CpeMatch2| m.cpe23_uri@)
}

/// The vulnerable URIs of the top-level nodes, node after node. Nested nodes do not
/// contribute.
pub open spec fn top_level_uris(nodes: Seq<nvd::Node>) -> Seq<Seq<char>> {
    nodes.map_values(|node: nvd::Node| vulnerable_uris(node.cpe_match@)).flatten()
}

impl Access {
    /// Picks the access fields from the metric blocks of an archive item.
    pub fn resolve(metrics: &nvd::Impact) -> (access: Access)
        ensures
            access@ == resolved_access(*metrics),
    {
        match &metrics.base_metric_v3 {
            Some(v3) => Access {
                authentication: Some(v3.cvss_v3.privileges_required.clone()),
                complexity: Some(v3.cvss_v3.attack_complexity.clone()),
                vector: Some(v3.cvss_v3.attack_vector.clone()),
            },
            None => match &metrics.base_metric_v2 {
                Some(v2) => Access {
                    authentication: Some(v2.cvss_v2.authentication.clone()),
                    complexity: Some(v2.cvss_v2.access_complexity.clone()),
                    vector: Some(v2.cvss_v2.access_vector.clone()),
                },
                None => Access { authentication: None, complexity: None, vector: None },
            },
        }
    }
}

impl Impact {
    /// Picks the impact fields from the metric blocks of an archive item.
    pub fn resolve(metrics: &nvd::Impact) -> (impact: Impact)
        ensures
            impact@ == resolved_impact(*metrics),
    {
        match &metrics.base_metric_v3 {
            Some(v3) => Impact {
                availability: Some(v3.cvss_v3.availability_impact.clone()),
                confidentiality: Some(v3.cvss_v3.confidentiality_impact.clone()),
                integrity: Some(v3.cvss_v3.integrity_impact.clone()),
            },
            None => match &metrics.base_metric_v2 {
                Some(v2) => Impact {
                    availability: Some(v2.cvss_v2.availability_impact.clone()),
                    confidentiality: Some(v2.cvss_v2.confidentiality_impact.clone()),
                    integrity: Some(v2.cvss_v2.integrity_impact.clone()),
                },
                None => Impact { availability: None, confidentiality: None, integrity: None },
            },
        }
    }
}

/// Picks the numeric score from the metric blocks of an archive item.
pub fn resolve_score(metrics: &nvd::Impact) -> (score: Option<Score>)
    ensures
        score == resolved_score(*metrics),
{
    match &metrics.base_metric_v3 {
        Some(v3) => Some(v3.cvss_v3.base_score),
        None => None,
    }
}

/// Reads the weakness identifier of an advisory off its problem types.
pub fn weakness(problemtype: &nvd::Problemtype) -> (cwe: String)
    ensures
        cwe@ == first_weakness(*problemtype),
{
    if problemtype.problemtype_data.len() > 0 && problemtype.problemtype_data[0].description.len()
        > 0 {
        problemtype.problemtype_data[0].description[0].value.clone()
    } else {
        String::new()
    }
}

/// Collects the URLs of a reference list as an ordered set.
pub fn reference_urls(references: &Vec<nvd::ReferenceDaum>) -> (found: Vec<String>)
    ensures
        found.deep_view() == distinct(urls(references@)),
{
    let mut found: Vec<String> = Vec::new();
    let mut i: usize = 0;
    assert(urls(references@.take(0)) =~= Seq::empty());
    assert(found.deep_view() =~= Seq::empty());
    while i < references.len()
        invariant
            i <= references.len(),
            found.deep_view() == distinct(urls(references@.take(i as int))),
        decreases references.len() - i,
    {
        proof {
            let seen = references@.take(i as int);
            assert(references@.take(i + 1) =~= seen.push(references@[i as int]));
            assert(urls(seen.push(references@[i as int])) =~= urls(seen).push(
                references@[i as int].url@,
            ));
            distinct_of_push(urls(seen), references@[i as int].url@);
        }
        insert(&mut found, references[i].url.clone());
        i += 1;
    }
    assert(references@.take(i as int) =~= references@);
    found
}

/// The vulnerable URIs of a match list grow with the list: a match that is flagged adds its
/// URI at the end, another adds nothing.
pub proof fn vulnerable_uris_of_push(matches: Seq<nvd::CpeMatch2>, next: nvd::CpeMatch2)
    ensures
        vulnerable_uris(matches.push(next)) == if next.vulnerable {
            vulnerable_uris(matches).push(next.cpe23_uri@)
        } else {
            vulnerable_uris(matches)
        },
{
    let flagged = |m: nvd::CpeMatch2| m.vulnerable;
    let uri = |m: nvd::CpeMatch2| m.cpe23_uri@;
    matches.lemma_filter_push(next, flagged);
    matches.filter(flagged).lemma_push_map_commute(uri, next);
}

/// An empty match list has no vulnerable URIs.
pub proof fn vulnerable_uris_of_nothing()
    ensures
        vulnerable_uris(Seq::empty()) == Seq::<Seq<char>>::empty(),
{
    reveal(Seq::filter);
}

/// The vulnerable URIs of a node list grow with the list by those of the node added.
pub proof fn top_level_uris_of_push(nodes: Seq<nvd::Node>, next: nvd::Node)
    ensures
        top_level_uris(nodes.push(next)) == top_level_uris(nodes) + vulnerable_uris(
            next.cpe_match@,
        ),
{
    let uris = |node: nvd::Node| vulnerable_uris(node.cpe_match@);
    nodes.lemma_push_map_commute(uris, next);
    nodes.map_values(uris).lemma_flatten_push(uris(next));
}

/// An empty node list has no vulnerable URIs.
pub proof fn top_level_uris_of_nothing()
    ensures
        top_level_uris(Seq::empty()) == Seq::<Seq<char>>::empty(),
{
    let uris = |node: nvd::Node| vulnerable_uris(node.cpe_match@);
    assert(Seq::<nvd::Node>::empty().map_values(uris) =~= Seq::empty());
    assert(Seq::<Seq<Seq<char>>>::empty().flatten() =~= Seq::empty());
}

/// Collects, as an ordered set, the CPE 2.3 URIs that the top-level nodes of a
/// configuration tree flag as vulnerable.
pub fn vulnerable_configurations(nodes: &Vec<nvd::Node>) -> (found: Vec<String>)
    ensures
        found.deep_view() == distinct(top_level_uris(nodes@)),
{
    let mut found: Vec<String> = Vec::new();
    let mut i: usize = 0;
    proof {
        top_level_uris_of_nothing();
        assert(nodes@.take(0) =~= Seq::empty());
        assert(found.deep_view() =~= Seq::empty());
    }
    while i < nodes.len()
        invariant
            i <= nodes.len(),
            found.deep_view() == distinct(top_level_uris(nodes@.take(i as int))),
        decreases nodes.len() - i,
    {
        let matches = &nodes[i].cpe_match;
        let ghost before = top_level_uris(nodes@.take(i as int));
        let mut j: usize = 0;
        proof {
            vulnerable_uris_of_nothing();
            assert(matches@.take(0) =~= Seq::empty());
            assert(before + Seq::<Seq<char>>::empty() =~= before);
        }
        while j < matches.len()
            invariant
                j <= matches.len(),
                found.deep_view() == distinct(before + vulnerable_uris(matches@.take(j as int))),
            decreases matches.len() - j,
        {
            proof {
                let seen = matches@.take(j as int);
                assert(matches@.take(j + 1) =~= seen.push(matches@[j as int]));
                vulnerable_uris_of_push(seen, matches@[j as int]);
                if matches@[j as int].vulnerable {
                    assert(before + vulnerable_uris(seen).push(matches@[j as int].cpe23_uri@) =~= (
                    before + vulnerable_uris(seen)).push(matches@[j as int].cpe23_uri@));
                    distinct_of_push(before + vulnerable_uris(seen), matches@[j as int].cpe23_uri@);
                }
            }
            if matches[j].vulnerable {
                insert(&mut found, matches[j].cpe23_uri.clone());
            }
            j += 1;
        }
        proof {
            assert(matches@.take(j as int) =~= matches@);
            assert(nodes@.take(i + 1) =~= nodes@.take(i as int).push(nodes@[i as int]));
            top_level_uris_of_push(nodes@.take(i as int), nodes@[i as int]);
        }
        i += 1;
    }
    assert(nodes@.take(i as int) =~= nodes@);
    found
}

impl Cve {
    /// Whether this record is what the mapping rules give for `item`, its two dates being
    /// written as `modified` and `published`.
    pub open spec fn is_adaptation_of(
        &self,
        item: nvd::CveItem,
        modified: Seq<char>,
        published: Seq<char>,
    ) -> bool {
        &&& self.modified@ == modified
        &&& self.published@ == published
        &&& self.last_modified@ == modified
        &&& self.access@ == resolved_access(item.impact)
        &&& self.impact@ == resolved_impact(item.impact)
        &&& self.cvss == resolved_score(item.impact)
        &&& self.cvss_time is None
        &&& self.cvss_vector is None
        &&& self.assigner@ == item.cve.cve_data_meta.assigner@
        &&& self.id@ == item.cve.cve_data_meta.id@
        &&& self.cwe@ == first_weakness(item.cve.problemtype)
        &&& self.summary@ == item.cve.description.description_data@[0].value@
        &&& self.references.deep_view() == distinct(urls(item.cve.references.reference_data@))
        &&& self.vulnerable_configuration.deep_view() == distinct(
            top_level_uris(item.configurations.nodes@),
        )
        &&& self.capec@.len() == 0
        &&& self.vulnerable_configuration_cpe22@.len() == 0
        &&& self.vulnerable_product@.len() == 0
    }

    /// Builds the canonical record of an archive item whose two dates have been put into
    /// canonical form already. The item must carry a description: its first one is the
    /// summary.
    pub fn assemble(cve_item: nvd::CveItem, modified: String, published: String) -> (cve: Cve)
        requires
            cve_item.cve.description.description_data@.len() > 0,
        ensures
            cve.is_adaptation_of(cve_item, modified@, published@),
    {
        let cvss = resolve_score(&cve_item.impact);
        let cwe = weakness(&cve_item.cve.problemtype);
        let vulnerable_configuration = vulnerable_configurations(&cve_item.configurations.nodes);
        let references = reference_urls(&cve_item.cve.references.reference_data);
        let impact = Impact::resolve(&cve_item.impact);
        let access = Access::resolve(&cve_item.impact);
        let summary = cve_item.cve.description.description_data[0].value.clone();
        Cve {
            modified: modified.clone(),
            published,
            access,
            assigner: cve_item.cve.cve_data_meta.assigner,
            capec: Vec::new(),
            cvss,
            cvss_time: None,
            cvss_vector: None,
            cwe,
            id: cve_item.cve.cve_data_meta.id,
            impact,
            last_modified: modified,
            references,
            summary,
            vulnerable_configuration,
            vulnerable_configuration_cpe22: Vec::new(),
            vulnerable_product: Vec::new(),
        }
    }

    /// Adapts an archive item to the canonical shape. The item must carry a description.
    ///
    /// Fails with [`Error::MalformedTimestamp`] exactly where one of the item's two dates
    /// cannot be recast from the archive feed's form into the canonical one.
    pub fn from(cve_item: nvd::CveItem) -> (r: Result<Cve, Error>)
        requires
            cve_item.cve.description.description_data@.len() > 0,
        ensures
            match r {
                Ok(cve) => {
                    &&& recast(cve_item.last_modified_date@) is Some
                    &&& recast(cve_item.published_date@) is Some
                    &&& cve.is_adaptation_of(
                        cve_item,
                        recast(cve_item.last_modified_date@)->0,
                        recast(cve_item.published_date@)->0,
                    )
                },
                Err(e) => {
                    &&& e == Error::MalformedTimestamp
                    &&& recast(cve_item.last_modified_date@) is None || recast(
                        cve_item.published_date@,
                    ) is None
                },
            },
    {
        let modified = match canonical_from_upstream(cve_item.last_modified_date.as_str()) {
            Ok(text) => text,
            Err(e) => { return Err(e); },
        };
        let published = match canonical_from_upstream(cve_item.published_date.as_str()) {
            Ok(text) => text,
            Err(e) => { return Err(e); },
        };
        Ok(Cve::assemble(cve_item, modified, published))
    }
}

/// Fallback between the metric blocks, as it shows in an adapted record: with a v3 block
/// in the item, every access and impact field is that of the v3 block, whether or not
/// there is a v2 block; with a v2 block alone, every such field is that of the v2 block;
/// and the numeric score is the v3 base score or absent, never the v2 score.
pub proof fn adaptation_falls_back(
    cve: Cve,
    item: nvd::CveItem,
    modified: Seq<char>,
    published: Seq<char>,
)
    requires
        cve.is_adaptation_of(item, modified, published),
    ensures
        item.impact.base_metric_v3 matches Some(v3) ==> {
            &&& cve.access@.authentication == Some(v3.cvss_v3.privileges_required@)
            &&& cve.access@.complexity == Some(v3.cvss_v3.attack_complexity@)
            &&& cve.access@.vector == Some(v3.cvss_v3.attack_vector@)
            &&& cve.impact@.confidentiality == Some(v3.cvss_v3.confidentiality_impact@)
            &&& cve.impact@.integrity == Some(v3.cvss_v3.integrity_impact@)
            &&& cve.impact@.availability == Some(v3.cvss_v3.availability_impact@)
            &&& cve.cvss == Some(v3.cvss_v3.base_score)
        },
        item.impact.base_metric_v3 is None ==> cve.cvss is None,
        item.impact.base_metric_v3 is None ==> (item.impact.base_metric_v2 matches Some(v2) ==> {
            &&& cve.access@.authentication == Some(v2.cvss_v2.authentication@)
            &&& cve.access@.complexity == Some(v2.cvss_v2.access_complexity@)
            &&& cve.access@.vector == Some(v2.cvss_v2.access_vector@)
            &&& cve.impact@.confidentiality == Some(v2.cvss_v2.confidentiality_impact@)
            &&& cve.impact@.integrity == Some(v2.cvss_v2.integrity_impact@)
            &&& cve.impact@.availability == Some(v2.cvss_v2.availability_impact@)
        }),
        item.impact.base_metric_v3 is None && item.impact.base_metric_v2 is None ==> {
            &&& cve.access@ == AccessView { authentication: None, complexity: None, vector: None }
            &&& cve.impact@ == ImpactView {
                availability: None,
                confidentiality: None,
                integrity: None,
            }
        },
{
}

/// The set-valued fields of an adapted record hold no value twice.
pub proof fn adaptation_holds_sets(
    cve: Cve,
    item: nvd::CveItem,
    modified: Seq<char>,
    published: Seq<char>,
)
    requires
        cve.is_adaptation_of(item, modified, published),
    ensures
        cve.references.deep_view().no_duplicates(),
        cve.vulnerable_configuration.deep_view().no_duplicates(),
        cve.vulnerable_configuration_cpe22.deep_view().no_duplicates(),
        cve.vulnerable_product.deep_view().no_duplicates(),
{
    distinct_is_a_set(urls(item.cve.references.reference_data@));
    distinct_is_a_set(top_level_uris(item.configurations.nodes@));
}

} // verus!
