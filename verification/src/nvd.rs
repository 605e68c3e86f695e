//! The yearly archive feed: its nested document shape, and the cached download of it.

use crate::error::Error;
use std::io::Read;
use vstd::prelude::*;

verus! {

/// A CVSS score as the feed writes it: an IEEE 754 double, carried by its bit pattern and
/// never interpreted here.
#[derive(Default, Debug, Clone, Copy, PartialEq, Eq, Structural)]
pub struct Score {
    pub bits: u64,
}

/// One year's archive document.
#[derive(Default, Debug, Clone, PartialEq)]
pub struct Root {
    pub cve_data_type: String,
    pub cve_data_format: String,
    pub cve_data_version: String,
    pub cve_data_number_of_cves: String,
    pub cve_data_timestamp: String,
    pub cve_items: Vec<CveItem>,
}

/// One advisory of the archive.
#[derive(Default, Debug, Clone, PartialEq)]
pub struct CveItem {
    pub cve: Cve,
    pub configurations: Configurations,
    pub impact: Impact,
    pub published_date: String,
    pub last_modified_date: String,
}

#[derive(Default, Debug, Clone, PartialEq)]
pub struct Cve {
    pub data_type: String,
    pub data_format: String,
    pub data_version: String,
    pub cve_data_meta: CveDataMeta,
    pub problemtype: Problemtype,
    pub references: References,
    pub description: Description2,
}

#[derive(Default, Debug, Clone, PartialEq)]
pub struct CveDataMeta {
    pub id: String,
    pub assigner: String,
}

#[derive(Default, Debug, Clone, PartialEq)]
pub struct Problemtype {
    pub problemtype_data: Vec<ProblemtypeDaum>,
}

#[derive(Default, Debug, Clone, PartialEq)]
pub struct ProblemtypeDaum {
    pub description: Vec<Description>,
}

#[derive(Default, Debug, Clone, PartialEq)]
pub struct Description {
    pub lang: String,
    pub value: String,
}

#[derive(Default, Debug, Clone, PartialEq)]
pub struct References {
    pub reference_data: Vec<ReferenceDaum>,
}

#[derive(Default, Debug, Clone, PartialEq)]
pub struct ReferenceDaum {
    pub url: String,
    pub name: String,
    pub refsource: String,
    pub tags: Vec<String>,
}

#[derive(Default, Debug, Clone, PartialEq)]
pub struct Description2 {
    pub description_data: Vec<DescriptionDaum>,
}

#[derive(Default, Debug, Clone, PartialEq)]
pub struct DescriptionDaum {
    pub lang: String,
    pub value: String,
}

#[derive(Default, Debug, Clone, PartialEq)]
pub struct Configurations {
    pub cve_data_version: String,
    pub nodes: Vec<Node>,
}

/// A top-level node of a configuration tree.
#[derive(Default, Debug, Clone, PartialEq)]
pub struct Node {
    pub operator: String,
    pub children: Option<Vec<Children>>,
    pub cpe_match: Vec<CpeMatch2>,
}

/// A nested node of a configuration tree.
#[derive(Default, Debug, Clone, PartialEq)]
pub struct Children {
    pub operator: String,
    pub cpe_match: Vec<CpeMatch>,
}

#[derive(Default, Debug, Clone, PartialEq)]
pub struct CpeMatch {
    pub vulnerable: bool,
    pub cpe23_uri: String,
    pub version_end_including: Option<String>,
    pub version_end_excluding: Option<String>,
    pub version_start_including: Option<String>,
}

#[derive(Default, Debug, Clone, PartialEq)]
pub struct CpeMatch2 {
    pub vulnerable: bool,
    pub cpe23_uri: String,
    pub version_end_excluding: Option<String>,
    pub version_start_including: Option<String>,
    pub version_end_including: Option<String>,
    pub version_start_excluding: Option<String>,
}

/// The metric blocks of an advisory. Either may be missing.
#[derive(Default, Debug, Clone, PartialEq)]
pub struct Impact {
    pub base_metric_v3: Option<BaseMetricV3>,
    pub base_metric_v2: Option<BaseMetricV2>,
}

#[derive(Default, Debug, Clone, PartialEq)]
pub struct BaseMetricV3 {
    pub cvss_v3: CvssV3,
    pub exploitability_score: Score,
    pub impact_score: Score,
}

#[derive(Default, Debug, Clone, PartialEq)]
pub struct CvssV3 {
    pub version: String,
    pub vector_string: String,
    pub attack_vector: String,
    pub attack_complexity: String,
    pub privileges_required: String,
    pub user_interaction: String,
    pub scope: String,
    pub confidentiality_impact: String,
    pub integrity_impact: String,
    pub availability_impact: String,
    pub base_score: Score,
    pub base_severity: String,
}

#[derive(Default, Debug, Clone, PartialEq)]
pub struct BaseMetricV2 {
    pub cvss_v2: CvssV2,
    pub severity: String,
    pub exploitability_score: Score,
    pub impact_score: Score,
    pub ac_insuf_info: Option<bool>,
    pub obtain_all_privilege: Option<bool>,
    pub obtain_user_privilege: Option<bool>,
    pub obtain_other_privilege: Option<bool>,
    pub user_interaction_required: Option<bool>,
}

#[derive(Default, Debug, Clone, PartialEq)]
pub struct CvssV2 {
    pub version: String,
    pub vector_string: String,
    pub access_vector: String,
    pub access_complexity: String,
    pub authentication: String,
    pub confidentiality_impact: String,
    pub integrity_impact: String,
    pub availability_impact: String,
    pub base_score: Score,
}

/// The address of a year's archive is this, the year in decimal, and [`URL_SUFFIX`].
pub const URL_PREFIX: &'static str = "https://nvd.nist.gov/feeds/json/cve/1.1/nvdcve-1.1-";

/// The end of the address of a year's archive.
pub const URL_SUFFIX: &'static str = ".json.gz";

/// The decimal digit for `d`, where `d` is less than ten.
pub open spec fn digit(d: nat) -> char {
    if d == 0 {
        '0'
    } else if d == 1 {
        '1'
    } else if d == 2 {
        '2'
    } else if d == 3 {
        '3'
    } else if d == 4 {
        '4'
    } else if d == 5 {
        '5'
    } else if d == 6 {
        '6'
    } else if d == 7 {
        '7'
    } else if d == 8 {
        '8'
    } else {
        '9'
    }
}

/// The decimal numeral of `n`, without leading zeros.
pub open spec fn decimal_text(n: nat) -> Seq<char>
    decreases n,
{
    if n < 10 {
        seq![digit(n)]
    } else {
        decimal_text(n / 10).push(digit(n % 10))
    }
}

/// The address of the archive of `year`.
pub open spec fn archive_address(year: u16) -> Seq<char> {
    URL_PREFIX@ + decimal_text(year as nat) + URL_SUFFIX@
}

/// The name of the file in which the cache holds the archive of `year`: the year.
pub open spec fn cache_name(year: u16) -> Seq<char> {
    decimal_text(year as nat)
}

/// The numeral of one digit.
fn digit_text(d: u16) -> (text: &'static str)
    requires
        d < 10,
    ensures
        text@ == seq![digit(d as nat)],
{
    proof {
        reveal_strlit("0");
        reveal_strlit("1");
        reveal_strlit("2");
        reveal_strlit("3");
        reveal_strlit("4");
        reveal_strlit("5");
        reveal_strlit("6");
        reveal_strlit("7");
        reveal_strlit("8");
        reveal_strlit("9");
    }
    let text = if d == 0 {
        "0"
    } else if d == 1 {
        "1"
    } else if d == 2 {
        "2"
    } else if d == 3 {
        "3"
    } else if d == 4 {
        "4"
    } else if d == 5 {
        "5"
    } else if d == 6 {
        "6"
    } else if d == 7 {
        "7"
    } else if d == 8 {
        "8"
    } else {
        "9"
    };
    assert(text@ =~= seq![digit(d as nat)]);
    text
}

/// Writes a number in decimal.
pub fn decimal(n: u16) -> (text: String)
    ensures
        text@ == decimal_text(n as nat),
    decreases n,
{
    if n < 10 {
        String::from_str(digit_text(n))
    } else {
        let mut text = decimal(n / 10);
        text.append(digit_text(n % 10));
        assert(text@ =~= decimal_text(n as nat / 10).push(digit(n as nat % 10)));
        text
    }
}

/// The address from which the archive of a year is requested.
pub fn archive_url(year: u16) -> (url: String)
    ensures
        url@ == archive_address(year),
{
    let mut url = String::from_str(URL_PREFIX);
    url.append(decimal(year).as_str());
    url.append(URL_SUFFIX);
    url
}

/// The name of the cache file of a year.
pub fn cache_file(year: u16) -> (name: String)
    ensures
        name@ == cache_name(year),
{
    decimal(year)
}

/// Why reading from a decoder failed. It is passed on unread.
#[verifier::external_type_specification]
#[verifier::external_body]
pub struct ExIoError(std::io::Error);

/// The text that the gzip member at the start of `bytes` decompresses to, or nothing where
/// the bytes do not start with a sound gzip member or its content is not UTF-8.
pub uninterp spec fn gunzipped(bytes: Seq<u8>) -> Option<Seq<char>>;

/// Makes a `flate2::bufread::GzDecoder` over the bytes and reads it to its end with
/// `std::io::Read::read_to_string`.
///
/// Trusted: the outcome is a function of the bytes alone, named by [`gunzipped`]. The
/// call fails exactly where that name gives nothing.
#[verifier::external_body]
fn gunzip(bytes: &[u8]) -> (r: Result<String, std::io::Error>)
    ensures
        r matches Ok(text) ==> gunzipped(bytes@) == Some(text@),
        r is Err ==> gunzipped(bytes@) is None,
{
    let mut text = String::new();
    match flate2::bufread::GzDecoder::new(bytes).read_to_string(&mut text) {
        Ok(_) => Ok(text),
        Err(e) => Err(e),
    }
}

/// Decompresses the bytes of a cached archive into the text of the document.
///
/// Fails with [`Error::DecodeFailure`] exactly where [`gunzipped`] gives nothing.
pub fn decode(bytes: &Vec<u8>) -> (r: Result<String, Error>)
    ensures
        match r {
            Ok(text) => gunzipped(bytes@) == Some(text@),
            Err(e) => e == Error::DecodeFailure && gunzipped(bytes@) is None,
        },
{
    match gunzip(bytes.as_slice()) {
        Ok(text) => Ok(text),
        Err(_) => Err(Error::DecodeFailure),
    }
}

/// How far the download of a year's archive has come: which request is under way.
#[derive(Debug, Clone, Copy, PartialEq, Eq, Structural)]
pub enum FetchStage {
    /// Nothing was asked for yet.
    Start,
    /// The cache location is being made sure of.
    Directory,
    /// The cache is being asked whether it holds the year.
    Probe,
    /// The archive is being requested from the network.
    Request,
    /// The bytes that came from the network are being written to the cache.
    Write,
    /// The cache file is being read.
    Read,
    /// The document was delivered.
    Done,
    /// The download was given up with this failure.
    Failed(Error),
}

/// What the world answered to a request.
#[derive(Debug, Clone, PartialEq)]
pub enum FetchReply {
    /// It was done.
    Ready,
    /// Whether the cache holds the file.
    Present(bool),
    /// The bytes that were asked for.
    Bytes(Vec<u8>),
    /// It could not be done.
    Failed,
}

/// What is to be done next for a download.
#[derive(Debug, Clone, PartialEq)]
pub enum FetchAction {
    /// Create the cache location unless it exists.
    EnsureDirectory,
    /// Tell whether the cache holds this file.
    Probe { file: String },
    /// Get this address from the network.
    Request { url: String },
    /// Write these bytes to this file of the cache.
    Write { file: String, bytes: Vec<u8> },
    /// Read this file of the cache.
    Read { file: String },
    /// Nothing more: this is the text of the archive document.
    Deliver { document: String },
    /// Nothing more: the document was delivered before.
    Finish,
    /// Nothing more: the download failed.
    Abort(Error),
}

/// A [`FetchReply`] as a mathematical value.
pub enum FetchReplyView {
    Ready,
    Present(bool),
    Bytes(Seq<u8>),
    Failed,
}

/// A [`FetchAction`] as a mathematical value.
pub enum FetchActionView {
    EnsureDirectory,
    Probe { file: Seq<char> },
    Request { url: Seq<char> },
    Write { file: Seq<char>, bytes: Seq<u8> },
    Read { file: Seq<char> },
    Deliver { document: Seq<char> },
    Finish,
    Abort(Error),
}

impl View for FetchReply {
    type V = FetchReplyView;

    open spec fn view(&self) -> FetchReplyView {
        match self {
            FetchReply::Ready => FetchReplyView::Ready,
            FetchReply::Present(present) => FetchReplyView::Present(*present),
            FetchReply::Bytes(bytes) => FetchReplyView::Bytes(bytes@),
            FetchReply::Failed => FetchReplyView::Failed,
        }
    }
}

impl View for FetchAction {
    type V = FetchActionView;

    open spec fn view(&self) -> FetchActionView {
        match self {
            FetchAction::EnsureDirectory => FetchActionView::EnsureDirectory,
            FetchAction::Probe { file } => FetchActionView::Probe { file: file@ },
            FetchAction::Request { url } => FetchActionView::Request { url: url@ },
            FetchAction::Write { file, bytes } => FetchActionView::Write {
                file: file@,
                bytes: bytes@,
            },
            FetchAction::Read { file } => FetchActionView::Read { file: file@ },
            FetchAction::Deliver { document } => FetchActionView::Deliver { document: document@ },
            FetchAction::Finish => FetchActionView::Finish,
            FetchAction::Abort(error) => FetchActionView::Abort(*error),
        }
    }
}

/// The step into the stage in which the download has failed with `error`.
pub open spec fn given_up(error: Error) -> (FetchStage, FetchActionView) {
    (FetchStage::Failed(error), FetchActionView::Abort(error))
}

/// The step that follows when the world has answered `reply` in `stage`: the next stage
/// and what is to be done in it.
///
/// The cache location is made sure of and the cache is asked for the file of the year.
/// Where it holds the file, the network is left alone. Where it does not, the archive is
/// requested and the bytes that come are written to the cache as they are, before
/// anything is decoded. Either way the file is then read and its bytes are decompressed.
/// An answer that reports a failure, or that is not of the kind the request under way
/// gives, ends the download: with [`Error::TransportFailure`] for the network request,
/// with [`Error::CacheIoFailure`] for the cache. Bytes that do not decompress end it with
/// [`Error::DecodeFailure`].
pub open spec fn downloaded(year: u16, stage: FetchStage, reply: FetchReplyView) -> (
    FetchStage,
    FetchActionView,
) {
    match stage {
        FetchStage::Start => (FetchStage::Directory, FetchActionView::EnsureDirectory),
        FetchStage::Directory => match reply {
            FetchReplyView::Ready => (
                FetchStage::Probe,
                FetchActionView::Probe { file: cache_name(year) },
            ),
            _ => given_up(Error::CacheIoFailure),
        },
        FetchStage::Probe => match reply {
            FetchReplyView::Present(true) => (
                FetchStage::Read,
                FetchActionView::Read { file: cache_name(year) },
            ),
            FetchReplyView::Present(false) => (
                FetchStage::Request,
                FetchActionView::Request { url: archive_address(year) },
            ),
            _ => given_up(Error::CacheIoFailure),
        },
        FetchStage::Request => match reply {
            FetchReplyView::Bytes(bytes) => (
                FetchStage::Write,
                FetchActionView::Write { file: cache_name(year), bytes },
            ),
            _ => given_up(Error::TransportFailure),
        },
        FetchStage::Write => match reply {
            FetchReplyView::Ready => (
                FetchStage::Read,
                FetchActionView::Read { file: cache_name(year) },
            ),
            _ => given_up(Error::CacheIoFailure),
        },
        FetchStage::Read => match reply {
            FetchReplyView::Bytes(bytes) => match gunzipped(bytes) {
                Some(document) => (FetchStage::Done, FetchActionView::Deliver { document }),
                None => given_up(Error::DecodeFailure),
            },
            _ => given_up(Error::CacheIoFailure),
        },
        FetchStage::Done => (FetchStage::Done, FetchActionView::Finish),
        FetchStage::Failed(error) => given_up(error),
    }
}

/// A bound on the requests that are still to be answered in `stage`.
pub open spec fn requests_left(stage: FetchStage) -> nat {
    match stage {
        FetchStage::Start => 6,
        FetchStage::Directory => 5,
        FetchStage::Probe => 4,
        FetchStage::Request => 3,
        FetchStage::Write => 2,
        FetchStage::Read => 1,
        FetchStage::Done => 0,
        FetchStage::Failed(_) => 0,
    }
}

/// Whether `action` ends a download.
pub open spec fn is_last(action: FetchActionView) -> bool {
    action is Deliver || action is Finish || action is Abort
}

/// The step that gives a download up.
fn give_up(error: Error) -> (next: (FetchStage, FetchAction))
    ensures
        (next.0, next.1@) == given_up(error),
{
    (FetchStage::Failed(error), FetchAction::Abort(error))
}

/// Takes the download of the archive of `year` one step further: given the stage it is
/// in and what the world answered to the request under way, returns the next stage and
/// what is to be done in it. The first step is taken from [`FetchStage::Start`], with
/// any answer. Each step that asks for something brings the end nearer.
pub fn download(year: u16, stage: FetchStage, reply: FetchReply) -> (next: (
    FetchStage,
    FetchAction,
))
    ensures
        (next.0, next.1@) == downloaded(year, stage, reply@),
        !is_last(next.1@) ==> requests_left(next.0) < requests_left(stage),
{
    match stage {
        FetchStage::Start => (FetchStage::Directory, FetchAction::EnsureDirectory),
        FetchStage::Directory => match reply {
            FetchReply::Ready => (FetchStage::Probe, FetchAction::Probe { file: cache_file(year) }),
            _ => give_up(Error::CacheIoFailure),
        },
        FetchStage::Probe => match reply {
            FetchReply::Present(present) => {
                if present {
                    (FetchStage::Read, FetchAction::Read { file: cache_file(year) })
                } else {
                    (FetchStage::Request, FetchAction::Request { url: archive_url(year) })
                }
            },
            _ => give_up(Error::CacheIoFailure),
        },
        FetchStage::Request => match reply {
            FetchReply::Bytes(bytes) => (
                FetchStage::Write,
                FetchAction::Write { file: cache_file(year), bytes },
            ),
            _ => give_up(Error::TransportFailure),
        },
        FetchStage::Write => match reply {
            FetchReply::Ready => (FetchStage::Read, FetchAction::Read { file: cache_file(year) }),
            _ => give_up(Error::CacheIoFailure),
        },
        FetchStage::Read => match reply {
            FetchReply::Bytes(bytes) => match decode(&bytes) {
                Ok(document) => (FetchStage::Done, FetchAction::Deliver { document }),
                Err(e) => give_up(e),
            },
            _ => give_up(Error::CacheIoFailure),
        },
        FetchStage::Done => (FetchStage::Done, FetchAction::Finish),
        FetchStage::Failed(error) => give_up(error),
    }
}

/// A year that the cache holds is served without the network: the file is read next, and
/// from there on nothing is requested or written, whatever is answered.
pub proof fn cached_year_skips_the_network(year: u16, stage: FetchStage, reply: FetchReplyView)
    requires
        stage is Read || stage is Done || stage is Failed,
    ensures
        downloaded(year, FetchStage::Probe, FetchReplyView::Present(true)).0 == FetchStage::Read,
        downloaded(year, stage, reply).0 is Done || downloaded(year, stage, reply).0 is Failed,
        is_last(downloaded(year, stage, reply).1),
{
}

/// What came from the network goes to the cache as it came, before anything is decoded,
/// and only then is the cache read.
pub proof fn fetched_bytes_are_cached_first(year: u16, bytes: Seq<u8>)
    ensures
        downloaded(year, FetchStage::Request, FetchReplyView::Bytes(bytes)) == (
            FetchStage::Write,
            FetchActionView::Write { file: cache_name(year), bytes },
        ),
        downloaded(year, FetchStage::Write, FetchReplyView::Ready) == (
            FetchStage::Read,
            FetchActionView::Read { file: cache_name(year) },
        ),
{
}

} // verus!
