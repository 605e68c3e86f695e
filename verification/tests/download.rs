use flate2::write::GzEncoder;
use flate2::Compression;
use parse_cve::error::Error;
use parse_cve::nvd::{
    archive_url, cache_file, decimal, decode, download, FetchAction, FetchReply, FetchStage,
};
use std::io::Write;

fn gzip(text: &[u8]) -> Vec<u8> {
    let mut encoder = GzEncoder::new(Vec::new(), Compression::default());
    encoder.write_all(text).unwrap();
    encoder.finish().unwrap()
}

#[test]
fn numbers_are_written_in_decimal() {
    assert_eq!(decimal(0), "0");
    assert_eq!(decimal(7), "7");
    assert_eq!(decimal(10), "10");
    assert_eq!(decimal(2002), "2002");
    assert_eq!(decimal(9090), "9090");
    assert_eq!(decimal(u16::MAX), "65535");
}

#[test]
fn address_holds_the_year() {
    assert_eq!(
        archive_url(2019),
        "https://nvd.nist.gov/feeds/json/cve/1.1/nvdcve-1.1-2019.json.gz"
    );
}

#[test]
fn cache_file_is_named_by_the_year() {
    assert_eq!(cache_file(2002), "2002");
}

#[test]
fn gzip_bytes_are_decoded() {
    assert_eq!(decode(&gzip(b"{\"CVE_Items\":[]}")), Ok("{\"CVE_Items\":[]}".to_string()));
    assert_eq!(decode(&gzip(b"")), Ok("".to_string()));
}

#[test]
fn bytes_that_are_not_gzip_are_a_decode_failure() {
    assert_eq!(decode(&b"{\"CVE_Items\":[]}".to_vec()), Err(Error::DecodeFailure));
    assert_eq!(decode(&vec![]), Err(Error::DecodeFailure));
}

#[test]
fn truncated_gzip_is_a_decode_failure() {
    let mut bytes = gzip(b"some text that is long enough to be cut");
    bytes.truncate(bytes.len() - 6);
    assert_eq!(decode(&bytes), Err(Error::DecodeFailure));
}

#[test]
fn content_that_is_not_utf8_is_a_decode_failure() {
    assert_eq!(decode(&gzip(&[0xff, 0xfe, 0x00])), Err(Error::DecodeFailure));
}

#[test]
fn cached_year_is_read_without_the_network() {
    let (stage, action) = download(2019, FetchStage::Start, FetchReply::Ready);
    assert_eq!((stage, action), (FetchStage::Directory, FetchAction::EnsureDirectory));
    let (stage, action) = download(2019, stage, FetchReply::Ready);
    assert_eq!((stage, action), (FetchStage::Probe, FetchAction::Probe { file: "2019".to_string() }));
    let (stage, action) = download(2019, stage, FetchReply::Present(true));
    assert_eq!((stage, action), (FetchStage::Read, FetchAction::Read { file: "2019".to_string() }));
    let (stage, action) = download(2019, stage, FetchReply::Bytes(gzip(b"{}")));
    assert_eq!((stage, action), (FetchStage::Done, FetchAction::Deliver { document: "{}".to_string() }));
    let (stage, action) = download(2019, stage, FetchReply::Ready);
    assert_eq!((stage, action), (FetchStage::Done, FetchAction::Finish));
}

#[test]
fn missing_year_is_requested_and_written_before_it_is_read() {
    let (stage, action) = download(2003, FetchStage::Probe, FetchReply::Present(false));
    assert_eq!(stage, FetchStage::Request);
    assert_eq!(
        action,
        FetchAction::Request {
            url: "https://nvd.nist.gov/feeds/json/cve/1.1/nvdcve-1.1-2003.json.gz".to_string()
        }
    );
    let (stage, action) = download(2003, stage, FetchReply::Bytes(vec![1, 2, 3]));
    assert_eq!(stage, FetchStage::Write);
    assert_eq!(action, FetchAction::Write { file: "2003".to_string(), bytes: vec![1, 2, 3] });
    let (stage, action) = download(2003, stage, FetchReply::Ready);
    assert_eq!((stage, action), (FetchStage::Read, FetchAction::Read { file: "2003".to_string() }));
    let (stage, action) = download(2003, stage, FetchReply::Bytes(vec![1, 2, 3]));
    assert_eq!(stage, FetchStage::Failed(Error::DecodeFailure));
    assert_eq!(action, FetchAction::Abort(Error::DecodeFailure));
}

#[test]
fn each_failure_has_its_kind() {
    let failed = |stage| download(2019, stage, FetchReply::Failed);
    let given_up = |error| (FetchStage::Failed(error), FetchAction::Abort(error));
    assert_eq!(failed(FetchStage::Directory), given_up(Error::CacheIoFailure));
    assert_eq!(failed(FetchStage::Probe), given_up(Error::CacheIoFailure));
    assert_eq!(failed(FetchStage::Request), given_up(Error::TransportFailure));
    assert_eq!(failed(FetchStage::Write), given_up(Error::CacheIoFailure));
    assert_eq!(failed(FetchStage::Read), given_up(Error::CacheIoFailure));
}

#[test]
fn failed_download_stays_failed() {
    let stage = FetchStage::Failed(Error::TransportFailure);
    let (stage, action) = download(2019, stage, FetchReply::Ready);
    assert_eq!(stage, FetchStage::Failed(Error::TransportFailure));
    assert_eq!(action, FetchAction::Abort(Error::TransportFailure));
}

#[test]
fn answer_of_the_wrong_kind_ends_the_download() {
    let (stage, action) = download(2019, FetchStage::Request, FetchReply::Ready);
    assert_eq!(stage, FetchStage::Failed(Error::TransportFailure));
    assert_eq!(action, FetchAction::Abort(Error::TransportFailure));
    let (stage, _) = download(2019, FetchStage::Probe, FetchReply::Bytes(vec![]));
    assert_eq!(stage, FetchStage::Failed(Error::CacheIoFailure));
}
