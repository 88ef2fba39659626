use offchain_http::headers::Headers;
use offchain_http::request::Request;
use offchain_http::stub::{CallRecord, StubTransport};
use offchain_http::transport::RequestStatus;

fn pairs(list: &[(&str, &str)]) -> Vec<(Vec<u8>, Vec<u8>)> {
    list.iter()
        .map(|(k, v)| (k.as_bytes().to_vec(), v.as_bytes().to_vec()))
        .collect()
}

#[test]
fn find_returns_first_match() {
    // duplicates are permitted, and the first wins
    let headers = Headers { raw: pairs(&[("A", "1"), ("A", "2")]) };
    assert_eq!(headers.find("A"), Some("1"));
}

#[test]
fn find_is_case_sensitive_and_exact() {
    let headers = Headers { raw: pairs(&[("Content-Type", "text/plain")]) };
    assert_eq!(headers.find("Content-Type"), Some("text/plain"));
    assert_eq!(headers.find("content-type"), None);
    assert_eq!(headers.find("Content"), None);
}

#[test]
fn find_skips_keys_that_are_not_text() {
    let headers = Headers {
        raw: vec![
            (vec![0xff, 0xfe], b"1".to_vec()),
            (b"A".to_vec(), b"2".to_vec()),
        ],
    };
    assert_eq!(headers.find("A"), Some("2"));
}

#[test]
fn find_on_missing_name_returns_none() {
    let headers = Headers { raw: pairs(&[("A", "1")]) };
    assert_eq!(headers.find("B"), None);
}

#[test]
fn find_with_invalid_value_bytes_returns_none() {
    let headers = Headers { raw: vec![(b"A".to_vec(), vec![0xff, 0xfe])] };
    assert_eq!(headers.find("A"), None);
}

#[test]
fn current_before_any_next_returns_none() {
    let headers = Headers { raw: pairs(&[("A", "1")]) };
    let it = headers.into_iter();
    assert_eq!(it.current(), None);
}

#[test]
fn current_after_exhausted_next_returns_none() {
    let headers = Headers { raw: pairs(&[("A", "1")]) };
    let mut it = headers.into_iter();
    assert!(it.next());
    assert_eq!(it.current(), Some(("A", "1")));
    assert!(!it.next());
    assert_eq!(it.current(), None);
    // and it stays that way
    assert!(!it.next());
    assert_eq!(it.current(), None);
}

#[test]
fn iterator_walks_all_pairs_in_order() {
    let headers = Headers { raw: pairs(&[("A", "1"), ("B", "2"), ("A", "3")]) };
    let mut it = headers.into_iter();
    let mut seen = Vec::new();
    while it.next() {
        seen.push(it.current().unwrap());
    }
    assert_eq!(seen, vec![("A", "1"), ("B", "2"), ("A", "3")]);
}

#[test]
fn current_reads_invalid_bytes_as_empty_text() {
    let headers = Headers { raw: vec![(vec![0xff], b"v".to_vec())] };
    let mut it = headers.into_iter();
    assert!(it.next());
    assert_eq!(it.current(), Some(("", "v")));
}

#[test]
fn iterator_on_empty_collection() {
    let headers = Headers { raw: vec![] };
    let mut it = headers.into_iter();
    assert_eq!(it.current(), None);
    assert!(!it.next());
    assert_eq!(it.current(), None);
}

#[test]
fn response_headers_fetched_once_and_cached() {
    let mut t = StubTransport::new();
    let pending = Request::new("http://x").send(&mut t).unwrap();
    t.statuses = vec![RequestStatus::Finished(200)];
    t.headers = pairs(&[("Server", "stub")]);
    let mut resp = pending.wait(&mut t).unwrap();

    let calls_before = t.calls.len();
    assert_eq!(resp.headers(&mut t).find("Server"), Some("stub"));
    assert_eq!(t.calls.len(), calls_before + 1);
    assert!(matches!(t.calls.last().unwrap(), CallRecord::ReadHeaders { .. }));

    // the snapshot is cached: a second call touches the transport not
    // at all, and later transport-side changes are never observed
    t.headers = pairs(&[("Server", "changed")]);
    assert_eq!(resp.headers(&mut t).find("Server"), Some("stub"));
    assert_eq!(t.calls.len(), calls_before + 1);
}
