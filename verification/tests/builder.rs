use offchain_http::request::{Method, Request};
use offchain_http::stub::{CallRecord, StubTransport};

#[test]
fn method_text() {
    assert_eq!(Method::Get.as_str(), "GET");
    assert_eq!(Method::Post.as_str(), "POST");
    assert_eq!(Method::Put.as_str(), "PUT");
    assert_eq!(Method::Patch.as_str(), "PATCH");
    assert_eq!(Method::Delete.as_str(), "DELETE");
    assert_eq!(Method::Other("FETCH").as_str(), "FETCH");
}

#[test]
fn new_request_defaults() {
    let req = Request::new("http://x/y");
    assert_eq!(req.url, "http://x/y");
    assert!(matches!(req.method, Method::Get));
    assert!(req.body.is_empty());
    assert!(req.deadline.is_none());
}

#[test]
fn default_request_url() {
    let req = Request::default();
    assert_eq!(req.url, "http://localhost");
    assert!(matches!(req.method, Method::Get));
}

#[test]
fn send_replays_everything_in_order() {
    // a built request must produce, in order: start, each header,
    // each body chunk, then one finalizing empty write
    let mut t = StubTransport::new();
    let mut req = Request::new("http://x/y");
    req.add_header("A", "1").body(vec![b"ab".to_vec(), b"cd".to_vec()]);
    let pending = req.send(&mut t).unwrap();
    assert_eq!(pending.id, 1);
    assert_eq!(
        t.calls,
        vec![
            CallRecord::Start {
                id: 1,
                method: "GET".to_string(),
                url: "http://x/y".to_string(),
                meta: vec![],
            },
            CallRecord::AddHeader { id: 1, name: "A".to_string(), value: "1".to_string() },
            CallRecord::WriteBody { id: 1, chunk: b"ab".to_vec(), ok: true },
            CallRecord::WriteBody { id: 1, chunk: b"cd".to_vec(), ok: true },
            CallRecord::WriteBody { id: 1, chunk: vec![], ok: true },
        ]
    );
}

#[test]
fn write_some() {
    // the body chunks reach the transport exactly as given, finalized
    // by one empty write
    let mut t = StubTransport::new();
    let mut req = Request::new("http://localhost/put");
    req.body(vec![b"1234".to_vec()]);
    let pending = req.send(&mut t).unwrap();
    assert_eq!(pending.id, 1);
    assert_eq!(
        t.calls[1],
        CallRecord::WriteBody { id: 1, chunk: b"1234".to_vec(), ok: true }
    );
    assert_eq!(
        t.calls[2],
        CallRecord::WriteBody { id: 1, chunk: vec![], ok: true }
    );
}

#[test]
fn send_aborts_on_write_failure() {
    // the second chunk's write fails: the send aborts at once, with no
    // retry and no finalizing write
    let mut t = StubTransport::new();
    t.write_results = vec![true, false];
    let mut req = Request::new("http://x/y");
    req.body(vec![b"ab".to_vec(), b"cd".to_vec()]);
    assert!(req.send(&mut t).is_err());
    assert_eq!(t.calls.len(), 3);
    assert_eq!(
        t.calls[1],
        CallRecord::WriteBody { id: 1, chunk: b"ab".to_vec(), ok: true }
    );
    assert_eq!(
        t.calls[2],
        CallRecord::WriteBody { id: 1, chunk: b"cd".to_vec(), ok: false }
    );
}

#[test]
fn send_aborts_on_finalize_failure() {
    let mut t = StubTransport::new();
    t.write_results = vec![false];
    let req = Request::new("http://x/y");
    assert!(req.send(&mut t).is_err());
    assert_eq!(
        t.calls[1],
        CallRecord::WriteBody { id: 1, chunk: vec![], ok: false }
    );
}

#[test]
fn builder_chains_mutate_in_place() {
    let mut t = StubTransport::new();
    let mut req = Request::new("http://a");
    req.url("http://b").add_header("K", "v").deadline(99);
    assert_eq!(req.url, "http://b");
    assert_eq!(req.deadline, Some(99));
    req.method = Method::Post;
    let pending = req.send(&mut t).unwrap();
    assert_eq!(pending.id, 1);
    assert_eq!(
        t.calls[0],
        CallRecord::Start {
            id: 1,
            method: "POST".to_string(),
            url: "http://b".to_string(),
            meta: vec![],
        }
    );
    assert_eq!(
        t.calls[1],
        CallRecord::AddHeader { id: 1, name: "K".to_string(), value: "v".to_string() }
    );
}
