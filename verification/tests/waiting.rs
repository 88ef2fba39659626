use offchain_http::request::Request;
use offchain_http::stub::{CallRecord, StubTransport};
use offchain_http::transport::RequestStatus;
use offchain_http::wait::{Error, PendingRequest};

fn three_pending(t: &mut StubTransport) -> Vec<PendingRequest> {
    let mut out = Vec::new();
    for _ in 0..3 {
        out.push(Request::new("http://x").send(t).unwrap());
    }
    out
}

#[test]
fn batched_wait_maps_each_status_in_order() {
    // statuses [Finished(200), DeadlineReached, Timeout] come back as
    // [Ok(Ok(response with code 200)), Err(second handle), Ok(Err(Timeout))]
    let mut t = StubTransport::new();
    let pending = three_pending(&mut t);
    let ids: Vec<u16> = pending.iter().map(|p| p.id).collect();
    t.statuses = vec![
        RequestStatus::Finished(200),
        RequestStatus::DeadlineReached,
        RequestStatus::Timeout,
    ];
    let mut results = PendingRequest::try_wait_all(pending, Some(50), &mut t);
    assert_eq!(results.len(), 3);
    match results.remove(0) {
        Ok(Ok(resp)) => {
            assert_eq!(resp.code, 200);
            assert_eq!(resp.id, ids[0]);
        }
        _ => panic!("first request must resolve to a response"),
    }
    match results.remove(0) {
        Err(handle) => assert_eq!(handle.id, ids[1]),
        _ => panic!("second request must hand its live handle back"),
    }
    match results.remove(0) {
        Ok(Err(Error::Timeout)) => {}
        _ => panic!("third request must fail terminally with Timeout"),
    }
    // exactly one wait was issued, over all ids in input order
    let wait_calls: Vec<&CallRecord> = t
        .calls
        .iter()
        .filter(|c| matches!(c, CallRecord::Wait { .. }))
        .collect();
    assert_eq!(wait_calls.len(), 1);
    match wait_calls[0] {
        CallRecord::Wait { ids: got, deadline, .. } => {
            assert_eq!(got, &ids);
            assert_eq!(*deadline, Some(50));
        }
        _ => unreachable!(),
    }
}

#[test]
fn deadline_reached_returns_identical_handle() {
    let mut t = StubTransport::new();
    let pending = Request::new("http://x").send(&mut t).unwrap();
    let id = pending.id;
    t.statuses = vec![RequestStatus::DeadlineReached];
    match pending.try_wait(Some(10), &mut t) {
        Err(handle) => assert_eq!(handle.id, id),
        _ => panic!("a DeadlineReached status must hand the handle back"),
    }
}

#[test]
fn returned_handle_can_be_waited_again() {
    let mut t = StubTransport::new();
    let pending = Request::new("http://x").send(&mut t).unwrap();
    let id = pending.id;
    t.statuses = vec![RequestStatus::DeadlineReached, RequestStatus::Finished(301)];
    let handle = pending.try_wait(Some(10), &mut t).unwrap_err();
    assert_eq!(handle.id, id);
    let resp = handle.try_wait(Some(20), &mut t).unwrap().unwrap();
    assert_eq!(resp.id, id);
    assert_eq!(resp.code, 301);
}

#[test]
fn try_wait_terminal_errors() {
    let mut t = StubTransport::new();
    let a = Request::new("http://x").send(&mut t).unwrap();
    t.statuses = vec![RequestStatus::Timeout];
    assert!(matches!(a.try_wait(Some(5), &mut t), Ok(Err(Error::Timeout))));

    let b = Request::new("http://x").send(&mut t).unwrap();
    t.statuses = vec![RequestStatus::Unknown];
    assert!(matches!(b.try_wait(Some(5), &mut t), Ok(Err(Error::Unknown))));
}

#[test]
fn wait_resolves_without_deadline() {
    let mut t = StubTransport::new();
    let pending = Request::new("http://x").send(&mut t).unwrap();
    let id = pending.id;
    t.statuses = vec![RequestStatus::Finished(404)];
    let resp = pending.wait(&mut t).unwrap();
    assert_eq!(resp.id, id);
    assert_eq!(resp.code, 404);
    match t.calls.last().unwrap() {
        CallRecord::Wait { deadline, .. } => assert_eq!(*deadline, None),
        _ => panic!("a wait call must be recorded"),
    }
}

#[test]
fn wait_all_resolves_every_request() {
    let mut t = StubTransport::new();
    let pending = three_pending(&mut t);
    let ids: Vec<u16> = pending.iter().map(|p| p.id).collect();
    t.statuses = vec![
        RequestStatus::Finished(200),
        RequestStatus::Unknown,
        RequestStatus::Finished(500),
    ];
    let mut results = PendingRequest::wait_all(pending, &mut t);
    assert_eq!(results.len(), 3);
    let first = results.remove(0).unwrap();
    assert_eq!((first.id, first.code), (ids[0], 200));
    assert!(matches!(results.remove(0), Err(Error::Unknown)));
    let third = results.remove(0).unwrap();
    assert_eq!((third.id, third.code), (ids[2], 500));
}

#[test]
fn wait_over_more_ids_than_scripted_defaults_to_unknown() {
    let mut t = StubTransport::new();
    let pending = three_pending(&mut t);
    t.statuses = vec![RequestStatus::Finished(200)];
    let results = PendingRequest::wait_all(pending, &mut t);
    assert_eq!(results.len(), 3);
    assert!(results[0].is_ok());
    assert!(matches!(results[1], Err(Error::Unknown)));
    assert!(matches!(results[2], Err(Error::Unknown)));
}
