//! A deterministic transport double: records every call and plays
//! scripted responses. It meets the full [`Transport`] contract, so
//! everything proved against that trait holds when driven by it.

use vstd::prelude::*;
use vstd::slice::slice_to_vec;

use crate::transport::{raw_pairs_view, Call, RequestId, RequestStatus, Timestamp, Transport};

verus! {

/// One recorded call, as plain values; its view is the ghost [`Call`].
#[derive(Clone, PartialEq, Eq, Debug)]
pub enum CallRecord {
    /// A `start` call and the id it returned.
    Start { id: RequestId, method: String, url: String, meta: Vec<u8> },
    /// An `add_header` call.
    AddHeader { id: RequestId, name: String, value: String },
    /// A `write_body` call and whether it succeeded.
    WriteBody { id: RequestId, chunk: Vec<u8>, ok: bool },
    /// A `wait` call and the statuses it returned.
    Wait { ids: Vec<RequestId>, deadline: Option<Timestamp>, statuses: Vec<RequestStatus> },
    /// A `read_headers` call and the pairs it returned.
    ReadHeaders { id: RequestId, raw: Vec<(Vec<u8>, Vec<u8>)> },
    /// A `read_body` call and the bytes it returned, if it succeeded.
    ReadBody { id: RequestId, got: Option<Vec<u8>> },
}

impl View for CallRecord {
    type V = Call;

    open spec fn view(&self) -> Call {
        match self {
            CallRecord::Start { id, method, url, meta } => Call::Start {
                id: *id,
                method: method@,
                url: url@,
                meta: meta@,
            },
            CallRecord::AddHeader { id, name, value } => Call::AddHeader {
                id: *id,
                name: name@,
                value: value@,
            },
            CallRecord::WriteBody { id, chunk, ok } => Call::WriteBody {
                id: *id,
                chunk: chunk@,
                ok: *ok,
            },
            CallRecord::Wait { ids, deadline, statuses } => Call::Wait {
                ids: ids@,
                deadline: *deadline,
                statuses: statuses@,
            },
            CallRecord::ReadHeaders { id, raw } => Call::ReadHeaders {
                id: *id,
                raw: raw_pairs_view(raw@),
            },
            CallRecord::ReadBody { id, got } => Call::ReadBody {
                id: *id,
                got: match got {
                    Some(v) => Some(v@),
                    None => None,
                },
            },
        }
    }
}

impl DeepView for CallRecord {
    type V = Call;

    open spec fn deep_view(&self) -> Call {
        self@
    }
}

/// Copy a byte vector.
fn copy_bytes(v: &Vec<u8>) -> (r: Vec<u8>)
    ensures
        r@ == v@,
{
    let mut r: Vec<u8> = Vec::new();
    let mut i: usize = 0;
    while i < v.len()
        invariant
            0 <= i <= v@.len(),
            r@ == v@.take(i as int),
        decreases v@.len() - i,
    {
        r.push(v[i]);
        proof {
            assert(v@.take(i + 1 as int) =~= v@.take(i as int).push(v@[i as int]));
        }
        i = i + 1;
    }
    proof {
        assert(v@.take(v@.len() as int) =~= v@);
    }
    r
}

/// Copy a vector of ids.
fn copy_ids(v: &Vec<RequestId>) -> (r: Vec<RequestId>)
    ensures
        r@ == v@,
{
    let mut r: Vec<RequestId> = Vec::new();
    let mut i: usize = 0;
    while i < v.len()
        invariant
            0 <= i <= v@.len(),
            r@ == v@.take(i as int),
        decreases v@.len() - i,
    {
        r.push(v[i]);
        proof {
            assert(v@.take(i + 1 as int) =~= v@.take(i as int).push(v@[i as int]));
        }
        i = i + 1;
    }
    proof {
        assert(v@.take(v@.len() as int) =~= v@);
    }
    r
}

/// Copy a vector of statuses.
fn copy_statuses(v: &Vec<RequestStatus>) -> (r: Vec<RequestStatus>)
    ensures
        r@ == v@,
{
    let mut r: Vec<RequestStatus> = Vec::new();
    let mut i: usize = 0;
    while i < v.len()
        invariant
            0 <= i <= v@.len(),
            r@ == v@.take(i as int),
        decreases v@.len() - i,
    {
        r.push(v[i]);
        proof {
            assert(v@.take(i + 1 as int) =~= v@.take(i as int).push(v@[i as int]));
        }
        i = i + 1;
    }
    proof {
        assert(v@.take(v@.len() as int) =~= v@);
    }
    r
}

/// Copy a header pair list.
fn copy_pairs(v: &Vec<(Vec<u8>, Vec<u8>)>) -> (r: Vec<(Vec<u8>, Vec<u8>)>)
    ensures
        raw_pairs_view(r@) == raw_pairs_view(v@),
{
    let mut r: Vec<(Vec<u8>, Vec<u8>)> = Vec::new();
    let mut i: usize = 0;
    while i < v.len()
        invariant
            0 <= i <= v@.len(),
            raw_pairs_view(r@) == raw_pairs_view(v@.take(i as int)),
        decreases v@.len() - i,
    {
        let name = copy_bytes(&v[i].0);
        let value = copy_bytes(&v[i].1);
        r.push((name, value));
        proof {
            assert(raw_pairs_view(v@.take(i + 1 as int)) =~= raw_pairs_view(
                v@.take(i as int),
            ).push((v@[i as int].0@, v@[i as int].1@)));
            assert(raw_pairs_view(r@) =~= raw_pairs_view(v@.take(i as int)).push(
                (v@[i as int].0@, v@[i as int].1@),
            ));
        }
        i = i + 1;
    }
    proof {
        assert(v@.take(v@.len() as int) =~= v@);
    }
    r
}

/// A scripted, recording transport. Every call is appended to `calls`;
/// what the operations return is taken from the script queues, with a
/// safe default where a queue runs dry (writes succeed, waits report
/// `Unknown`, reads fail).
pub struct StubTransport {
    /// Every call made so far, in order, with its result.
    pub calls: Vec<CallRecord>,
    /// The id the next `start` call hands out; later ids count up.
    pub next_id: RequestId,
    /// Scripted outcomes for `write_body`, consumed front first.
    pub write_results: Vec<bool>,
    /// Scripted statuses for `wait`, consumed front first; a wait over
    /// more ids than are scripted reports `Unknown` for the rest.
    pub statuses: Vec<RequestStatus>,
    /// What `read_headers` returns.
    pub headers: Vec<(Vec<u8>, Vec<u8>)>,
    /// Scripted results for `read_body`, consumed front first: bytes to
    /// hand back, or `None` for a failure. A read past the script fails.
    pub reads: Vec<Option<Vec<u8>>>,
}

impl StubTransport {
    /// A stub with an empty record, empty scripts, ids from 1.
    pub fn new() -> (r: Self)
        ensures
            r.log() == Seq::<Call>::empty(),
            r.next_id == 1u16,
            r.write_results@ == Seq::<bool>::empty(),
            r.statuses@ == Seq::<RequestStatus>::empty(),
            raw_pairs_view(r.headers@) == Seq::<(Seq<u8>, Seq<u8>)>::empty(),
            r.reads@ == Seq::<Option<Vec<u8>>>::empty(),
    {
        let r = StubTransport {
            calls: Vec::new(),
            next_id: 1,
            write_results: Vec::new(),
            statuses: Vec::new(),
            headers: Vec::new(),
            reads: Vec::new(),
        };
        proof {
            assert(r.calls.deep_view() =~= Seq::<Call>::empty());
            assert(raw_pairs_view(r.headers@) =~= Seq::<(Seq<u8>, Seq<u8>)>::empty());
        }
        r
    }
}

impl Transport for StubTransport {
    open spec fn log(&self) -> Seq<Call> {
        self.calls.deep_view()
    }

    open spec fn zero_read_bound(&self) -> nat {
        self.reads@.len()
    }

    fn start(&mut self, method: &str, url: &str, meta: &[u8]) -> (id: RequestId) {
        let id = self.next_id;
        self.next_id = if self.next_id < 65535 {
            self.next_id + 1
        } else {
            // a test double never has this many requests outstanding
            1
        };
        self.calls.push(
            CallRecord::Start {
                id,
                method: method.to_owned(),
                url: url.to_owned(),
                meta: slice_to_vec(meta),
            },
        );
        proof {
            assert(self.calls.deep_view() =~= old(self).calls.deep_view().push(
                Call::Start { id, method: method@, url: url@, meta: meta@ },
            ));
        }
        id
    }

    fn add_header(&mut self, id: RequestId, name: &str, value: &str) {
        self.calls.push(
            CallRecord::AddHeader { id, name: name.to_owned(), value: value.to_owned() },
        );
        proof {
            assert(self.calls.deep_view() =~= old(self).calls.deep_view().push(
                Call::AddHeader { id, name: name@, value: value@ },
            ));
        }
    }

    fn write_body(&mut self, id: RequestId, chunk: &[u8], deadline: Option<Timestamp>) -> (r:
        Result<(), ()>) {
        let ok: bool = if self.write_results.len() > 0 {
            self.write_results.remove(0)
        } else {
            true
        };
        self.calls.push(CallRecord::WriteBody { id, chunk: slice_to_vec(chunk), ok });
        proof {
            assert(self.calls.deep_view() =~= old(self).calls.deep_view().push(
                Call::WriteBody { id, chunk: chunk@, ok },
            ));
        }
        if ok {
            Ok(())
        } else {
            Err(())
        }
    }

    fn wait(&mut self, ids: &Vec<RequestId>, deadline: Option<Timestamp>) -> (statuses: Vec<
        RequestStatus,
    >) {
        let mut out: Vec<RequestStatus> = Vec::new();
        let mut i: usize = 0;
        while i < ids.len()
            invariant
                out@.len() == i,
                0 <= i <= ids@.len(),
                deadline is None ==> forall|k: int|
                    0 <= k < i ==> !((#[trigger] out@[k]) is DeadlineReached),
                self.calls == old(self).calls,
            decreases ids@.len() - i,
        {
            let scripted: RequestStatus = if self.statuses.len() > 0 {
                self.statuses.remove(0)
            } else {
                RequestStatus::Unknown
            };
            let s: RequestStatus = match (scripted, deadline.is_none()) {
                // given no deadline, a conforming transport cannot
                // report an exhausted time budget
                (RequestStatus::DeadlineReached, true) => RequestStatus::Unknown,
                _ => scripted,
            };
            out.push(s);
            i = i + 1;
        }
        let ids_copy = copy_ids(ids);
        let statuses_copy = copy_statuses(&out);
        self.calls.push(CallRecord::Wait { ids: ids_copy, deadline, statuses: statuses_copy });
        proof {
            assert(self.calls.deep_view() =~= old(self).calls.deep_view().push(
                Call::Wait { ids: ids@, deadline, statuses: out@ },
            ));
        }
        out
    }

    fn read_headers(&mut self, id: RequestId) -> (raw: Vec<(Vec<u8>, Vec<u8>)>) {
        let raw = copy_pairs(&self.headers);
        let recorded = copy_pairs(&self.headers);
        self.calls.push(CallRecord::ReadHeaders { id, raw: recorded });
        proof {
            assert(self.calls.deep_view() =~= old(self).calls.deep_view().push(
                Call::ReadHeaders { id, raw: raw_pairs_view(raw@) },
            ));
        }
        raw
    }

    fn read_body(&mut self, id: RequestId, buffer: &mut Vec<u8>, deadline: Option<Timestamp>) -> (r:
        Result<usize, ()>) {
        if self.reads.len() == 0 {
            self.calls.push(CallRecord::ReadBody { id, got: None });
            proof {
                assert(self.calls.deep_view() =~= old(self).calls.deep_view().push(
                    Call::ReadBody { id, got: None },
                ));
            }
            return Err(());
        }
        let item = self.reads.remove(0);
        match item {
            None => {
                self.calls.push(CallRecord::ReadBody { id, got: None });
                proof {
                    assert(self.calls.deep_view() =~= old(self).calls.deep_view().push(
                        Call::ReadBody { id, got: None },
                    ));
                }
                Err(())
            },
            Some(data) => {
                let len0 = buffer.len();
                let n: usize = if data.len() <= len0 {
                    data.len()
                } else {
                    len0
                };
                let mut nb: Vec<u8> = Vec::new();
                let mut k: usize = 0;
                while k < n
                    invariant
                        0 <= k <= n <= data@.len(),
                        nb@ == data@.take(k as int),
                    decreases n - k,
                {
                    nb.push(data[k]);
                    proof {
                        assert(data@.take(k + 1 as int) =~= data@.take(k as int).push(
                            data@[k as int],
                        ));
                    }
                    k = k + 1;
                }
                while nb.len() < len0
                    invariant
                        n <= nb@.len() <= len0,
                        nb@.take(n as int) == data@.take(n as int),
                    decreases len0 - nb@.len(),
                {
                    nb.push(0);
                    proof {
                        assert(nb@.take(n as int) =~= data@.take(n as int));
                    }
                }
                let got = copy_bytes(&nb);
                let mut got_trunc = got;
                got_trunc.truncate(n);
                *buffer = nb;
                self.calls.push(CallRecord::ReadBody { id, got: Some(got_trunc) });
                proof {
                    assert(got_trunc@ =~= buffer@.take(n as int));
                    assert(self.calls.deep_view() =~= old(self).calls.deep_view().push(
                        Call::ReadBody { id, got: Some(buffer@.take(n as int)) },
                    ));
                }
                Ok(n)
            },
        }
    }
}

} // verus!
