//! The transport boundary: the narrow operation set through which the
//! external execution environment is reached, together with the ghost
//! record of the calls made into it.

use vstd::prelude::*;

verus! {

/// A point in time, as the execution environment counts it
/// (milliseconds since an arbitrary epoch).
pub type Timestamp = u64;

/// Identifier of a submitted request, issued by the transport.
/// Unique while the request is outstanding; not reused.
pub type RequestId = u16;

/// Status of a submitted request, as the transport reports it.
#[derive(Clone, Copy, PartialEq, Eq, Debug)]
pub enum RequestStatus {
    /// The caller's time budget ran out before the request resolved.
    /// The only non-terminal status: the request is still outstanding.
    DeadlineReached,
    /// The transport's own timeout fired. Terminal.
    Timeout,
    /// The transport failed in some opaque way. Terminal.
    Unknown,
    /// The request finished with the given numeric status code. Terminal.
    Finished(u16),
}

/// The byte pairs of a header list, as a ghost value.
pub open spec fn raw_pairs_view(raw: Seq<(Vec<u8>, Vec<u8>)>) -> Seq<(Seq<u8>, Seq<u8>)> {
    raw.map_values(|p: (Vec<u8>, Vec<u8>)| (p.0@, p.1@))
}

/// One call into the transport, with its arguments and what it returned:
/// the ghost record over which the library's contracts speak.
pub enum Call {
    /// A request was begun; the transport issued `id` for it.
    Start { id: RequestId, method: Seq<char>, url: Seq<char>, meta: Seq<u8> },
    /// A header was attached to the request `id`.
    AddHeader { id: RequestId, name: Seq<char>, value: Seq<char> },
    /// A body chunk was written to the request `id`; `ok` says whether
    /// the write succeeded.
    WriteBody { id: RequestId, chunk: Seq<u8>, ok: bool },
    /// The given requests were waited on; `statuses` is what came back,
    /// positionally aligned with `ids`.
    Wait { ids: Seq<RequestId>, deadline: Option<Timestamp>, statuses: Seq<RequestStatus> },
    /// The response headers of `id` were fetched; `raw` is what came back.
    ReadHeaders { id: RequestId, raw: Seq<(Seq<u8>, Seq<u8>)> },
    /// A body read was issued for `id`; `got` holds the bytes that came
    /// back, or `None` if the read failed (deadline or transport error).
    ReadBody { id: RequestId, got: Option<Seq<u8>> },
}

/// The external execution environment. The six operations are the whole
/// boundary: connection setup, encryption and I/O live behind them.
///
/// Each operation appends one entry to the ghost [`Call`] log, recording
/// its arguments and its result; beyond that, a transport is free in what
/// it returns, except that a wait given no deadline never reports
/// [`RequestStatus::DeadlineReached`] (reporting an exhausted time budget
/// to a caller that set no budget would be a contract breach).
pub trait Transport: Sized {
    /// The history of calls made into this transport, with their results.
    spec fn log(&self) -> Seq<Call>;

    /// A bound on how many more body reads may come back with zero
    /// bytes: "nothing yet" cannot be the answer forever, so a body
    /// read either returns data, fails, or lowers this bound.
    spec fn zero_read_bound(&self) -> nat;

    /// Begin a new request. The returned id identifies it from here on.
    fn start(&mut self, method: &str, url: &str, meta: &[u8]) -> (id: RequestId)
        ensures
            final(self).log() == old(self).log().push(
                Call::Start { id, method: method@, url: url@, meta: meta@ },
            ),
    ;

    /// Attach one header to the not-yet-finalized request `id`.
    fn add_header(&mut self, id: RequestId, name: &str, value: &str)
        ensures
            final(self).log() == old(self).log().push(
                Call::AddHeader { id, name: name@, value: value@ },
            ),
    ;

    /// Write one body chunk of the request `id`; an empty chunk finalizes
    /// the request. `Err` means the deadline was reached or the request
    /// timed out while writing.
    fn write_body(&mut self, id: RequestId, chunk: &[u8], deadline: Option<Timestamp>) -> (r:
        Result<(), ()>)
        ensures
            final(self).log() == old(self).log().push(
                Call::WriteBody { id, chunk: chunk@, ok: r is Ok },
            ),
    ;

    /// Resolve the given requests: one status per id, positionally
    /// aligned. Blocks until every id resolves or the deadline fires;
    /// with no deadline, no status can be `DeadlineReached`.
    fn wait(&mut self, ids: &Vec<RequestId>, deadline: Option<Timestamp>) -> (statuses: Vec<
        RequestStatus,
    >)
        ensures
            statuses@.len() == ids@.len(),
            deadline is None ==> forall|i: int|
                0 <= i < statuses@.len() ==> !(statuses@[i] is DeadlineReached),
            final(self).log() == old(self).log().push(
                Call::Wait { ids: ids@, deadline, statuses: statuses@ },
            ),
    ;

    /// Fetch the response headers of the finished request `id`, in
    /// arrival order, duplicates permitted.
    fn read_headers(&mut self, id: RequestId) -> (raw: Vec<(Vec<u8>, Vec<u8>)>)
        ensures
            final(self).log() == old(self).log().push(
                Call::ReadHeaders { id, raw: raw_pairs_view(raw@) },
            ),
    ;

    /// Read the next piece of the response body of `id` into a prefix of
    /// `buffer`, leaving the buffer's length unchanged. `Ok(n)` says the
    /// first `n` bytes of `buffer` now hold body data; `n == 0` means
    /// only that nothing was available yet, not end of stream. `Err`
    /// means the deadline was reached or the transport failed; the
    /// stream is over.
    fn read_body(&mut self, id: RequestId, buffer: &mut Vec<u8>, deadline: Option<Timestamp>) -> (r:
        Result<usize, ()>)
        ensures
            final(buffer)@.len() == old(buffer)@.len(),
            r matches Ok(n) ==> n <= final(buffer)@.len(),
            r == Ok::<usize, ()>(0usize) ==> final(self).zero_read_bound() < old(
                self,
            ).zero_read_bound(),
            final(self).log() == old(self).log().push(
                Call::ReadBody {
                    id,
                    got: match r {
                        Ok(n) => Some(final(buffer)@.take(n as int)),
                        Err(_) => None,
                    },
                },
            ),
    ;
}

} // verus!
