//! Pending handles and the coordinator that waits on them: single and
//! batched waiting, deadline handling, status-to-outcome mapping, and
//! ownership return on recoverable failure.

use vstd::prelude::*;

use crate::response::{Response, ResponseModel};
use crate::transport::{Call, RequestId, RequestStatus, Timestamp, Transport};

verus! {

/// A request error.
#[derive(Clone, Copy, PartialEq, Eq, Debug)]
pub enum Error {
    /// Deadline has been reached: the caller's time budget was
    /// exhausted. Recoverable — the handle is returned to the caller.
    DeadlineReached,
    /// Request had timed out at the transport. Terminal.
    Timeout,
    /// Unknown error has been encountered. Terminal.
    Unknown,
}

/// A struct representing an uncompleted http request. Owns exactly one
/// [`RequestId`]; consumed by a wait call on a terminal status, handed
/// back to the caller when only the caller's deadline fired.
#[derive(PartialEq, Eq, Debug)]
pub struct PendingRequest {
    /// Request ID
    pub id: RequestId,
}

/// The ids of the given requests, in order.
pub open spec fn ids_of(requests: Seq<PendingRequest>) -> Seq<RequestId> {
    requests.map_values(|p: PendingRequest| p.id)
}

/// How one transport-reported status of one request maps to the
/// caller-visible outcome, independently of every other request:
/// `DeadlineReached` hands the identical handle back, `Timeout` and
/// `Unknown` are terminal errors, and `Finished` resolves to a response
/// carrying the handle's id and the reported code, with no headers
/// fetched yet.
pub open spec fn outcome_of(status: RequestStatus, req: PendingRequest) -> Result<
    Result<ResponseModel, Error>,
    PendingRequest,
> {
    match status {
        RequestStatus::DeadlineReached => Err(req),
        RequestStatus::Timeout => Ok(Err(Error::Timeout)),
        RequestStatus::Unknown => Ok(Err(Error::Unknown)),
        RequestStatus::Finished(code) => Ok(Ok(ResponseModel { id: req.id, code, headers: None })),
    }
}

/// A single-request result, as a ghost value.
pub open spec fn response_result_view(r: Result<Response, Error>) -> Result<ResponseModel, Error> {
    match r {
        Ok(resp) => Ok(resp@),
        Err(e) => Err(e),
    }
}

/// A single-request outcome, as a ghost value.
pub open spec fn outcome_view(r: Result<Result<Response, Error>, PendingRequest>) -> Result<
    Result<ResponseModel, Error>,
    PendingRequest,
> {
    match r {
        Ok(inner) => Ok(response_result_view(inner)),
        Err(p) => Err(p),
    }
}

impl PendingRequest {
    /// Wait for the request to complete.
    ///
    /// NOTE this waits for the request indefinitely: no deadline is
    /// given, so the transport can never report `DeadlineReached`.
    pub fn wait<T: Transport>(self, t: &mut T) -> (r: Result<Response, Error>)
        ensures
            exists|s: RequestStatus|
                {
                    &&& !(s is DeadlineReached)
                    &&& final(t).log() == #[trigger] old(t).log().push(
                        Call::Wait { ids: seq![self.id], deadline: None, statuses: seq![s] },
                    )
                    &&& Ok::<_, PendingRequest>(response_result_view(r)) == outcome_of(s, self)
                },
            r matches Ok(resp) ==> resp@.id == self.id && resp@.headers is None,
    {
        match self.try_wait(None, t) {
            Ok(inner) => inner,
            Err(_) => vstd::pervasive::unreached(),
        }
    }

    /// Attempts to wait for the request to finish, but will return
    /// `Err`, carrying this same handle back, in case the deadline is
    /// reached.
    pub fn try_wait<T: Transport>(self, deadline: Option<Timestamp>, t: &mut T) -> (r: Result<
        Result<Response, Error>,
        PendingRequest,
    >)
        ensures
            exists|s: RequestStatus|
                {
                    &&& final(t).log() == #[trigger] old(t).log().push(
                        Call::Wait { ids: seq![self.id], deadline, statuses: seq![s] },
                    )
                    &&& outcome_view(r) == outcome_of(s, self)
                    &&& (deadline is None ==> !(s is DeadlineReached))
                },
            r matches Err(p) ==> p == self,
            deadline is None ==> r is Ok,
    {
        let reqs = vec![self];
        let ghost reqs0 = reqs@;
        let mut rs = Self::try_wait_all(reqs, deadline, t);
        proof {
            assert(ids_of(reqs0) =~= seq![self.id]);
            let ss = choose|ss: Seq<RequestStatus>|
                {
                    &&& ss.len() == reqs0.len()
                    &&& final(t).log() == old(t).log().push(
                        Call::Wait { ids: ids_of(reqs0), deadline, statuses: ss },
                    )
                    &&& (forall|i: int|
                        0 <= i < reqs0.len() ==> outcome_view(#[trigger] rs@[i]) == outcome_of(
                            ss[i],
                            reqs0[i],
                        ))
                    &&& (deadline is None ==> forall|i: int|
                        0 <= i < ss.len() ==> !(#[trigger] ss[i] is DeadlineReached))
                };
            assert(ss =~= seq![ss[0]]);
        }
        match rs.pop() {
            Some(x) => x,
            None => vstd::pervasive::unreached(),
        }
    }

    /// Wait for all provided requests, indefinitely: no deadline is
    /// given, so every request resolves terminally.
    pub fn wait_all<T: Transport>(requests: Vec<PendingRequest>, t: &mut T) -> (r: Vec<
        Result<Response, Error>,
    >)
        ensures
            r@.len() == requests@.len(),
            exists|ss: Seq<RequestStatus>|
                {
                    &&& ss.len() == requests@.len()
                    &&& final(t).log() == #[trigger] old(t).log().push(
                        Call::Wait { ids: ids_of(requests@), deadline: None, statuses: ss },
                    )
                    &&& (forall|i: int| 0 <= i < ss.len() ==> !(#[trigger] ss[i] is DeadlineReached))
                    &&& (forall|i: int|
                        0 <= i < requests@.len() ==> Ok::<_, PendingRequest>(
                            response_result_view(#[trigger] r@[i]),
                        ) == outcome_of(ss[i], requests@[i]))
                },
    {
        let ghost requests0 = requests@;
        let mut pending = Self::try_wait_all(requests, None, t);
        let ghost pending0 = pending@;
        let mut out: Vec<Result<Response, Error>> = Vec::new();
        while pending.len() > 0
            invariant
                pending0.len() == requests0.len(),
                out@.len() + pending@.len() == pending0.len(),
                pending@ =~= pending0.skip(out@.len() as int),
                forall|i: int| 0 <= i < pending0.len() ==> (#[trigger] pending0[i]) is Ok,
                forall|i: int|
                    0 <= i < out@.len() ==> Ok::<_, PendingRequest>(
                        response_result_view(#[trigger] out@[i]),
                    ) == outcome_view(pending0[i]),
            decreases pending@.len(),
        {
            let x = pending.remove(0);
            proof {
                assert(pending0[out@.len() as int] == x);
                assert(pending@ =~= pending0.skip(out@.len() + 1 as int));
            }
            match x {
                Ok(v) => out.push(v),
                Err(_) => vstd::pervasive::unreached(),
            }
        }
        proof {
            let ss = choose|ss: Seq<RequestStatus>|
                {
                    &&& ss.len() == requests0.len()
                    &&& final(t).log() == old(t).log().push(
                        Call::Wait { ids: ids_of(requests0), deadline: None, statuses: ss },
                    )
                    &&& (forall|i: int|
                        0 <= i < requests0.len() ==> outcome_view(#[trigger] pending0[i])
                            == outcome_of(ss[i], requests0[i]))
                    &&& (None::<Timestamp> is None ==> forall|i: int|
                        0 <= i < ss.len() ==> !(#[trigger] ss[i] is DeadlineReached))
                };
            assert(forall|i: int|
                0 <= i < requests0.len() ==> Ok::<_, PendingRequest>(
                    response_result_view(#[trigger] out@[i]),
                ) == outcome_of(ss[i], requests0[i]));
        }
        out
    }

    /// Attempt to wait for all provided requests, but up to given
    /// deadline.
    ///
    /// Issues exactly one transport wait over the ids of `requests`, in
    /// input order, and maps each reported status independently of the
    /// others: requests that completed resolve to an `Ok`, and a
    /// `DeadlineReached` status hands the request's live handle back as
    /// an `Err` so the caller may retry with a fresh deadline. The
    /// output order equals the input order exactly.
    pub fn try_wait_all<T: Transport>(
        requests: Vec<PendingRequest>,
        deadline: Option<Timestamp>,
        t: &mut T,
    ) -> (r: Vec<Result<Result<Response, Error>, PendingRequest>>)
        ensures
            r@.len() == requests@.len(),
            exists|ss: Seq<RequestStatus>|
                {
                    &&& ss.len() == requests@.len()
                    &&& final(t).log() == #[trigger] old(t).log().push(
                        Call::Wait { ids: ids_of(requests@), deadline, statuses: ss },
                    )
                    &&& (forall|i: int|
                        0 <= i < requests@.len() ==> outcome_view(#[trigger] r@[i]) == outcome_of(
                            ss[i],
                            requests@[i],
                        ))
                    &&& (deadline is None ==> forall|i: int|
                        0 <= i < ss.len() ==> !(#[trigger] ss[i] is DeadlineReached))
                },
            forall|i: int|
                0 <= i < requests@.len() ==> ((#[trigger] r@[i]) matches Err(p) ==> p
                    == requests@[i]),
            deadline is None ==> forall|i: int| 0 <= i < r@.len() ==> (#[trigger] r@[i]) is Ok,
    {
        let mut ids: Vec<RequestId> = Vec::new();
        let mut i: usize = 0;
        while i < requests.len()
            invariant
                0 <= i <= requests@.len(),
                ids@ == ids_of(requests@.take(i as int)),
            decreases requests@.len() - i,
        {
            ids.push(requests[i].id);
            proof {
                assert(ids_of(requests@.take(i + 1 as int)) =~= ids_of(
                    requests@.take(i as int),
                ).push(requests@[i as int].id));
            }
            i = i + 1;
        }
        proof {
            assert(requests@.take(requests@.len() as int) =~= requests@);
        }

        let statuses = t.wait(&ids, deadline);
        let ghost logw = t.log();

        let mut out: Vec<Result<Result<Response, Error>, PendingRequest>> = Vec::new();
        let mut j: usize = 0;
        while j < requests.len()
            invariant
                statuses@.len() == requests@.len(),
                0 <= j <= requests@.len(),
                out@.len() == j,
                t.log() == logw,
                forall|k: int|
                    0 <= k < j ==> outcome_view(#[trigger] out@[k]) == outcome_of(
                        statuses@[k],
                        requests@[k],
                    ),
                forall|k: int|
                    0 <= k < j ==> ((#[trigger] out@[k]) matches Err(p) ==> p == requests@[k]),
            decreases requests@.len() - j,
        {
            let req_id = requests[j].id;
            let item: Result<Result<Response, Error>, PendingRequest> = match statuses[j] {
                RequestStatus::DeadlineReached => Err(PendingRequest { id: req_id }),
                RequestStatus::Timeout => Ok(Err(Error::Timeout)),
                RequestStatus::Unknown => Ok(Err(Error::Unknown)),
                RequestStatus::Finished(code) => Ok(Ok(Response::new(req_id, code))),
            };
            proof {
                assert(requests@[j as int] == PendingRequest { id: requests@[j as int].id });
            }
            out.push(item);
            j = j + 1;
        }
        out
    }
}

} // verus!
