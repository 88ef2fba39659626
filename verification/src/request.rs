//! Building a request and submitting it to the transport.

use vstd::prelude::*;

use crate::transport::{Call, RequestId, Timestamp, Transport};
use crate::wait::PendingRequest;

verus! {

/// Request method (HTTP verb).
#[derive(Clone, PartialEq, Eq, Debug)]
pub enum Method {
    /// GET request
    Get,
    /// POST request
    Post,
    /// PUT request
    Put,
    /// PATCH request
    Patch,
    /// DELETE request
    Delete,
    /// Custom verb
    Other(&'static str),
}

impl View for Method {
    type V = Seq<char>;

    open spec fn view(&self) -> Seq<char> {
        match *self {
            Method::Get => "GET"@,
            Method::Post => "POST"@,
            Method::Put => "PUT"@,
            Method::Patch => "PATCH"@,
            Method::Delete => "DELETE"@,
            Method::Other(m) => m@,
        }
    }
}

impl Method {
    /// The verb as text, as it goes over the wire.
    pub fn as_str(&self) -> (r: &str)
        ensures
            r@ == self@,
    {
        match *self {
            Method::Get => "GET",
            Method::Post => "POST",
            Method::Put => "PUT",
            Method::Patch => "PATCH",
            Method::Delete => "DELETE",
            Method::Other(m) => m,
        }
    }
}

/// What a [`Request`] holds, as a ghost value.
pub struct RequestModel {
    /// The verb, as text.
    pub method: Seq<char>,
    /// The URL.
    pub url: Seq<char>,
    /// The body chunks, in order.
    pub body: Seq<Seq<u8>>,
    /// The deadline for sending, if any.
    pub deadline: Option<Timestamp>,
    /// The headers, in insertion order.
    pub headers: Seq<(Seq<char>, Seq<char>)>,
}

/// An HTTP request builder. Mutated in place while being built; consumed
/// by [`Request::send`].
pub struct Request<'a> {
    /// Request method
    pub method: Method,
    /// Request URL
    pub url: &'a str,
    /// Body of the request: a finite, possibly empty, ordered sequence
    /// of byte chunks.
    pub body: Vec<Vec<u8>>,
    /// Deadline to finish sending the request
    pub deadline: Option<Timestamp>,
    /// Request list of headers.
    headers: Vec<(String, String)>,
}

impl<'a> View for Request<'a> {
    type V = RequestModel;

    closed spec fn view(&self) -> RequestModel {
        RequestModel {
            method: self.method@,
            url: self.url@,
            body: self.body.deep_view(),
            deadline: self.deadline,
            headers: self.headers.deep_view(),
        }
    }
}

/// The transport calls that attach the given headers to the request `id`,
/// in insertion order.
pub open spec fn header_calls(id: RequestId, headers: Seq<(Seq<char>, Seq<char>)>) -> Seq<Call> {
    headers.map_values(|h: (Seq<char>, Seq<char>)| Call::AddHeader { id, name: h.0, value: h.1 })
}

/// The transport calls that write the given chunks to the request `id`,
/// all succeeding.
pub open spec fn ok_write_calls(id: RequestId, chunks: Seq<Seq<u8>>) -> Seq<Call> {
    chunks.map_values(|c: Seq<u8>| Call::WriteBody { id, chunk: c, ok: true })
}

/// The whole transport history of a successful send of `req` under the
/// id `id`: start, every header in insertion order, every body chunk in
/// order, then one final empty-chunk write that finalizes the request.
pub open spec fn send_success_log(log0: Seq<Call>, req: RequestModel, id: RequestId) -> Seq<Call> {
    log0 + seq![
        Call::Start { id, method: req.method, url: req.url, meta: Seq::<u8>::empty() },
    ] + header_calls(id, req.headers) + ok_write_calls(id, req.body) + seq![
        Call::WriteBody { id, chunk: Seq::<u8>::empty(), ok: true },
    ]
}

/// The whole transport history of a send of `req` that aborted at its
/// `j`-th body write: the writes before `j` succeeded, the write of
/// chunk `j` (or of the final empty chunk, when `j` is the chunk count)
/// failed, and nothing was retried.
pub open spec fn send_aborted_log(
    log0: Seq<Call>,
    req: RequestModel,
    id: RequestId,
    j: int,
) -> Seq<Call> {
    log0 + seq![
        Call::Start { id, method: req.method, url: req.url, meta: Seq::<u8>::empty() },
    ] + header_calls(id, req.headers) + ok_write_calls(id, req.body.take(j)) + seq![
        Call::WriteBody {
            id,
            chunk: if j < req.body.len() {
                req.body[j]
            } else {
                Seq::<u8>::empty()
            },
            ok: false,
        },
    ]
}

impl<'a> Request<'a> {
    /// Create new Request builder with given URL: GET, no headers, no
    /// body, no deadline.
    pub fn new(url: &'a str) -> (r: Self)
        ensures
            r@ == (RequestModel {
                method: Method::Get@,
                url: url@,
                body: Seq::<Seq<u8>>::empty(),
                deadline: None,
                headers: Seq::<(Seq<char>, Seq<char>)>::empty(),
            }),
    {
        let mut req = Request::default();
        req.url(url);
        req
    }

    /// Change the URL of the request.
    pub fn url(&mut self, url: &'a str) -> (r: &mut Self)
        ensures
            r@ == (RequestModel { url: url@, ..old(self)@ }),
            final(self)@ == final(r)@,
    {
        self.url = url;
        self
    }

    /// Set the body of the request.
    pub fn body(&mut self, body: Vec<Vec<u8>>) -> (r: &mut Self)
        ensures
            r@ == (RequestModel { body: body.deep_view(), ..old(self)@ }),
            final(self)@ == final(r)@,
    {
        self.body = body;
        self
    }

    /// Add a header.
    pub fn add_header(&mut self, name: &str, value: &str) -> (r: &mut Self)
        ensures
            r@ == (RequestModel { headers: old(self)@.headers.push((name@, value@)), ..old(self)@ }),
            final(self)@ == final(r)@,
    {
        self.headers.push((name.to_owned(), value.to_owned()));
        proof {
            assert(self.headers.deep_view() =~= old(self).headers.deep_view().push(
                (name@, value@),
            ));
        }
        self
    }

    /// Set the deadline of the request.
    pub fn deadline(&mut self, deadline: Timestamp) -> (r: &mut Self)
        ensures
            r@ == (RequestModel { deadline: Some(deadline), ..old(self)@ }),
            final(self)@ == final(r)@,
    {
        self.deadline = Some(deadline);
        self
    }

    /// Send the request and return a handle to it.
    ///
    /// Issues one `start`, replays each added header in insertion order,
    /// writes the body chunks in order, then one final empty-chunk write
    /// to finalize the request. `Err` is returned in case the deadline
    /// is reached or the request times out during a write; the send is
    /// aborted at that write, with no partial-send retry.
    pub fn send<T: Transport>(self, t: &mut T) -> (r: Result<PendingRequest, ()>)
        ensures
            r matches Ok(p) ==> final(t).log() == send_success_log(old(t).log(), self@, p.id),
            r is Err ==> exists|id: RequestId, j: int|
                0 <= j <= self@.body.len() && final(t).log() == #[trigger] send_aborted_log(
                    old(t).log(),
                    self@,
                    id,
                    j,
                ),
    {
        let meta: Vec<u8> = Vec::new();

        // start an http request.
        let id = t.start(self.method.as_str(), self.url, meta.as_slice());

        // add custom headers
        let ghost hv = self@.headers;
        let mut i: usize = 0;
        while i < self.headers.len()
            invariant
                0 <= i <= self.headers.len(),
                hv == self.headers.deep_view(),
                t.log() == old(t).log() + seq![
                    Call::Start {
                        id,
                        method: self.method@,
                        url: self.url@,
                        meta: Seq::<u8>::empty(),
                    },
                ] + header_calls(id, hv.take(i as int)),
            decreases self.headers.len() - i,
        {
            t.add_header(id, self.headers[i].0.as_str(), self.headers[i].1.as_str());
            proof {
                assert(header_calls(id, hv.take(i + 1 as int)) =~= header_calls(
                    id,
                    hv.take(i as int),
                ).push(Call::AddHeader { id, name: hv[i as int].0, value: hv[i as int].1 }));
            }
            i = i + 1;
        }
        proof {
            assert(hv.take(self.headers.len() as int) =~= hv);
        }

        // write body
        let ghost bv = self@.body;
        let mut j: usize = 0;
        while j < self.body.len()
            invariant
                0 <= j <= self.body.len(),
                bv == self.body.deep_view(),
                hv == self.headers.deep_view(),
                t.log() == old(t).log() + seq![
                    Call::Start {
                        id,
                        method: self.method@,
                        url: self.url@,
                        meta: Seq::<u8>::empty(),
                    },
                ] + header_calls(id, hv) + ok_write_calls(id, bv.take(j as int)),
            decreases self.body.len() - j,
        {
            let w = t.write_body(id, self.body[j].as_slice(), self.deadline);
            proof {
                assert(bv[j as int] =~= self.body@[j as int]@);
            }
            if w.is_err() {
                proof {
                    assert(t.log() =~= send_aborted_log(old(t).log(), self@, id, j as int));
                }
                return Err(());
            }
            proof {
                assert(ok_write_calls(id, bv.take(j + 1 as int)) =~= ok_write_calls(
                    id,
                    bv.take(j as int),
                ).push(Call::WriteBody { id, chunk: bv[j as int], ok: true }));
                assert(t.log() =~= old(t).log() + seq![
                    Call::Start {
                        id,
                        method: self.method@,
                        url: self.url@,
                        meta: Seq::<u8>::empty(),
                    },
                ] + header_calls(id, hv) + ok_write_calls(id, bv.take(j + 1 as int)));
            }
            j = j + 1;
        }
        proof {
            assert(bv.take(self.body.len() as int) =~= bv);
        }

        // finalise the request
        let empty_chunk: Vec<u8> = Vec::new();
        let w = t.write_body(id, empty_chunk.as_slice(), self.deadline);
        if w.is_err() {
            proof {
                assert(bv.take(bv.len() as int) =~= bv);
                assert(t.log() =~= send_aborted_log(old(t).log(), self@, id, bv.len() as int));
            }
            return Err(());
        }

        proof {
            assert(t.log() =~= send_success_log(old(t).log(), self@, id));
        }
        Ok(PendingRequest { id })
    }
}

impl<'a> Default for Request<'a> {
    /// A GET of `http://localhost` with no headers, no body, no deadline.
    fn default() -> (r: Self)
        ensures
            r@ == (RequestModel {
                method: Method::Get@,
                url: "http://localhost"@,
                body: Seq::<Seq<u8>>::empty(),
                deadline: None,
                headers: Seq::<(Seq<char>, Seq<char>)>::empty(),
            }),
    {
        let r = Request {
            method: Method::Get,
            url: "http://localhost",
            headers: Vec::new(),
            body: Vec::new(),
            deadline: None,
        };
        proof {
            assert(r.headers.deep_view() =~= Seq::<(Seq<char>, Seq<char>)>::empty());
            assert(r.body.deep_view() =~= Seq::<Seq<u8>>::empty());
        }
        r
    }
}

} // verus!
