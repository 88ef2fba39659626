//! A response: id and status code, with a lazily fetched, cached header
//! snapshot and on-demand body cursors.

use vstd::prelude::*;

use crate::body::ResponseBody;
use crate::headers::Headers;
use crate::transport::{Call, RequestId, Transport};

verus! {

/// What a [`Response`] holds, as a ghost value.
pub struct ResponseModel {
    /// The id of the request this response answers.
    pub id: RequestId,
    /// The response status code.
    pub code: u16,
    /// The cached header snapshot, once fetched.
    pub headers: Option<Seq<(Seq<u8>, Seq<u8>)>>,
}

/// A HTTP response.
#[derive(Debug)]
pub struct Response {
    /// Request id
    pub id: RequestId,
    /// Response status code
    pub code: u16,
    /// A collection of headers.
    headers: Option<Headers>,
}

impl View for Response {
    type V = ResponseModel;

    closed spec fn view(&self) -> ResponseModel {
        ResponseModel {
            id: self.id,
            code: self.code,
            headers: match self.headers {
                Some(h) => Some(h@),
                None => None,
            },
        }
    }
}

impl Response {
    /// A freshly resolved response: no headers fetched yet.
    pub(crate) fn new(id: RequestId, code: u16) -> (r: Self)
        ensures
            r@ == (ResponseModel { id, code, headers: None }),
    {
        Self { id, code, headers: None }
    }

    /// Retrieve the headers for this response.
    ///
    /// The first call triggers exactly one transport read; the result is
    /// cached for the life of this response (snapshot semantics), and
    /// later calls touch the transport not at all.
    pub fn headers<T: Transport>(&mut self, t: &mut T) -> (r: &Headers)
        ensures
            final(self)@.id == old(self)@.id,
            final(self)@.code == old(self)@.code,
            final(self)@.headers == Some(r@),
            old(self)@.headers matches Some(h) ==> final(self)@ == old(self)@ && *final(t) == *old(
                t,
            ),
            old(self)@.headers is None ==> final(t).log() == old(t).log().push(
                Call::ReadHeaders { id: old(self)@.id, raw: r@ },
            ),
    {
        if self.headers.is_none() {
            let raw = t.read_headers(self.id);
            self.headers = Some(Headers { raw });
        }
        match self.headers.as_ref() {
            Some(h) => h,
            None => vstd::pervasive::unreached(),
        }
    }

    /// Retrieve the body of this response: always a fresh cursor
    /// starting at offset zero, performing its own transport reads.
    pub fn body(&self) -> (r: ResponseBody)
        ensures
            r@.well_formed(),
            r@.id == self@.id,
            !r@.deadline_reached,
            r@.filled_up_to is None,
            r@.position == 0,
            r@.deadline is None,
    {
        ResponseBody::new(self.id)
    }
}

} // verus!
