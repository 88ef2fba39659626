//! A buffered, pull-based byte-stream cursor over a response body.

use vstd::prelude::*;

use crate::transport::{Call, RequestId, Timestamp, Transport};

verus! {

/// What a [`ResponseBody`] holds, as a ghost value.
pub struct BodyModel {
    /// The request whose body is being read.
    pub id: RequestId,
    /// Whether the stream has ended permanently (a read failed: deadline
    /// reached or transport error).
    pub deadline_reached: bool,
    /// The local buffer.
    pub buffer: Seq<u8>,
    /// How much of the buffer holds body data, if a fill is live.
    pub filled_up_to: Option<usize>,
    /// The read cursor within the fill.
    pub position: usize,
    /// The deadline re-evaluated on every refill.
    pub deadline: Option<Timestamp>,
}

impl BodyModel {
    /// The buffer is one fixed-size window, and a live fill lies within
    /// it, with the cursor inside the fill.
    pub open spec fn well_formed(self) -> bool {
        &&& self.buffer.len() == 4096
        &&& (self.filled_up_to matches Some(f) ==> self.position <= f <= self.buffer.len())
    }

    /// The buffer holds unconsumed body bytes, so the next byte comes
    /// from it and no underlying read is issued.
    pub open spec fn has_buffered(self) -> bool {
        &&& !self.deadline_reached
        &&& self.filled_up_to matches Some(f) && self.position < f
    }
}

/// The ghost record of `k` underlying reads of `id` that all returned
/// zero bytes: "nothing yet", not end of stream.
pub open spec fn zero_reads(id: RequestId, k: nat) -> Seq<Call> {
    Seq::new(k, |i: int| Call::ReadBody { id, got: Some(Seq::<u8>::empty()) })
}

/// The transport history of a refill that, after `k` zero-byte reads,
/// got `data`.
pub open spec fn refill_got(log0: Seq<Call>, id: RequestId, k: nat, data: Seq<u8>) -> Seq<Call> {
    log0 + zero_reads(id, k) + seq![Call::ReadBody { id, got: Some(data) }]
}

/// The transport history of a refill that, after `k` zero-byte reads,
/// failed.
pub open spec fn refill_failed(log0: Seq<Call>, id: RequestId, k: nat) -> Seq<Call> {
    log0 + zero_reads(id, k) + seq![Call::ReadBody { id, got: None }]
}

/// A buffered byte iterator over response body: a lazy, finite,
/// forward-only sequence of bytes, stitched together from underlying
/// reads through one fixed-size buffer.
#[derive(Debug)]
pub struct ResponseBody {
    id: RequestId,
    is_deadline_reached: bool,
    buffer: Vec<u8>,
    filled_up_to: Option<usize>,
    position: usize,
    deadline: Option<Timestamp>,
}

impl View for ResponseBody {
    type V = BodyModel;

    closed spec fn view(&self) -> BodyModel {
        BodyModel {
            id: self.id,
            deadline_reached: self.is_deadline_reached,
            buffer: self.buffer@,
            filled_up_to: self.filled_up_to,
            position: self.position,
            deadline: self.deadline,
        }
    }
}

impl ResponseBody {
    /// A fresh cursor over the body of `id`, starting at offset zero,
    /// with no deadline.
    pub(crate) fn new(id: RequestId) -> (r: Self)
        ensures
            r@ == (BodyModel {
                id,
                deadline_reached: false,
                buffer: Seq::new(4096, |i: int| 0u8),
                filled_up_to: None,
                position: 0usize,
                deadline: None,
            }),
            r@.well_formed(),
    {
        let buffer = vec![0u8; 4096];
        proof {
            assert(buffer@ =~= Seq::new(4096, |i: int| 0u8));
        }
        ResponseBody {
            id,
            is_deadline_reached: false,
            buffer,
            filled_up_to: None,
            position: 0,
            deadline: None,
        }
    }

    /// Set the deadline for reading the body; it is re-evaluated on
    /// every refill, not fixed at construction.
    pub fn deadline(&mut self, deadline: Option<Timestamp>)
        ensures
            final(self)@ == (BodyModel { deadline, ..old(self)@ }),
    {
        self.deadline = deadline;
    }

    /// Check if the iterator has finished because of reaching the
    /// deadline (or any other read failure).
    pub fn is_deadline_reached(&self) -> (r: bool)
        ensures
            r == self@.deadline_reached,
    {
        self.is_deadline_reached
    }

    /// The next byte of the body, if any.
    ///
    /// Yields from the local buffer while it holds unconsumed bytes,
    /// issuing no underlying read. Once the buffer is drained, reads
    /// from the transport, re-reading on zero-byte results (they mean
    /// "nothing yet", not end of stream) until a read yields data or
    /// fails; a failure sets the exhausted flag, and the stream then
    /// never yields again.
    pub fn next<T: Transport>(&mut self, t: &mut T) -> (r: Option<u8>)
        requires
            old(self)@.well_formed(),
        ensures
            final(self)@.well_formed(),
            final(self)@.id == old(self)@.id,
            final(self)@.deadline == old(self)@.deadline,
            r is None <==> final(self)@.deadline_reached,
            old(self)@.deadline_reached ==> final(self)@ == old(self)@ && *final(t) == *old(t),
            old(self)@.has_buffered() ==> *final(t) == *old(t) && r == Some(
                old(self)@.buffer[old(self)@.position as int],
            ) && final(self)@ == (BodyModel {
                position: (old(self)@.position + 1) as usize,
                ..old(self)@
            }),
            !old(self)@.deadline_reached && !old(self)@.has_buffered() && r is None ==> exists|
                k: nat,
            |
                final(t).log() == #[trigger] refill_failed(old(t).log(), old(self)@.id, k),
            !old(self)@.deadline_reached && !old(self)@.has_buffered() ==> (r matches Some(b)
                ==> exists|k: nat, data: Seq<u8>|
                {
                    &&& final(t).log() == #[trigger] refill_got(old(t).log(), old(self)@.id, k, data)
                    &&& data.len() > 0
                    &&& b == data[0]
                    &&& final(self)@ == (BodyModel {
                        filled_up_to: Some(data.len() as usize),
                        position: 1usize,
                        buffer: final(self)@.buffer,
                        ..old(self)@
                    })
                    &&& final(self)@.buffer.take(data.len() as int) == data
                }),
    {
        if self.is_deadline_reached {
            return None;
        }

        // yield from the buffer while it holds unconsumed bytes
        match self.filled_up_to {
            Some(f) => {
                if self.position < f {
                    let b = self.buffer[self.position];
                    self.position = self.position + 1;
                    return Some(b);
                }
                // fill drained: clear it and refill below
                self.filled_up_to = None;
            },
            None => {},
        }

        // refill, stitching over zero-byte reads
        let ghost log0 = t.log();
        let ghost id0 = self@.id;
        let ghost mut k: nat = 0nat;
        loop
            invariant
                self@.well_formed(),
                !self@.deadline_reached,
                self@.filled_up_to is None,
                self@.id == old(self)@.id,
                self@.deadline == old(self)@.deadline,
                id0 == old(self)@.id,
                !old(self)@.deadline_reached,
                !old(self)@.has_buffered(),
                t.log() == log0 + zero_reads(id0, k),
                log0 == old(t).log(),
            decreases t.zero_read_bound(),
        {
            let res = t.read_body(self.id, &mut self.buffer, self.deadline);
            match res {
                Ok(size) => {
                    if size > 0 {
                        self.position = 1;
                        self.filled_up_to = Some(size);
                        let b = self.buffer[0];
                        proof {
                            let data = self.buffer@.take(size as int);
                            assert(t.log() =~= refill_got(log0, id0, k, data));
                            assert(b == data[0]);
                        }
                        return Some(b);
                    }
                    // a zero-byte read is not end-of-stream: read again
                    self.position = 0;
                    proof {
                        k = k + 1;
                        assert(self.buffer@.take(0int) =~= Seq::<u8>::empty());
                        assert(zero_reads(id0, k) =~= zero_reads(id0, (k - 1) as nat).push(
                            Call::ReadBody { id: id0, got: Some(Seq::<u8>::empty()) },
                        ));
                        assert(t.log() =~= log0 + zero_reads(id0, k));
                    }
                },
                Err(_) => {
                    self.is_deadline_reached = true;
                    proof {
                        assert(t.log() =~= refill_failed(log0, id0, k));
                    }
                    return None;
                },
            }
        }
    }
}

} // verus!
