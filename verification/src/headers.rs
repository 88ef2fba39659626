//! The ordered header collection of a response, with linear lookup and
//! an explicit two-step traversal protocol.

use vstd::prelude::*;
use vstd::string::StringSliceAdditionalSpecFns;
use vstd::utf8::{decode_utf8, encode_utf8, valid_utf8};

use crate::transport::raw_pairs_view;

verus! {

/// Relies on std::str::from_utf8: returns the chunk as text exactly when
/// the chunk is valid UTF-8, decoding it.
#[verifier::external_body]
pub(crate) fn from_utf8(chunk: &[u8]) -> (r: Option<&str>)
    ensures
        r is Some <==> valid_utf8(chunk@),
        r matches Some(s) ==> s@ == decode_utf8(chunk@) && s.spec_bytes() == chunk@,
{
    std::str::from_utf8(chunk).ok()
}

/// Whether the header key `key` reads as the text `name`: the key must
/// be valid UTF-8 and decode to exactly that text (case-sensitive).
pub open spec fn key_matches(key: Seq<u8>, name: Seq<char>) -> bool {
    valid_utf8(key) && decode_utf8(key) == name
}

/// The value bytes of the first pair whose key reads as `name`, if any.
pub open spec fn first_match(pairs: Seq<(Seq<u8>, Seq<u8>)>, name: Seq<char>) -> Option<Seq<u8>>
    decreases pairs.len(),
{
    if pairs.len() == 0 {
        None
    } else if key_matches(pairs[0].0, name) {
        Some(pairs[0].1)
    } else {
        first_match(pairs.drop_first(), name)
    }
}

/// The bytes `b` read as text, or empty text where they are not valid
/// UTF-8.
pub open spec fn text_or_empty(b: Seq<u8>) -> Seq<char> {
    if valid_utf8(b) {
        decode_utf8(b)
    } else {
        Seq::<char>::empty()
    }
}

/// A pair of byte sequences is equal exactly when the first is the
/// UTF-8 encoding of the given text and reads as that text.
proof fn lemma_key_matches_iff_bytes(key: Seq<u8>, name: Seq<char>)
    ensures
        key_matches(key, name) <==> key == encode_utf8(name),
{
    broadcast use vstd::utf8::encode_utf8_valid_utf8;
    broadcast use vstd::utf8::encode_utf8_decode_utf8;
    broadcast use vstd::utf8::decode_utf8_encode_utf8;

    if key_matches(key, name) {
        assert(encode_utf8(decode_utf8(key)) == key);
    }
    if key == encode_utf8(name) {
        assert(decode_utf8(encode_utf8(name)) == name);
    }
}

/// `first_match` is unchanged by skipping a prefix of pairs none of
/// whose keys read as `name`.
proof fn lemma_first_match_skip(pairs: Seq<(Seq<u8>, Seq<u8>)>, name: Seq<char>, i: int)
    requires
        0 <= i <= pairs.len(),
        forall|k: int| 0 <= k < i ==> !key_matches(#[trigger] pairs[k].0, name),
    ensures
        first_match(pairs, name) == first_match(pairs.skip(i), name),
    decreases i,
{
    if i == 0 {
        assert(pairs.skip(0) =~= pairs);
    } else {
        lemma_first_match_skip(pairs, name, i - 1);
        assert(pairs.skip(i - 1).len() > 0);
        assert(pairs.skip(i - 1)[0] == pairs[i - 1]);
        assert(!key_matches(pairs[i - 1].0, name));
        assert(pairs.skip(i - 1).drop_first() =~= pairs.skip(i));
        assert(first_match(pairs.skip(i - 1), name) == first_match(
            pairs.skip(i - 1).drop_first(),
            name,
        ));
    }
}

/// Two bytes slices hold the same bytes.
fn bytes_eq(a: &[u8], b: &[u8]) -> (r: bool)
    ensures
        r <==> a@ == b@,
{
    if a.len() != b.len() {
        proof {
            assert(a@.len() != b@.len());
        }
        return false;
    }
    let mut k: usize = 0;
    while k < a.len()
        invariant
            0 <= k <= a@.len(),
            a@.len() == b@.len(),
            forall|m: int| 0 <= m < k ==> a@[m] == b@[m],
        decreases a@.len() - k,
    {
        if a[k] != b[k] {
            return false;
        }
        k = k + 1;
    }
    proof {
        assert(a@ =~= b@);
    }
    true
}

/// A collection of Headers in the response: ordered pairs of name and
/// value bytes, arrival order, duplicates permitted.
#[derive(Clone, PartialEq, Eq, Debug)]
pub struct Headers {
    /// Raw headers
    pub raw: Vec<(Vec<u8>, Vec<u8>)>,
}

impl View for Headers {
    type V = Seq<(Seq<u8>, Seq<u8>)>;

    open spec fn view(&self) -> Seq<(Seq<u8>, Seq<u8>)> {
        raw_pairs_view(self.raw@)
    }
}

impl Headers {
    /// Retrieve a single header from the list of headers: the value of
    /// the first pair whose key reads as `name`, read as text.
    ///
    /// Note this method is linearly looking from all the headers.
    /// If you want to consume multiple headers it's better to iterate
    /// and collect them on your own.
    pub fn find<'s>(&'s self, name: &str) -> (r: Option<&'s str>)
        ensures
            match first_match(self@, name@) {
                None => r is None,
                Some(vb) => {
                    &&& r is Some <==> valid_utf8(vb)
                    &&& (r matches Some(v) ==> v@ == decode_utf8(vb))
                },
            },
    {
        let name_bytes = name.as_bytes();
        let mut i: usize = 0;
        while i < self.raw.len()
            invariant
                0 <= i <= self.raw.len(),
                name_bytes@ == encode_utf8(name@),
                forall|k: int| 0 <= k < i ==> !key_matches(#[trigger] self@[k].0, name@),
            decreases self.raw.len() - i,
        {
            if bytes_eq(self.raw[i].0.as_slice(), name_bytes) {
                proof {
                    lemma_key_matches_iff_bytes(self@[i as int].0, name@);
                    lemma_first_match_skip(self@, name@, i as int);
                    assert(self@.skip(i as int)[0] == self@[i as int]);
                    assert(first_match(self@, name@) == Some(self@[i as int].1));
                }
                return from_utf8(self.raw[i].1.as_slice());
            }
            proof {
                lemma_key_matches_iff_bytes(self@[i as int].0, name@);
            }
            i = i + 1;
        }
        proof {
            lemma_first_match_skip(self@, name@, self.raw.len() as int);
            assert(self@.skip(self.raw.len() as int).len() == 0);
        }
        None
    }

    /// Convert this headers into an iterator, positioned before the
    /// first element.
    pub fn into_iter<'s>(&'s self) -> (r: HeadersIterator<'s>)
        ensures
            r@.collection == self@,
            r@.index is None,
    {
        HeadersIterator { collection: self.raw.as_slice(), index: None }
    }
}

/// What a [`HeadersIterator`] holds, as a ghost value.
pub struct HeadersIteratorModel {
    /// The pairs being traversed.
    pub collection: Seq<(Seq<u8>, Seq<u8>)>,
    /// The cursor: `None` until the first advance, then the position
    /// last advanced to (which may be one past the end).
    pub index: Option<usize>,
}

/// A custom iterator traversing all the headers: an explicit two-step
/// protocol, where [`HeadersIterator::next`] advances the cursor and
/// reports whether a valid element now exists, and
/// [`HeadersIterator::current`] reads without advancing.
#[derive(Clone, Debug)]
pub struct HeadersIterator<'a> {
    collection: &'a [(Vec<u8>, Vec<u8>)],
    index: Option<usize>,
}

impl<'a> View for HeadersIterator<'a> {
    type V = HeadersIteratorModel;

    closed spec fn view(&self) -> HeadersIteratorModel {
        HeadersIteratorModel { collection: raw_pairs_view(self.collection@), index: self.index }
    }
}

impl<'a> HeadersIterator<'a> {
    /// Move the iterator to the next position.
    ///
    /// Returns `true` is `current` has been set by this call.
    pub fn next(&mut self) -> (r: bool)
        ensures
            final(self)@.collection == old(self)@.collection,
            final(self)@.index is Some,
            r <==> (final(self)@.index matches Some(i) && i < final(self)@.collection.len()),
            old(self)@.index is None ==> final(self)@.index == Some(0usize),
            (old(self)@.index is Some && old(self)@.index->0 < old(self)@.collection.len())
                ==> final(self)@.index == Some((old(self)@.index->0 + 1) as usize),
            (old(self)@.index is Some && old(self)@.index->0 >= old(self)@.collection.len())
                ==> final(self)@.index == Some(old(self)@.index->0),
    {
        let index: usize = match self.index {
            None => 0,
            Some(x) => {
                if x < self.collection.len() {
                    x + 1
                } else {
                    // already past the end: the cursor stays put, which is
                    // observationally the advance the unbounded count would
                    // make, and cannot overflow
                    x
                }
            },
        };
        self.index = Some(index);
        index < self.collection.len()
    }

    /// Returns current element (if any), each side read as text, with
    /// empty text standing in for bytes that are not valid UTF-8.
    ///
    /// Note that you have to call `next` prior to calling this: before
    /// the first `next`, and after a `next` that returned false, there
    /// is no current element.
    pub fn current(&self) -> (r: Option<(&'a str, &'a str)>)
        ensures
            match self@.index {
                None => r is None,
                Some(i) => {
                    if i < self@.collection.len() {
                        &&& r is Some
                        &&& (r matches Some(p) ==> p.0@ == text_or_empty(self@.collection[i as int].0)
                            && p.1@ == text_or_empty(self@.collection[i as int].1))
                    } else {
                        r is None
                    }
                },
            },
    {
        match self.index {
            None => None,
            Some(i) => {
                if i < self.collection.len() {
                    let key: &str = match from_utf8(self.collection[i].0.as_slice()) {
                        Some(s) => s,
                        None => "",
                    };
                    let val: &str = match from_utf8(self.collection[i].1.as_slice()) {
                        Some(s) => s,
                        None => "",
                    };
                    proof {
                        reveal_strlit("");
                        assert(""@ =~= Seq::<char>::empty());
                    }
                    Some((key, val))
                } else {
                    None
                }
            },
        }
    }
}

} // verus!
