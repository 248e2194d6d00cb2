//! Messages: immutable byte sequences built from prepended headers and a body.

use vstd::prelude::*;

verus! {

/// An ordered, immutable sequence of bytes.
///
/// A message is built by prepending headers with [`Message::with_header`] and
/// consumed by dropping leading bytes with [`Message::slice`]. No operation
/// mutates an existing message: both return fresh values.
#[derive(Debug)]
pub struct Message {
    data: Vec<u8>,
}

impl View for Message {
    type V = Seq<u8>;

    closed spec fn view(&self) -> Seq<u8> {
        self.data@
    }
}

impl Clone for Message {
    fn clone(&self) -> (r: Self)
        ensures
            r@ == self@,
    {
        Message { data: self.data.clone() }
    }
}

impl Message {
    /// A message holding exactly `body`.
    pub fn new(body: Vec<u8>) -> (r: Message)
        ensures
            r@ == body@,
    {
        Message { data: body }
    }

    /// A new message equal to `header` followed by this message.
    pub fn with_header(&self, header: &Vec<u8>) -> (r: Message)
        ensures
            r@ == header@ + self@,
    {
        let mut data: Vec<u8> = header.clone();
        let mut rest: Vec<u8> = self.data.clone();
        data.append(&mut rest);
        Message { data }
    }

    /// A new message equal to this one with the first `start` bytes dropped.
    pub fn slice(&self, start: usize) -> (r: Message)
        requires
            start <= self@.len(),
        ensures
            r@ == self@.skip(start as int),
    {
        let mut data: Vec<u8> = Vec::new();
        let mut i: usize = start;
        while i < self.data.len()
            invariant
                start <= i <= self.data.len(),
                data@ == self.data@.subrange(start as int, i as int),
            decreases self.data.len() - i,
        {
            data.push(self.data[i]);
            i += 1;
        }
        proof {
            assert(self.data@.subrange(start as int, self.data@.len() as int) == self.data@.skip(
                start as int,
            ));
        }
        Message { data }
    }

    /// The number of bytes in the message.
    pub fn len(&self) -> (r: usize)
        ensures
            r == self@.len(),
    {
        self.data.len()
    }

    /// The bytes of the message, in order.
    pub fn bytes(&self) -> (r: &Vec<u8>)
        ensures
            r@ == self@,
    {
        &self.data
    }
}

/// Framing round trip: prepending a header and then slicing it off again
/// leaves the original message bytes.
pub proof fn lemma_framing_round_trip(m: Seq<u8>, h: Seq<u8>)
    ensures
        (h + m).skip(h.len() as int) == m,
{
    assert((h + m).skip(h.len() as int) == m);
}

} // verus!
