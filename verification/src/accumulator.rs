//! Collection of a body that arrives in chunks.

use vstd::prelude::*;

verus! {

/// Collects the chunks of one body until the end of the stream is signalled.
pub struct ByteAccumulator {
    buffer: Vec<u8>,
    finalized: bool,
}

impl ByteAccumulator {
    /// The bytes collected so far, in arrival order.
    pub closed spec fn bytes(&self) -> Seq<u8> {
        self.buffer@
    }

    /// Whether the end of the stream has been seen.
    pub closed spec fn finalized(&self) -> bool {
        self.finalized
    }

    /// An empty accumulator that still accepts chunks.
    pub fn new() -> (r: Self)
        ensures
            r.bytes() == Seq::<u8>::empty(),
            !r.finalized(),
    {
        ByteAccumulator { buffer: Vec::new(), finalized: false }
    }

    /// Appends `chunk`; `is_final` marks it as the last one. Nothing may be
    /// appended once the accumulator is finalized.
    pub fn append(&mut self, chunk: &[u8], is_final: bool)
        requires
            !old(self).finalized(),
        ensures
            final(self).bytes() == old(self).bytes() + chunk@,
            final(self).finalized() == is_final,
    {
        self.buffer.extend_from_slice(chunk);
        self.finalized = is_final;
    }

    pub fn is_finalized(&self) -> (r: bool)
        ensures
            r == self.finalized(),
    {
        self.finalized
    }

    /// The number of bytes collected so far.
    pub fn len(&self) -> (r: usize)
        ensures
            r == self.bytes().len(),
    {
        self.buffer.len()
    }

    /// The whole body, left in place. Only a finalized accumulator has one.
    pub fn as_slice(&self) -> (r: &[u8])
        requires
            self.finalized(),
        ensures
            r@ == self.bytes(),
    {
        self.buffer.as_slice()
    }

    /// Puts `body` in the place of the collected bytes of a finalized
    /// accumulator.
    pub fn replace(&mut self, body: Vec<u8>)
        requires
            old(self).finalized(),
        ensures
            final(self).bytes() == body@,
            final(self).finalized(),
    {
        self.buffer = body;
    }

    /// Drops what was collected, as when the exchange is torn down.
    pub fn release(&mut self)
        ensures
            final(self).bytes() == Seq::<u8>::empty(),
            final(self).finalized() == old(self).finalized(),
    {
        self.buffer = Vec::new();
    }

    /// Hands out the whole body. Only a finalized accumulator has one.
    pub fn take_all(self) -> (r: Vec<u8>)
        requires
            self.finalized(),
        ensures
            r@ == self.bytes(),
    {
        self.buffer
    }
}

} // verus!
