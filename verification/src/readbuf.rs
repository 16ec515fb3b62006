//! The accumulation logic of a `read` request: a reply buffer of at most
//! `size` bytes, filled chunk by chunk as the real reads come in, until
//! it is full or a zero-byte read signals end-of-file. The bytes actually
//! obtained are replied with no padding — a read wholly beyond
//! end-of-file therefore replies zero bytes, not an error.

use vstd::prelude::*;

verus! {

/// Collects what the read loop has obtained so far.
pub struct ReadBuffer {
    data: Vec<u8>,
    target: usize,
}

impl ReadBuffer {
    /// The bytes obtained so far, in order.
    pub closed spec fn spec_data(self) -> Seq<u8> {
        self.data@
    }

    /// The requested read size.
    pub closed spec fn spec_target(self) -> int {
        self.target as int
    }

    /// Never holds more than was asked for.
    pub open spec fn wf(self) -> bool {
        self.spec_data().len() <= self.spec_target()
    }

    /// An empty buffer for a read of `size` bytes.
    pub fn new(size: u32) -> (b: ReadBuffer)
        ensures
            b.wf(),
            b.spec_data() == Seq::<u8>::empty(),
            b.spec_target() == size as int,
    {
        ReadBuffer { data: Vec::new(), target: size as usize }
    }

    /// How many bytes the next real read may deliver at most.
    pub fn remaining(&self) -> (n: usize)
        requires
            self.wf(),
        ensures
            n == self.spec_target() - self.spec_data().len(),
    {
        self.target - self.data.len()
    }

    /// Append one chunk a real read delivered. Returns whether the loop
    /// is done: the buffer is full, or the chunk was empty (end-of-file),
    /// which adds nothing and replies only what was obtained before it.
    pub fn push_chunk(&mut self, chunk: &[u8]) -> (done: bool)
        requires
            old(self).wf(),
            chunk@.len() <= old(self).spec_target() - old(self).spec_data().len(),
        ensures
            final(self).wf(),
            final(self).spec_target() == old(self).spec_target(),
            final(self).spec_data() == old(self).spec_data() + chunk@,
            done == (final(self).spec_data().len() == final(self).spec_target() || chunk@.len()
                == 0),
    {
        let mut i: usize = 0;
        while i < chunk.len()
            invariant
                i <= chunk@.len(),
                chunk@.len() <= old(self).spec_target() - old(self).spec_data().len(),
                self.target == old(self).target,
                self.data@ == old(self).data@ + chunk@.subrange(0, i as int),
            decreases chunk@.len() - i,
        {
            self.data.push(chunk[i]);
            i += 1;
            proof {
                assert(self.data@ =~= old(self).data@ + chunk@.subrange(0, i as int));
            }
        }
        proof {
            assert(self.data@ =~= old(self).data@ + chunk@);
        }
        chunk.len() == 0 || self.data.len() == self.target
    }

    /// The reply: exactly the bytes obtained, no padding.
    pub fn into_data(self) -> (r: Vec<u8>)
        ensures
            r@ == self.spec_data(),
    {
        self.data
    }
}

} // verus!
