//! A bounded byte writer: a cursor over a fixed-capacity buffer that fails
//! closed when space runs out.

use vstd::prelude::*;

use crate::error::Error;

verus! {

/// A writer with a fixed capacity. A write either appends whole, or reports
/// that the capacity is exceeded and leaves the writer untouched — nothing
/// is ever truncated silently.
pub struct ByteWriter {
    data: Vec<u8>,
    cap: usize,
}

impl ByteWriter {
    /// The bytes written so far, in order.
    pub closed spec fn written(self) -> Seq<u8> {
        self.data@
    }

    /// The fixed capacity the writer was created with.
    pub closed spec fn spec_cap(self) -> int {
        self.cap as int
    }

    /// What was written never exceeds the capacity.
    pub open spec fn wf(self) -> bool {
        self.written().len() <= self.spec_cap()
    }

    /// Creates an empty writer of capacity `cap`.
    pub fn new(cap: usize) -> (w: ByteWriter)
        ensures
            w.written() == Seq::<u8>::empty(),
            w.spec_cap() == cap,
            w.wf(),
    {
        ByteWriter { data: Vec::new(), cap }
    }

    /// Returns how many more bytes fit.
    pub fn space_left(&self) -> (r: usize)
        requires
            self.wf(),
        ensures
            r == self.spec_cap() - self.written().len(),
    {
        self.cap - self.data.len()
    }

    /// Appends `data` whole if it fits; otherwise reports the capacity
    /// exceeded and writes nothing.
    pub fn write_slice(&mut self, data: &[u8]) -> (r: Result<(), Error>)
        requires
            old(self).wf(),
        ensures
            final(self).wf(),
            final(self).spec_cap() == old(self).spec_cap(),
            old(self).written().len() + data@.len() <= old(self).spec_cap() ==> {
                &&& r is Ok
                &&& final(self).written() == old(self).written() + data@
            },
            old(self).written().len() + data@.len() > old(self).spec_cap() ==> {
                &&& (r matches Err(e) && e is CapacityExceeded)
                &&& final(self).written() == old(self).written()
            },
    {
        let ghost orig = self.data@;
        let ghost c: usize = self.cap;
        if data.len() <= self.cap - self.data.len() {
            proof {
                assert(orig + data@.subrange(0, 0) =~= orig);
            }
            let mut i: usize = 0;
            while i < data.len()
                invariant
                    i <= data@.len(),
                    self.data@ == orig + data@.subrange(0, i as int),
                    self.cap == c,
                    orig.len() + data@.len() <= c,
                decreases data@.len() - i,
            {
                self.data.push(data[i]);
                proof {
                    assert(self.data@ =~= orig + data@.subrange(0, i + 1));
                }
                i += 1;
            }
            proof {
                assert(orig + data@.subrange(0, data@.len() as int) =~= orig + data@);
            }
            Ok(())
        } else {
            Err(Error::CapacityExceeded)
        }
    }

    /// Consumes the writer and returns a buffer of exactly the capacity:
    /// the written bytes first, zero for every unused byte after them.
    pub fn into_buffer(self) -> (v: Vec<u8>)
        requires
            self.wf(),
        ensures
            v@.len() == self.spec_cap(),
            v@.subrange(0, self.written().len() as int) == self.written(),
            forall|i: int| self.written().len() <= i < v@.len() ==> v@[i] == 0u8,
    {
        let ghost w0 = self.data@;
        let cap = self.cap;
        let mut v = self.data;
        proof {
            assert(v@.subrange(0, w0.len() as int) =~= w0);
        }
        while v.len() < cap
            invariant
                w0.len() <= v@.len() <= cap,
                v@.subrange(0, w0.len() as int) == w0,
                forall|i: int| w0.len() <= i < v@.len() ==> v@[i] == 0u8,
            decreases cap - v@.len(),
        {
            v.push(0);
            proof {
                assert(v@.subrange(0, w0.len() as int) =~= w0);
            }
        }
        v
    }
}

} // verus!
