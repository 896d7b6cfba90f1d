//! The sample source: a one-shot forward cursor over the decoded file's
//! amplitudes. It is consumed monotonically, never rewound, and pulling past
//! the end is excluded by contract — exhaustion mid-playback is a hard
//! failure the surrounding program must rule out or accept.

use vstd::prelude::*;

verus! {

/// A forward cursor over a decoded file's samples, in fixed-point form.
pub struct SampleSource {
    data: Vec<i32>,
    pos: usize,
}

impl SampleSource {
    /// The whole decoded sample sequence, immutable after construction.
    pub closed spec fn samples(&self) -> Seq<i32> {
        self.data@
    }

    /// How many samples have been pulled so far.
    pub closed spec fn position(&self) -> nat {
        self.pos as nat
    }

    /// The cursor never passes the end.
    pub open spec fn inv(&self) -> bool {
        self.position() <= self.samples().len()
    }

    /// A source over the given samples, cursor at the start.
    pub fn new(data: Vec<i32>) -> (s: SampleSource)
        ensures
            s.samples() == data@,
            s.position() == 0,
            s.inv(),
    {
        SampleSource { data, pos: 0 }
    }

    /// Total number of samples in the file.
    pub fn len(&self) -> (n: usize)
        ensures
            n == self.samples().len(),
    {
        self.data.len()
    }

    /// How many samples are still ahead of the cursor.
    pub fn remaining(&self) -> (n: usize)
        requires
            self.inv(),
        ensures
            n == self.samples().len() - self.position(),
    {
        self.data.len() - self.pos
    }

    /// Pull the next amplitude, advancing the cursor. The caller must know
    /// the source is not exhausted.
    pub fn next(&mut self) -> (v: i32)
        requires
            old(self).inv(),
            old(self).position() < old(self).samples().len(),
        ensures
            v == old(self).samples()[old(self).position() as int],
            final(self).samples() == old(self).samples(),
            final(self).position() == old(self).position() + 1,
            final(self).inv(),
    {
        let n = self.data.len();
        assert(self.pos < n);
        let v = self.data[self.pos];
        self.pos = self.pos + 1;
        v
    }

    /// Pull the next `count` amplitudes at once: exactly the next stretch of
    /// the file, in order, advancing the cursor past it.
    pub fn pull_block(&mut self, count: usize) -> (out: Vec<i32>)
        requires
            old(self).inv(),
            old(self).position() + count <= old(self).samples().len(),
        ensures
            out@ == old(self).samples().subrange(
                old(self).position() as int,
                old(self).position() + count,
            ),
            final(self).samples() == old(self).samples(),
            final(self).position() == old(self).position() + count,
            final(self).inv(),
    {
        let mut out: Vec<i32> = Vec::new();
        let mut i: usize = 0;
        while i < count
            invariant
                i <= count,
                self.inv(),
                self.samples() == old(self).samples(),
                self.position() == old(self).position() + i,
                old(self).position() + count <= old(self).samples().len(),
                out@ == old(self).samples().subrange(
                    old(self).position() as int,
                    old(self).position() + i,
                ),
            decreases count - i,
        {
            let v = self.next();
            out.push(v);
            proof {
                assert(out@ =~= old(self).samples().subrange(
                    old(self).position() as int,
                    old(self).position() + i + 1,
                ));
            }
            i = i + 1;
        }
        out
    }
}

} // verus!
