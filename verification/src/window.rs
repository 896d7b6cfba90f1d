//! The fixed-length window of amplitudes that the playback engine fills and
//! the renderer draws. An amplitude of `+1.0` is carried as `AMP_SCALE`,
//! `-1.0` as `-AMP_SCALE`, so the whole pipeline is exact integer arithmetic.

use vstd::prelude::*;

verus! {

/// Fixed-point scale of one full-range amplitude.
pub const AMP_SCALE: i32 = 32768;

/// A raw amplitude lies in the fixed-point image of `[-1, 1]`.
pub open spec fn amp_in_range(v: int) -> bool {
    -(AMP_SCALE as int) <= v <= AMP_SCALE as int
}

/// Every sample of the sequence is a valid amplitude.
pub open spec fn all_in_range(s: Seq<i32>) -> bool {
    forall|i: int| 0 <= i < s.len() ==> amp_in_range(#[trigger] s[i] as int)
}

/// The all-zero window of length `n`: what a fresh buffer holds, and what the
/// consumer leaves behind after taking a window out.
pub open spec fn zero_window(n: int) -> Seq<i32> {
    Seq::new(n as nat, |i: int| 0i32)
}

/// A chronological window of amplitudes. Its length is fixed when it is
/// created and never changes afterwards.
pub struct Window {
    data: Vec<i32>,
}

impl View for Window {
    type V = Seq<i32>;

    closed spec fn view(&self) -> Seq<i32> {
        self.data@
    }
}

impl Window {
    /// Length `n` and every sample in amplitude range.
    pub open spec fn wf(self, n: int) -> bool {
        self@.len() == n && all_in_range(self@)
    }

    /// A zeroed window of length `n`.
    pub fn zeroed(n: usize) -> (w: Window)
        ensures
            w@ == zero_window(n as int),
            w.wf(n as int),
    {
        let mut data: Vec<i32> = Vec::new();
        proof {
            assert(data@ =~= zero_window(0));
        }
        let mut i: usize = 0;
        while i < n
            invariant
                i <= n,
                data@ == zero_window(i as int),
            decreases n - i,
        {
            data.push(0);
            proof {
                assert(data@ =~= zero_window((i + 1) as int));
            }
            i = i + 1;
        }
        Window { data }
    }

    /// A window holding exactly the given samples.
    pub fn from_samples(samples: Vec<i32>) -> (w: Window)
        ensures
            w@ == samples@,
    {
        Window { data: samples }
    }

    pub fn len(&self) -> (n: usize)
        ensures
            n == self@.len(),
    {
        self.data.len()
    }

    /// The sample at index `i`.
    pub fn get(&self, i: usize) -> (v: i32)
        requires
            i < self@.len(),
        ensures
            v == self@[i as int],
    {
        self.data[i]
    }

    /// Overwrite the sample at index `i`.
    pub fn set(&mut self, i: usize, v: i32)
        requires
            i < old(self)@.len(),
        ensures
            final(self)@ == old(self)@.update(i as int, v),
    {
        self.data.set(i, v);
    }
}

} // verus!
