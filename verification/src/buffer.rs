//! The shared frame buffer and its exchange protocol: one window, handed
//! whole between producer and renderer by swapping, never partially written.
//! `FrameBuffer` is the bare slot, whose exchange contracts state exactly
//! what one swap does to the contents; `SharedFrameBuffer` adds the lock
//! that serializes the two threads, held for nothing but the swap;
//! `buffer_after` models what the interleaved exchanges can leave behind.

use vstd::prelude::*;
use vstd::rwlock::{RwLock, RwLockPredicate};

use crate::window::{zero_window, Window};

verus! {

/// The slot holding the most recently published window of amplitudes.
///
/// The producer publishes by exchanging a freshly filled window for the
/// contents; the renderer consumes by exchanging a zeroed window for them.
/// Either way the slot always holds a whole window: swapping is the only
/// operation, so no reader can see a half-written one.
pub struct FrameBuffer {
    window: Window,
}

impl View for FrameBuffer {
    type V = Seq<i32>;

    closed spec fn view(&self) -> Seq<i32> {
        self.window@
    }
}

impl FrameBuffer {
    /// Length `n` and every sample in amplitude range.
    pub open spec fn wf(self, n: int) -> bool {
        self@.len() == n && crate::window::all_in_range(self@)
    }

    /// A fresh buffer holds the all-zero window of length `n`.
    pub fn new(n: usize) -> (b: FrameBuffer)
        ensures
            b@ == zero_window(n as int),
            b.wf(n as int),
    {
        FrameBuffer { window: Window::zeroed(n) }
    }

    /// The symmetric exchange: afterwards the buffer holds exactly what the
    /// candidate held, and the candidate holds exactly what the buffer held.
    /// No sample is lost and none is duplicated.
    pub fn write_exchange(&mut self, candidate: &mut Window)
        ensures
            final(self)@ == old(candidate)@,
            final(candidate)@ == old(self)@,
    {
        core::mem::swap(&mut self.window, candidate);
    }

    /// Number of samples the buffer's window holds.
    pub fn len(&self) -> (n: usize)
        ensures
            n == self@.len(),
    {
        self.window.len()
    }

    /// The sample at index `i` of the held window.
    pub fn get(&self, i: usize) -> (v: i32)
        requires
            i < self@.len(),
        ensures
            v == self@[i as int],
    {
        self.window.get(i)
    }

    /// The consumer side of the exchange: take the latest published window
    /// out, leaving the buffer zeroed until the producer's next publish.
    pub fn consume(&mut self) -> (w: Window)
        ensures
            w@ == old(self)@,
            final(self)@ == zero_window(old(self)@.len() as int),
    {
        let n = self.window.len();
        let mut scratch = Window::zeroed(n);
        self.write_exchange(&mut scratch);
        scratch
    }
}

/// What the shared slot's lock guards: a well-formed window of the size
/// fixed at startup.
pub struct SizePred {
    pub n: int,
}

impl RwLockPredicate<Window> for SizePred {
    open spec fn inv(self, w: Window) -> bool {
        w.wf(self.n)
    }
}

/// The shared frame buffer together with the lock that serializes producer
/// and renderer. Both sides access it only by exchanging a whole window, and
/// the lock is held for nothing but one in-memory swap, so neither thread
/// can stall the other for more than that bounded moment, and no one ever
/// observes a half-written window.
///
/// What a given exchange hands back depends on how the two threads
/// interleave; `buffer_after` is the model of those interleavings, and every
/// outcome is a well-formed window that some exchange put there.
pub struct SharedFrameBuffer {
    size: usize,
    lock: RwLock<Window, SizePred>,
}

impl SharedFrameBuffer {
    /// The window length fixed when the buffer was created.
    pub closed spec fn spec_size(&self) -> int {
        self.size as int
    }

    /// The lock's predicate pins the fixed window length.
    pub closed spec fn wf(&self) -> bool {
        self.lock.pred() == (SizePred { n: self.size as int }) && 1 <= self.size <= 10_000_000
    }

    /// A fresh shared buffer holding the all-zero window of length `n`.
    pub fn new(n: usize) -> (s: SharedFrameBuffer)
        requires
            1 <= n <= 10_000_000,
        ensures
            s.wf(),
            s.spec_size() == n,
    {
        let window = Window::zeroed(n);
        SharedFrameBuffer {
            size: n,
            lock: RwLock::new(window, Ghost(SizePred { n: n as int })),
        }
    }

    /// The fixed window length.
    pub fn size(&self) -> (n: usize)
        requires
            self.wf(),
        ensures
            n == self.spec_size(),
    {
        self.size
    }

    /// Exchange the caller's window with the shared one under the lock,
    /// holding it only for the swap itself. The caller gets back whatever
    /// whole window the other side last left there.
    pub fn exchange(&self, candidate: &mut Window)
        requires
            self.wf(),
            old(candidate).wf(self.spec_size()),
        ensures
            final(candidate).wf(self.spec_size()),
    {
        let (mut stored, handle) = self.lock.acquire_write();
        core::mem::swap(&mut stored, candidate);
        handle.release_write(stored);
    }

    /// The renderer's read: take the latest published window out, leaving
    /// the shared slot zeroed until the next publish.
    pub fn consume_latest(&self) -> (w: Window)
        requires
            self.wf(),
        ensures
            w.wf(self.spec_size()),
    {
        let mut scratch = Window::zeroed(self.size);
        self.exchange(&mut scratch);
        scratch
    }
}

/// One step of the exchange protocol as the two threads interleave:
/// `Some(w)` is a producer publish of the window `w`, `None` a consumer read.
pub open spec fn buffer_after(b0: Seq<i32>, ops: Seq<Option<Seq<i32>>>) -> Seq<i32>
    decreases ops.len(),
{
    if ops.len() == 0 {
        b0
    } else {
        let prev = buffer_after(b0, ops.drop_last());
        match ops.last() {
            Some(w) => w,
            None => zero_window(prev.len() as int),
        }
    }
}

/// What the consumer's read at step `i` hands it: the buffer as the first
/// `i` steps left it.
pub open spec fn observed_at(b0: Seq<i32>, ops: Seq<Option<Seq<i32>>>, i: int) -> Seq<i32> {
    buffer_after(b0, ops.take(i))
}

/// Whatever the interleaving of publishes and reads, a read only ever hands
/// the consumer the initial contents, a window some publish actually wrote,
/// or the all-zero window a previous read left behind: nothing is ever
/// observed that neither side put there.
pub proof fn lemma_consumer_observes_published(
    b0: Seq<i32>,
    ops: Seq<Option<Seq<i32>>>,
    i: int,
)
    requires
        0 <= i < ops.len(),
        ops[i] is None,
    ensures
        observed_at(b0, ops, i) == b0 || observed_at(b0, ops, i) == zero_window(
            observed_at(b0, ops, i).len() as int,
        ) || exists|j: int| 0 <= j < i && ops[j] == Some(observed_at(b0, ops, i)),
{
    if i == 0 {
        assert(ops.take(0).len() == 0);
    } else {
        let pre = ops.take(i);
        assert(pre.drop_last() =~= ops.take(i - 1));
        assert(pre.last() == ops[i - 1]);
        match ops[i - 1] {
            Some(w) => {
                assert(observed_at(b0, ops, i) == w);
                assert(0 <= i - 1 < i && ops[i - 1] == Some(observed_at(b0, ops, i)));
            },
            None => {
                let prev = buffer_after(b0, pre.drop_last());
                assert(observed_at(b0, ops, i) == zero_window(prev.len() as int));
            },
        }
    }
}

/// Reading without writing is idempotent in the second read: two consumer
/// reads in a row with no publish in between hand the consumer the all-zero
/// window the second time, whatever the buffer held at the start.
pub proof fn lemma_read_without_write_yields_zero(b0: Seq<i32>)
    ensures
        observed_at(b0, seq![None, None], 1) == zero_window(b0.len() as int),
{
    let ops: Seq<Option<Seq<i32>>> = seq![None, None];
    let pre = ops.take(1);
    assert(pre.drop_last() =~= ops.take(0));
    assert(pre.last() == ops[0]);
    assert(buffer_after(b0, ops.take(0)) == b0);
}

} // verus!
