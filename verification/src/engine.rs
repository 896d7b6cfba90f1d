//! The playback engine's staging side: one amplitude per output slot is
//! recorded into a local staging window, and whenever the window is full at
//! an output-frame boundary its contents are exchanged whole into the shared
//! frame buffer. The fold `run_prefix` is the exact model of that process;
//! `write_data` is proved to compute it.

use vstd::prelude::*;

use crate::buffer::{FrameBuffer, SharedFrameBuffer};
use crate::window::{all_in_range, Window};

verus! {

/// Record one amplitude at the fill cursor, if the staging window still has
/// room; a sample arriving while the window is full is dropped.
pub open spec fn record(staging: Seq<i32>, cursor: nat, v: i32) -> (Seq<i32>, nat) {
    if cursor < staging.len() {
        (staging.update(cursor as int, v), (cursor + 1) as nat)
    } else {
        (staging, cursor)
    }
}

/// True when `i` samples into a block of `len` is an output-frame boundary:
/// a whole number of frames of `channels` samples, or the end of the block.
pub open spec fn frame_boundary(i: int, channels: int, len: int) -> bool {
    i % channels == 0 || i == len
}

/// One sample's effect on (staging window, fill cursor, shared buffer):
/// record it, then, at a frame boundary with the staging window full,
/// exchange the staging window with the shared buffer and reset the cursor.
pub open spec fn step(
    staging: Seq<i32>,
    cursor: nat,
    shared: Seq<i32>,
    v: i32,
    at_boundary: bool,
) -> (Seq<i32>, nat, Seq<i32>) {
    let (st, c) = record(staging, cursor, v);
    if at_boundary && c >= st.len() {
        (shared, 0 as nat, st)
    } else {
        (st, c, shared)
    }
}

/// The state after the first `i` samples of the block have been handled.
pub open spec fn run_prefix(
    staging: Seq<i32>,
    cursor: nat,
    shared: Seq<i32>,
    samples: Seq<i32>,
    channels: int,
    i: int,
) -> (Seq<i32>, nat, Seq<i32>)
    decreases i,
{
    if i <= 0 {
        (staging, cursor, shared)
    } else {
        let prev = run_prefix(staging, cursor, shared, samples, channels, i - 1);
        step(
            prev.0,
            prev.1,
            prev.2,
            samples[i - 1],
            frame_boundary(i, channels, samples.len() as int),
        )
    }
}

/// The staging window once slots `c0` up to `k` have been overwritten with
/// the first `k - c0` samples of the block, the rest still as they were.
pub open spec fn staged_from(staging0: Seq<i32>, samples: Seq<i32>, c0: int, k: int) -> Seq<i32> {
    Seq::new(staging0.len(), |p: int| if c0 <= p < k { samples[p - c0] } else { staging0[p] })
}

/// How full the staging window is after `i` samples of a block recorded from
/// a cursor at `c0`: one slot per sample until the window is full.
pub open spec fn fill_from(c0: int, i: int, n: int) -> int {
    if c0 + i <= n {
        c0 + i
    } else {
        n
    }
}

/// While no frame boundary has yet arrived with the staging window full, the
/// engine does nothing but copy the block into the staging window in order:
/// after `i` samples of a block recorded from a cursor at `c0`, the slots
/// from `c0` up to `fill_from(c0, i, n)` hold the first samples of the
/// block, and the shared buffer is untouched.
pub proof fn lemma_fills_in_order(
    staging0: Seq<i32>,
    c0: int,
    shared0: Seq<i32>,
    samples: Seq<i32>,
    channels: int,
    i: int,
)
    requires
        1 <= channels,
        0 <= c0 <= staging0.len(),
        0 <= i <= samples.len(),
        forall|j: int|
            1 <= j <= i && staging0.len() <= c0 + j ==> !frame_boundary(
                j,
                channels,
                samples.len() as int,
            ),
    ensures
        run_prefix(staging0, c0 as nat, shared0, samples, channels, i) == (
            staged_from(staging0, samples, c0, fill_from(c0, i, staging0.len() as int)),
            fill_from(c0, i, staging0.len() as int) as nat,
            shared0,
        ),
    decreases i,
{
    let n = staging0.len() as int;
    if i == 0 {
        assert(staged_from(staging0, samples, c0, c0) =~= staging0);
    } else {
        lemma_fills_in_order(staging0, c0, shared0, samples, channels, i - 1);
        if c0 + i <= n {
            assert(staged_from(staging0, samples, c0, c0 + i - 1).update(
                c0 + i - 1,
                samples[i - 1],
            ) =~= staged_from(staging0, samples, c0, c0 + i));
        }
    }
}

/// The pure swap at a boundary, in full generality: the first time a frame
/// boundary `b` arrives with the staging window full, the engine publishes.
/// Starting from a cursor at `c0`, the shared buffer ends holding exactly
/// the staged window — the `c0` amplitudes already staged followed by the
/// next samples pulled, in chronological order, no element lost, duplicated
/// or half-written — and the staging window receives the buffer's prior
/// contents wholesale, with the cursor back at 0.
pub proof fn lemma_publish_at_boundary(
    staging0: Seq<i32>,
    c0: int,
    shared0: Seq<i32>,
    samples: Seq<i32>,
    channels: int,
    b: int,
)
    requires
        1 <= channels,
        1 <= staging0.len(),
        0 <= c0 <= staging0.len(),
        1 <= b <= samples.len(),
        staging0.len() <= c0 + b,
        frame_boundary(b, channels, samples.len() as int),
        forall|j: int|
            1 <= j < b && staging0.len() <= c0 + j ==> !frame_boundary(
                j,
                channels,
                samples.len() as int,
            ),
    ensures
        run_prefix(staging0, c0 as nat, shared0, samples, channels, b) == (
            shared0,
            0 as nat,
            staged_from(staging0, samples, c0, staging0.len() as int),
        ),
{
    let n = staging0.len() as int;
    lemma_fills_in_order(staging0, c0, shared0, samples, channels, b - 1);
    if c0 + b - 1 < n {
        assert(staged_from(staging0, samples, c0, n - 1).update(n - 1, samples[b - 1])
            =~= staged_from(staging0, samples, c0, n));
    }
}

/// The producer side of the pipeline: a staging window being filled one
/// amplitude at a time, published whole when full.
pub struct PlaybackEngine {
    staging: Window,
    cursor: usize,
}

impl PlaybackEngine {
    /// The staging window's contents.
    pub closed spec fn staging_model(&self) -> Seq<i32> {
        self.staging@
    }

    /// How many slots of the staging window are filled with fresh samples.
    pub closed spec fn fill_cursor(&self) -> nat {
        self.cursor as nat
    }

    /// The cursor never passes the end of the window, and the window holds
    /// only valid amplitudes.
    pub open spec fn inv(&self) -> bool {
        self.fill_cursor() <= self.staging_model().len() && all_in_range(self.staging_model())
    }

    /// A fresh engine: zeroed staging window of length `n`, cursor at 0.
    pub fn new(n: usize) -> (e: PlaybackEngine)
        ensures
            e.staging_model() == crate::window::zero_window(n as int),
            e.fill_cursor() == 0,
            e.inv(),
    {
        PlaybackEngine { staging: Window::zeroed(n), cursor: 0 }
    }

    /// The fill cursor, for the embedding program's bookkeeping.
    pub fn cursor(&self) -> (c: usize)
        ensures
            c == self.fill_cursor(),
    {
        self.cursor
    }

    /// The staged sample at index `i`, for inspection.
    pub fn staged(&self, i: usize) -> (v: i32)
        requires
            i < self.staging_model().len(),
        ensures
            v == self.staging_model()[i as int],
    {
        self.staging.get(i)
    }

    /// Handle one block of pulled amplitudes, as the audio backend hands it
    /// over: `samples` holds one amplitude per output slot, chronologically,
    /// interleaved across `channels` channels. Every sample is recorded while
    /// the staging window has room, and at each frame boundary a full staging
    /// window is exchanged whole into the shared buffer. The final state of
    /// engine and buffer is exactly the fold of `step` over the block.
    pub fn write_data(&mut self, samples: &Vec<i32>, channels: usize, buf: &mut FrameBuffer)
        requires
            1 <= channels,
            old(self).inv(),
            all_in_range(samples@),
            old(buf)@.len() == old(self).staging_model().len(),
            all_in_range(old(buf)@),
        ensures
            (final(self).staging_model(), final(self).fill_cursor(), final(buf)@) == run_prefix(
                old(self).staging_model(),
                old(self).fill_cursor(),
                old(buf)@,
                samples@,
                channels as int,
                samples@.len() as int,
            ),
            final(self).inv(),
            final(buf)@.len() == old(buf)@.len(),
            all_in_range(final(buf)@),
            final(self).staging_model().len() == old(self).staging_model().len(),
    {
        let ghost g_staging = self.staging@;
        let ghost g_cursor = self.cursor as nat;
        let ghost g_shared = buf@;
        let n = self.staging.len();
        let len = samples.len();
        let mut i: usize = 0;
        while i < len
            invariant
                1 <= channels,
                i <= len,
                len == samples@.len(),
                (self.staging_model(), self.fill_cursor(), buf@) == run_prefix(
                    g_staging,
                    g_cursor,
                    g_shared,
                    samples@,
                    channels as int,
                    i as int,
                ),
                self.inv(),
                self.staging_model().len() == n,
                buf@.len() == n,
                all_in_range(buf@),
                all_in_range(samples@),
            decreases len - i,
        {
            let v = samples[i];
            if self.cursor < n {
                let c = self.cursor;
                self.staging.set(c, v);
                self.cursor = c + 1;
            }
            let at_boundary = (i + 1) % channels == 0 || i + 1 == len;
            proof {
                assert(at_boundary == frame_boundary(
                    i + 1 as int,
                    channels as int,
                    samples@.len() as int,
                ));
            }
            if at_boundary && self.cursor >= n {
                buf.write_exchange(&mut self.staging);
                self.cursor = 0;
            }
            proof {
                let prev = run_prefix(
                    g_staging,
                    g_cursor,
                    g_shared,
                    samples@,
                    channels as int,
                    i as int,
                );
                assert(run_prefix(
                    g_staging,
                    g_cursor,
                    g_shared,
                    samples@,
                    channels as int,
                    i + 1 as int,
                ) == step(
                    prev.0,
                    prev.1,
                    prev.2,
                    samples@[i as int],
                    frame_boundary(i + 1 as int, channels as int, samples@.len() as int),
                ));
            }
            i = i + 1;
        }
    }

    /// The same staging process against the live shared buffer: each full
    /// staging window is exchanged under the buffer's lock. What comes back
    /// from an exchange depends on the renderer's interleaving, so the
    /// contract states what holds of every outcome: the engine stays well
    /// formed, with a staging window of the buffer's size holding only valid
    /// amplitudes. The recording itself does not depend on the buffer's
    /// contents at all, so it is pinned exactly: the final fill cursor is
    /// the cursor of the pure fold, and every staging slot below it holds
    /// the sample the fold assigns it, whatever window each exchange handed
    /// back.
    pub fn write_data_shared(&mut self, samples: &Vec<i32>, channels: usize, shared: &SharedFrameBuffer)
        requires
            1 <= channels,
            old(self).inv(),
            all_in_range(samples@),
            shared.wf(),
            old(self).staging_model().len() == shared.spec_size(),
        ensures
            final(self).inv(),
            final(self).staging_model().len() == old(self).staging_model().len(),
            final(self).fill_cursor() == run_prefix(
                old(self).staging_model(),
                old(self).fill_cursor(),
                crate::window::zero_window(shared.spec_size()),
                samples@,
                channels as int,
                samples@.len() as int,
            ).1,
            forall|p: int|
                0 <= p < final(self).fill_cursor() ==> final(self).staging_model()[p]
                    == run_prefix(
                    old(self).staging_model(),
                    old(self).fill_cursor(),
                    crate::window::zero_window(shared.spec_size()),
                    samples@,
                    channels as int,
                    samples@.len() as int,
                ).0[p],
    {
        let ghost g_staging = self.staging@;
        let ghost g_cursor = self.cursor as nat;
        let ghost g_shared = crate::window::zero_window(shared.spec_size());
        let n = self.staging.len();
        let len = samples.len();
        let mut i: usize = 0;
        while i < len
            invariant
                1 <= channels,
                i <= len,
                len == samples@.len(),
                self.inv(),
                self.staging_model().len() == n,
                n == shared.spec_size(),
                shared.wf(),
                all_in_range(samples@),
                self.fill_cursor() == run_prefix(
                    g_staging,
                    g_cursor,
                    g_shared,
                    samples@,
                    channels as int,
                    i as int,
                ).1,
                run_prefix(g_staging, g_cursor, g_shared, samples@, channels as int, i as int).0.len()
                    == n,
                run_prefix(g_staging, g_cursor, g_shared, samples@, channels as int, i as int).2.len()
                    == n,
                forall|p: int|
                    0 <= p < self.fill_cursor() ==> self.staging_model()[p] == run_prefix(
                        g_staging,
                        g_cursor,
                        g_shared,
                        samples@,
                        channels as int,
                        i as int,
                    ).0[p],
            decreases len - i,
        {
            let v = samples[i];
            if self.cursor < n {
                let c = self.cursor;
                self.staging.set(c, v);
                self.cursor = c + 1;
            }
            let at_boundary = (i + 1) % channels == 0 || i + 1 == len;
            proof {
                assert(at_boundary == frame_boundary(
                    i + 1 as int,
                    channels as int,
                    samples@.len() as int,
                ));
            }
            if at_boundary && self.cursor >= n {
                shared.exchange(&mut self.staging);
                self.cursor = 0;
            }
            proof {
                let prev = run_prefix(
                    g_staging,
                    g_cursor,
                    g_shared,
                    samples@,
                    channels as int,
                    i as int,
                );
                assert(run_prefix(
                    g_staging,
                    g_cursor,
                    g_shared,
                    samples@,
                    channels as int,
                    i + 1 as int,
                ) == step(
                    prev.0,
                    prev.1,
                    prev.2,
                    samples@[i as int],
                    frame_boundary(i + 1 as int, channels as int, samples@.len() as int),
                ));
            }
            i = i + 1;
        }
    }
}

} // verus!
