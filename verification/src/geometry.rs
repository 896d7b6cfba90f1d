//! The waveform transform: from a window of amplitudes to the filled
//! rectangles of a mirrored bar chart centered on the drawable area's
//! midline. All geometry is exact integer arithmetic on the fixed-point
//! amplitudes.

use vstd::prelude::*;

use crate::window::{amp_in_range, Window, AMP_SCALE};

verus! {

/// An axis-aligned filled rectangle in screen coordinates.
#[derive(Clone, Copy, PartialEq, Eq, Structural, Debug)]
pub struct Rect {
    pub x: i32,
    pub y: i32,
    pub width: i32,
    pub height: i32,
}

/// Magnitude of an amplitude.
pub open spec fn amp_abs(v: int) -> int {
    if v < 0 {
        -v
    } else {
        v
    }
}

/// Height of one bar: the amplitude's share of half the drawable height,
/// truncated, then doubled so the bar stays symmetric about the midline in
/// integer pixels.
pub open spec fn spec_bar_height(v: int, h: int) -> int {
    2 * ((amp_abs(v) * h) / (2 * AMP_SCALE as int))
}

/// Top edge of one bar: at the midline for non-negative amplitudes, the bar
/// height above it for negative ones.
pub open spec fn spec_bar_top(v: int, h: int) -> int {
    if v < 0 {
        h / 2 - spec_bar_height(v, h)
    } else {
        h / 2
    }
}

/// The bar of sample `i`: `bar_w` wide, placed `i` bar widths from the left.
pub open spec fn spec_bar_rect(i: int, v: int, bar_w: int, h: int) -> Rect {
    Rect {
        x: (bar_w * i) as i32,
        y: spec_bar_top(v, h) as i32,
        width: bar_w as i32,
        height: spec_bar_height(v, h) as i32,
    }
}

/// Pixel height of the bar for amplitude `v` in a drawable area `h` high.
/// The result is even, non-negative, and never exceeds `h`.
pub fn bar_height(v: i32, h: i32) -> (r: i32)
    requires
        amp_in_range(v as int),
        0 <= h <= 1_000_000,
    ensures
        r == spec_bar_height(v as int, h as int),
        r % 2 == 0,
        0 <= r <= h,
{
    let a: i64 = if v < 0 {
        -(v as i64)
    } else {
        v as i64
    };
    proof {
        assert(0 <= a as int * h as int <= 32_768_000_000) by (nonlinear_arith)
            requires
                0 <= a as int <= AMP_SCALE as int,
                0 <= h as int <= 1_000_000,
        ;
    }
    let q: i64 = (a * (h as i64)) / (2 * AMP_SCALE as i64);
    proof {
        assert(0 <= q * 2 <= h) by (nonlinear_arith)
            requires
                q == (a * h) / (2 * AMP_SCALE as int),
                0 <= a <= AMP_SCALE as int,
                0 <= h <= 1_000_000,
        ;
    }
    (q * 2) as i32
}

/// The full geometry of the bar for sample `i` with amplitude `v`.
/// Non-negative amplitudes hang from the midline `h / 2`; negative ones
/// stand on it, their top edge the bar height above it.
pub fn bar_rect(i: usize, v: i32, bar_w: i32, h: i32) -> (r: Rect)
    requires
        amp_in_range(v as int),
        0 <= h <= 1_000_000,
        0 <= bar_w <= 1_000_000,
        i <= 10_000_000,
        bar_w as int * i as int <= 1_000_000,
    ensures
        r == spec_bar_rect(i as int, v as int, bar_w as int, h as int),
        r.height % 2 == 0,
        0 <= r.height <= h,
        v >= 0 ==> r.y == h / 2,
        v < 0 ==> r.y == h / 2 - r.height,
{
    let height = bar_height(v, h);
    proof {
        assert(0 <= bar_w as int * i as int) by (nonlinear_arith)
            requires
                0 <= bar_w as int,
                0 <= i as int,
        ;
    }
    let x = bar_w * (i as i32);
    let y = if v < 0 {
        h / 2 - height
    } else {
        h / 2
    };
    Rect { x, y, width: bar_w, height }
}

/// The whole window's bar chart: one rectangle per sample, left to right in
/// chronological order. `screen_w` is the full width in pixels; each bar is
/// `screen_w / len` wide, remainder pixels on the right staying uncovered.
pub fn waveform_rects(win: &Window, screen_w: i32, h: i32) -> (out: Vec<Rect>)
    requires
        1 <= win@.len() <= 10_000_000,
        crate::window::all_in_range(win@),
        0 <= screen_w <= 1_000_000,
        0 <= h <= 1_000_000,
    ensures
        out@.len() == win@.len(),
        forall|i: int|
            0 <= i < win@.len() ==> out@[i] == spec_bar_rect(
                i,
                win@[i] as int,
                screen_w as int / win@.len() as int,
                h as int,
            ),
{
    let n = win.len();
    let bar_w = ((screen_w as u32) / (n as u32)) as i32;
    proof {
        assert(bar_w as int * n as int <= screen_w as int && 0 <= bar_w as int) by (
        nonlinear_arith)
            requires
                bar_w as int == screen_w as int / n as int,
                1 <= n as int,
                0 <= screen_w as int <= 1_000_000,
        ;
    }
    let mut out: Vec<Rect> = Vec::new();
    let mut i: usize = 0;
    while i < n
        invariant
            i <= n,
            n == win@.len() <= 10_000_000,
            crate::window::all_in_range(win@),
            0 <= screen_w <= 1_000_000,
            0 <= h <= 1_000_000,
            bar_w as int == screen_w as int / n as int,
            0 <= bar_w as int,
            bar_w as int * n as int <= screen_w as int,
            out@.len() == i,
            forall|j: int|
                0 <= j < i ==> out@[j] == spec_bar_rect(
                    j,
                    win@[j] as int,
                    bar_w as int,
                    h as int,
                ),
        decreases n - i,
    {
        proof {
            assert(bar_w as int * i as int <= bar_w as int * n as int) by (nonlinear_arith)
                requires
                    0 <= bar_w as int,
                    i as int <= n as int,
            ;
        }
        let v = win.get(i);
        let r = bar_rect(i, v, bar_w, h);
        out.push(r);
        i = i + 1;
    }
    out
}

} // verus!
