//! The time bar at the bottom of the screen: a background track spanning the
//! drawable width and a foreground fill whose width is the elapsed share of
//! the total duration. A zero total duration gives an empty fill rather than
//! a division error, and the fill is clamped to the track.

use vstd::prelude::*;

use crate::config::Config;
use crate::geometry::Rect;

verus! {

/// Width of the filled part of a `track_w`-wide track after `elapsed` of
/// `total` time units: the elapsed fraction of the track, clamped to the
/// track, and 0 when the total is 0.
pub open spec fn spec_fill_width(track_w: int, elapsed: int, total: int) -> int {
    if total <= 0 {
        0
    } else {
        let e = if elapsed <= total {
            elapsed
        } else {
            total
        };
        (track_w * e) / total
    }
}

/// Filled width of the time bar, in pixels. Defined for every input: a zero
/// total yields 0, and an elapsed time past the total yields the full track.
pub fn fill_width(track_w: u32, elapsed_ms: u64, total_ms: u64) -> (r: u32)
    ensures
        r == spec_fill_width(track_w as int, elapsed_ms as int, total_ms as int),
        r <= track_w,
        total_ms == 0 ==> r == 0,
{
    if total_ms == 0 {
        0
    } else {
        let e: u64 = if elapsed_ms <= total_ms {
            elapsed_ms
        } else {
            total_ms
        };
        proof {
            assert(0 <= track_w as int * e as int <= 0xffff_ffff * 0xffff_ffff_ffff_ffff) by (
            nonlinear_arith)
                requires
                    0 <= track_w as int <= 0xffff_ffff,
                    0 <= e as int <= 0xffff_ffff_ffff_ffff,
            ;
        }
        let w: u128 = ((track_w as u128) * (e as u128)) / (total_ms as u128);
        proof {
            assert(0 <= (track_w as int * e as int) / (total_ms as int)
                <= track_w as int) by (nonlinear_arith)
                requires
                    1 <= total_ms as int,
                    0 <= e as int <= total_ms as int,
                    0 <= track_w as int,
            ;
        }
        w as u32
    }
}

/// The background track of the time bar: inset by the margin on both sides,
/// sitting above the label at the bottom of the screen.
pub open spec fn spec_track_rect(cfg: Config) -> Rect {
    Rect {
        x: cfg.offset as i32,
        y: (cfg.screen_height - 2 * cfg.offset - cfg.font_size) as i32,
        width: (cfg.screen_width - 2 * cfg.offset) as i32,
        height: cfg.time_bar_height as i32,
    }
}

/// The foreground fill: the track's left part, as wide as the elapsed share
/// of the total duration.
pub open spec fn spec_fill_rect(cfg: Config, elapsed_ms: int, total_ms: int) -> Rect {
    Rect {
        x: cfg.offset as i32,
        y: (cfg.screen_height - 2 * cfg.offset - cfg.font_size) as i32,
        width: spec_fill_width(
            cfg.screen_width as int - 2 * cfg.offset as int,
            elapsed_ms,
            total_ms,
        ) as i32,
        height: cfg.time_bar_height as i32,
    }
}

/// Track and fill rectangles of the time bar after `elapsed_ms` of
/// `total_ms` milliseconds of playback. The fill never leaves the track,
/// and a zero total duration leaves it empty.
pub fn timebar_rects(cfg: &Config, elapsed_ms: u64, total_ms: u64) -> (r: (Rect, Rect))
    requires
        cfg.wf(),
    ensures
        r.0 == spec_track_rect(*cfg),
        r.1 == spec_fill_rect(*cfg, elapsed_ms as int, total_ms as int),
        0 <= r.1.width <= r.0.width,
        total_ms == 0 ==> r.1.width == 0,
{
    let track_w = cfg.screen_width - 2 * cfg.offset;
    let y = cfg.screen_height - 2 * cfg.offset - cfg.font_size;
    let track = Rect { x: cfg.offset, y, width: track_w, height: cfg.time_bar_height };
    let fw = fill_width(track_w as u32, elapsed_ms, total_ms);
    let fill = Rect { x: cfg.offset, y, width: fw as i32, height: cfg.time_bar_height };
    (track, fill)
}

/// Where the clock label is drawn: at the margin from the left, a margin and
/// one font size up from the bottom.
pub fn label_position(cfg: &Config) -> (p: (i32, i32))
    requires
        cfg.wf(),
    ensures
        p.0 == cfg.offset,
        p.1 == cfg.screen_height - cfg.offset - cfg.font_size,
{
    (cfg.offset, cfg.screen_height - cfg.offset - cfg.font_size)
}

} // verus!
