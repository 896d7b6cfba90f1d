//! Immutable configuration fixed at startup: sample rate, target frame rate,
//! screen dimensions and the layout constants of the time bar. The size of
//! the sample window shared between producer and renderer is derived from it.

use vstd::prelude::*;

verus! {

/// Configuration chosen once at startup and then threaded unchanged to the
/// playback engine and the renderer.
pub struct Config {
    /// Output sample rate in samples per second per channel.
    pub sample_rate: u32,
    /// Target display frame rate.
    pub fps: u32,
    /// Full window width in pixels.
    pub screen_width: i32,
    /// Full window height in pixels.
    pub screen_height: i32,
    /// Margin used around the time bar and its label, in pixels.
    pub offset: i32,
    /// Height of the time bar track, in pixels.
    pub time_bar_height: i32,
    /// Font size of the time label, in pixels.
    pub font_size: i32,
}

impl Config {
    /// All fields in ranges under which every derived computation stays well
    /// inside its integer type.
    pub open spec fn wf(self) -> bool {
        &&& 1 <= self.fps
        &&& self.fps <= self.sample_rate
        &&& self.sample_rate <= 10_000_000
        &&& 1 <= self.screen_width <= 1_000_000
        &&& 1 <= self.screen_height <= 1_000_000
        &&& 0 <= self.offset <= 100_000
        &&& 0 <= self.time_bar_height <= 100_000
        &&& 0 <= self.font_size <= 100_000
        &&& 2 * self.offset < self.screen_width
        &&& self.font_size + 3 * self.offset + self.time_bar_height < self.screen_height
    }

    /// The stock configuration: CD-rate audio at 60 frames per second, the
    /// screen two pixels wide per displayed sample.
    pub fn standard() -> (c: Config)
        ensures
            c.wf(),
            c.sample_rate == 44100,
            c.fps == 60,
            c.screen_width == 1470,
            c.screen_height == 900,
            c.offset == 12,
            c.time_bar_height == 6,
            c.font_size == 16,
    {
        Config {
            sample_rate: 44100,
            fps: 60,
            screen_width: 1470,
            screen_height: 900,
            offset: 12,
            time_bar_height: 6,
            font_size: 16,
        }
    }

    /// Length of the shared sample window: one display frame's worth of
    /// samples, sample rate divided by frame rate.
    pub open spec fn spec_data_size(self) -> int {
        self.sample_rate as int / self.fps as int
    }

    /// Number of samples shown per displayed frame.
    pub fn data_size(&self) -> (n: usize)
        requires
            self.wf(),
        ensures
            n == self.spec_data_size(),
            1 <= n <= 10_000_000,
    {
        proof {
            let r = self.sample_rate as int;
            let f = self.fps as int;
            assert(1 <= r / f <= r) by (nonlinear_arith)
                requires
                    1 <= f <= r,
            ;
        }
        (self.sample_rate / self.fps) as usize
    }

    /// Height left for the waveform once the time bar, its label and the
    /// margins around them are taken off the bottom of the screen.
    pub open spec fn spec_drawable_height(self) -> int {
        self.screen_height - (self.font_size + 3 * self.offset + self.time_bar_height)
    }

    /// Pixel height available to the waveform bars.
    pub fn drawable_height(&self) -> (h: i32)
        requires
            self.wf(),
        ensures
            h == self.spec_drawable_height(),
    {
        self.screen_height - (self.font_size + 3 * self.offset + self.time_bar_height)
    }
}

/// Total playback duration in milliseconds of a file of `file_len` samples,
/// interleaved over `channels` channels at `sample_rate` samples per second
/// per channel. A zero-length file gives a zero duration.
pub fn total_duration_ms(file_len: u64, sample_rate: u32, channels: u32) -> (ms: u64)
    requires
        1 <= sample_rate,
        1 <= channels,
        file_len <= 1_000_000_000_000,
    ensures
        ms == (file_len as int * 1000) / (sample_rate as int * channels as int),
{
    proof {
        assert(1 <= sample_rate as int * channels as int <= 0xffff_ffff * 0xffff_ffff) by (
        nonlinear_arith)
            requires
                1 <= sample_rate as int <= 0xffff_ffff,
                1 <= channels as int <= 0xffff_ffff,
        ;
    }
    let denom: u64 = (sample_rate as u64) * (channels as u64);
    let ms: u64 = (file_len * 1000) / denom;
    ms
}

} // verus!
