//! Core logic of a live waveform visualizer: the fixed-size sample window
//! exchanged between the audio producer and the renderer, the staging engine
//! that fills it, the bar-chart geometry derived from it, and the playback
//! clock text. Amplitudes are carried as fixed-point values so that every
//! computation here is exact integer arithmetic.

pub mod buffer;
pub mod config;
pub mod engine;
pub mod geometry;
pub mod source;
pub mod timebar;
pub mod timefmt;
pub mod window;

pub use buffer::FrameBuffer;
pub use buffer::SharedFrameBuffer;
pub use config::Config;
pub use engine::PlaybackEngine;
pub use geometry::Rect;
pub use source::SampleSource;
pub use window::Window;
pub use window::AMP_SCALE;
