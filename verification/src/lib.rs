//! Core of a live PCM audio visualizer: decoding of a raw little-endian
//! 16-bit sample stream, a fixed-capacity overwrite window over the most
//! recent samples, the round-robin plot-mode state, and the sample
//! selection behind the waveform and spectrum views. Pixel-space
//! coordinate mapping, the Fourier transform and all I/O stay with the
//! caller; this library hands out plain ordered data with proved
//! contracts.

mod decode;
mod driver;
mod mode;
mod spectrum;
mod wave;
mod window;

pub use decode::decode_samples;
pub use decode::spec_decoded;
pub use decode::spec_le_i16;
pub use driver::ingest_frame;
pub use driver::spec_ingest;
pub use driver::ReadOutcome;
pub use mode::lemma_mode_cycle_wraps;
pub use mode::mode_count;
pub use mode::spec_advance_n;
pub use mode::spec_next_mode;
pub use mode::PlotMode;
pub use mode::PlotModeCycle;
pub use spectrum::lemma_spectrum_deterministic;
pub use spectrum::spec_channel_a;
pub use spectrum::spec_spectrum_block;
pub use spectrum::spectrum_block;
pub use wave::plot_wave;
pub use wave::spec_wave_even;
pub use wave::spec_wave_len;
pub use wave::spec_wave_odd;
pub use wave::PlotPoint;
pub use window::lemma_ring_push_all_snoc;
pub use window::lemma_ring_push_all_window;
pub use window::lemma_window_last_pushed;
pub use window::ring_push_all;
pub use window::ring_step;
pub use window::SampleWindow;
