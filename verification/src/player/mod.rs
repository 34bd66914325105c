//! The player: its pane, its bar and the visualiser's sample sources.
pub mod animation;
pub mod bar;
pub mod fft_backends;
pub mod knob;
pub mod output_controls;
pub mod pane;
pub mod playback_controls;
pub mod queue_row;
pub mod seekbar2;
