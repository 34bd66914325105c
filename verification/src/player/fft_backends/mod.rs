//! Sources of audio samples for the visualiser.
pub mod backend;
pub mod pipewire;
pub mod ring;
