//! The logic of Euphonica, a music player client for MPD: what its views,
//! controllers and metadata providers decide and compute, on plain values.
//!
//! Widgets, sockets and files stay outside this crate. They hand it what they
//! read and carry out what it answers.
pub mod collections;
pub mod common;
pub mod dates;
pub mod library;
pub mod meta_providers;
pub mod onboarding;
pub mod paths;
pub mod player;
pub mod text;
