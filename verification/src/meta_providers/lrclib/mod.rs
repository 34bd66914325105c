//! LRCLIB: lyrics.
pub mod controller;
pub mod models;
