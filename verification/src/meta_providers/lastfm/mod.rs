//! Last.fm: wikis, tags and cover images.
pub mod controller;
pub mod models;
