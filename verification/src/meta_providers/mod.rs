//! Sources of metadata that tags do not hold: wikis, images, lyrics.
pub mod base;
pub mod chain;
pub mod lastfm;
pub mod lrclib;
pub mod models;
pub mod musicbrainz;
