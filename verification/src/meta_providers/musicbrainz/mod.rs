//! MusicBrainz: releases, artists and links to cover art.
pub mod controller;
