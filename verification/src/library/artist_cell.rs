//! An artist in a grid, with avatar and up to three covers.
use vstd::prelude::*;

verus! {

/// At most so many covers are fanned out.
pub const MAX_COVERS: usize = 3;

/// How many covers are fanned out.
pub fn cover_count(n_uris: usize) -> (r: u8)
    ensures
        r == (if n_uris < MAX_COVERS {
            n_uris
        } else {
            MAX_COVERS
        }),
{
    if n_uris < MAX_COVERS {
        n_uris as u8
    } else {
        MAX_COVERS as u8
    }
}

/// The layout for so many covers.
pub fn layout_name(count: u8) -> (r: &'static str)
    ensures
        r@ == (if count > 0 {
            "covers"@
        } else {
            "avatar-only"@
        }),
{
    if count > 0 {
        "covers"
    } else {
        "avatar-only"
    }
}

/// What to load next.
#[derive(Clone, Copy, Debug, PartialEq, Eq, Structural)]
pub enum LoadStep {
    /// Load thumbnails, and be done.
    Thumbnails,
    /// Load thumbnails for the time being, pause, and look again.
    ThumbnailsThenWait,
    /// Pause, and look again.
    Wait,
    /// Load the full textures, and be done.
    Hires,
}

/// The loading of textures. Full ones are only loaded while the cache is not
/// backlogged.
#[derive(Clone, Copy, Debug, PartialEq, Eq, Structural)]
pub struct TextureLoad {
    pub hires: bool,
    pub loaded_thumb: bool,
}

impl TextureLoad {
    /// A load that has just begun.
    pub fn new(hires: bool) -> (r: TextureLoad)
        ensures
            r.hires == hires,
            !r.loaded_thumb,
    {
        TextureLoad { hires, loaded_thumb: false }
    }

    /// What to load next, given how much the cache still has to do.
    pub fn next(&mut self, backlog: usize, threshold: usize) -> (r: LoadStep)
        ensures
            final(self).hires == old(self).hires,
            r == (if !old(self).hires {
                LoadStep::Thumbnails
            } else if backlog < threshold {
                LoadStep::Hires
            } else if old(self).loaded_thumb {
                LoadStep::Wait
            } else {
                LoadStep::ThumbnailsThenWait
            }),
            final(self).loaded_thumb == (old(self).loaded_thumb || r is ThumbnailsThenWait),
    {
        if !self.hires {
            LoadStep::Thumbnails
        } else if backlog >= threshold {
            if !self.loaded_thumb {
                self.loaded_thumb = true;
                LoadStep::ThumbnailsThenWait
            } else {
                LoadStep::Wait
            }
        } else {
            LoadStep::Hires
        }
    }
}

/// The state of a cell.
#[derive(Clone, Copy, Debug, PartialEq, Eq, Structural)]
pub struct ArtistCell {
    pub hires: bool,
}

impl ArtistCell {
    /// Whether full textures are wanted.
    pub fn hires(&self) -> (r: bool)
        ensures
            r == self.hires,
    {
        self.hires
    }

    /// Says whether full textures are wanted. Returns whether that is news, and
    /// the textures are to be loaded again.
    pub fn set_hires(&mut self, new: bool) -> (r: bool)
        ensures
            final(self).hires == new,
            r == (old(self).hires != new),
    {
        let changed: bool = self.hires != new;
        self.hires = new;
        changed
    }
}

/// Up to three covers are fanned out, and without one there is only the avatar.
pub proof fn up_to_three_covers_are_fanned_out(n_uris: usize, count: u8, layout: &'static str)
    requires
        call_ensures(cover_count, (n_uris,), count),
        call_ensures(layout_name, (count,), layout),
    ensures
        count <= 3,
        n_uris <= 3 ==> count == n_uris,
        n_uris > 3 ==> count == 3,
        layout@ == (if n_uris == 0 { "avatar-only"@ } else { "covers"@ }),
{
}

/// Full textures are loaded once the cache has caught up; until then thumbnails are
/// loaded, once. Where only thumbnails are wanted they are loaded at once.
pub proof fn full_textures_wait_for_the_cache(
    first: &mut TextureLoad,
    second: &mut TextureLoad,
    third: &mut TextureLoad,
    small: &mut TextureLoad,
    hires: TextureLoad,
    thumbs: TextureLoad,
    backlog: usize,
    threshold: usize,
    less: usize,
    step: LoadStep,
    next: LoadStep,
    done: LoadStep,
    only: LoadStep,
)
    requires
        call_ensures(TextureLoad::new, (true,), hires),
        call_ensures(TextureLoad::new, (false,), thumbs),
        backlog >= threshold,
        less < threshold,
        *old(first) == hires,
        call_ensures(TextureLoad::next, (first, backlog, threshold), step),
        *old(second) == *final(first),
        call_ensures(TextureLoad::next, (second, backlog, threshold), next),
        *old(third) == *final(second),
        call_ensures(TextureLoad::next, (third, less, threshold), done),
        *old(small) == thumbs,
        call_ensures(TextureLoad::next, (small, backlog, threshold), only),
    ensures
        step == LoadStep::ThumbnailsThenWait,
        next == LoadStep::Wait,
        done == LoadStep::Hires,
        only == LoadStep::Thumbnails,
{
}

/// A cell tells when it is to load its textures again.
pub proof fn cells_tell_when_to_load_again(
    cell: &mut ArtistCell,
    again: &mut ArtistCell,
    wanted: bool,
    news: bool,
    no_news: bool,
    now: bool,
)
    requires
        call_ensures(ArtistCell::set_hires, (cell, wanted), news),
        *old(again) == *final(cell),
        call_ensures(ArtistCell::set_hires, (again, wanted), no_news),
        call_ensures(ArtistCell::hires, (final(cell),), now),
    ensures
        now == wanted,
        news <==> old(cell).hires != wanted,
        !no_news,
{
}

} // verus!
