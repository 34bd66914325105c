//! An album in a grid.
use vstd::prelude::*;

verus! {

/// What a widget asks for along one direction: at least, at best, and the
/// baselines for either.
#[derive(Clone, Copy, Debug, PartialEq, Eq, Structural)]
pub struct Measure {
    pub minimum: i32,
    pub natural: i32,
    pub minimum_baseline: i32,
    pub natural_baseline: i32,
}

/// The state of a cell.
#[derive(Clone, Copy, Debug, PartialEq, Eq, Structural)]
pub struct AlbumCell {
    pub image_size: i32,
    /// Negative if there is none.
    pub rating: i8,
}

impl AlbumCell {
    /// A cell without an album.
    pub fn new() -> (r: AlbumCell)
        ensures
            r.image_size == 128,
            r.rating == -1,
    {
        AlbumCell { image_size: 128, rating: -1 }
    }

    /// The size of the cover.
    pub fn image_size(&self) -> (r: i32)
        ensures
            r == self.image_size,
    {
        self.image_size
    }

    /// Sets the size of the cover. Returns whether that is news.
    pub fn set_image_size(&mut self, new: i32) -> (r: bool)
        ensures
            final(self).image_size == new,
            final(self).rating == old(self).rating,
            r == (old(self).image_size != new),
    {
        let changed: bool = self.image_size != new;
        self.image_size = new;
        changed
    }

    /// Sets the rating. Returns whether that is news.
    pub fn set_rating(&mut self, new: i8) -> (r: bool)
        ensures
            final(self).rating == new,
            final(self).image_size == old(self).image_size,
            r == (old(self).rating != new),
    {
        let changed: bool = self.rating != new;
        self.rating = new;
        changed
    }

    /// Whether the stars are shown.
    pub fn rating_visible(&self) -> (r: bool)
        ensures
            r == (self.rating >= 0),
    {
        self.rating >= 0
    }

    /// The width that the cell asks for: that of its cover, however long the
    /// title is.
    pub fn measure_width(&self) -> (r: Measure)
        ensures
            r.minimum == self.image_size,
            r.natural == self.image_size,
            r.minimum_baseline == -1,
            r.natural_baseline == -1,
    {
        Measure {
            minimum: self.image_size,
            natural: self.image_size,
            minimum_baseline: -1,
            natural_baseline: -1,
        }
    }

    /// The height that the cell asks for at a width: what its contents ask for,
    /// and what the cover lacks to be a square.
    pub fn measure_height(for_size: i32, cover_minimum: i32, inner: Measure) -> (r: Measure)
        requires
            i32::MIN <= for_size - cover_minimum <= i32::MAX,
            inner.minimum + (if for_size > cover_minimum {
                for_size - cover_minimum
            } else {
                0
            }) <= i32::MAX,
        ensures
            r.minimum == inner.minimum + (if for_size > cover_minimum {
                for_size - cover_minimum
            } else {
                0
            }),
            r.natural == inner.natural,
            r.minimum_baseline == inner.minimum_baseline,
            r.natural_baseline == inner.natural_baseline,
    {
        let lacking: i32 = for_size - cover_minimum;
        let diff: i32 = if lacking > 0 {
            lacking
        } else {
            0
        };
        Measure {
            minimum: inner.minimum + diff,
            natural: inner.natural,
            minimum_baseline: inner.minimum_baseline,
            natural_baseline: inner.natural_baseline,
        }
    }
}

/// A cell is as wide as its cover, and tells when the cover changes its size.
pub proof fn cells_are_as_wide_as_their_covers(
    resize: &mut AlbumCell,
    again: &mut AlbumCell,
    size: i32,
    news: bool,
    no_news: bool,
    width: Measure,
    shown: i32,
)
    requires
        call_ensures(AlbumCell::set_image_size, (resize, size), news),
        *old(again) == *final(resize),
        call_ensures(AlbumCell::set_image_size, (again, size), no_news),
        call_ensures(AlbumCell::measure_width, (final(resize),), width),
        call_ensures(AlbumCell::image_size, (final(resize),), shown),
    ensures
        shown == size,
        width.minimum == size && width.natural == size,
        news <==> old(resize).image_size != size,
        !no_news,
        final(resize).rating == old(resize).rating,
{
}

/// The stars of an album are shown exactly if it has a rating.
pub proof fn rated_albums_show_stars(
    rate: &mut AlbumCell,
    rating: i8,
    news: bool,
    visible: bool,
    new: AlbumCell,
    visible_at_first: bool,
)
    requires
        call_ensures(AlbumCell::set_rating, (rate, rating), news),
        call_ensures(AlbumCell::rating_visible, (final(rate),), visible),
        call_ensures(AlbumCell::new, (), new),
        call_ensures(AlbumCell::rating_visible, (&new,), visible_at_first),
    ensures
        visible <==> rating >= 0,
        news <==> old(rate).rating != rating,
        !visible_at_first,
        final(rate).image_size == old(rate).image_size,
{
}

/// The height of a cell makes the cover at least a square: it grows by what the
/// cover lacks, and never shrinks.
pub proof fn covers_become_squares(for_size: i32, cover: i32, inner: Measure, r: Measure)
    requires
        call_ensures(AlbumCell::measure_height, (for_size, cover, inner), r),
    ensures
        r.minimum >= inner.minimum,
        r.minimum - inner.minimum + cover >= for_size,
        for_size <= cover ==> r.minimum == inner.minimum,
        for_size > cover ==> r.minimum - inner.minimum == for_size - cover,
        r.natural == inner.natural,
        r.minimum_baseline == inner.minimum_baseline,
        r.natural_baseline == inner.natural_baseline,
{
}

} // verus!
