//! A song in the queue.
use crate::text::{opt_view, same};
use vstd::prelude::*;

verus! {

/// Where a thumbnail comes from.
#[derive(Clone, Copy, Debug, PartialEq, Eq, Structural)]
pub enum CoverSource {
    /// The cover was not looked up yet, or is still to come.
    Unknown,
    /// There is none, and the placeholder is shown.
    Placeholder,
    /// From the folder that the song is in.
    Folder,
    /// From the song itself.
    Embedded,
}

/// What the thumbnail's place shows after an event.
#[derive(Clone, Copy, Debug, PartialEq, Eq, Structural)]
pub enum ThumbnailAction {
    Keep,
    ShowCover,
    ShowPlaceholder,
}

/// Where a cover that is in the cache comes from.
pub open spec fn source_of(is_embedded: bool) -> CoverSource {
    if is_embedded {
        CoverSource::Embedded
    } else {
        CoverSource::Folder
    }
}

/// The state of a row. Rows are bound to one song after the other.
#[derive(Debug)]
pub struct QueueRow {
    /// The URI of the song.
    pub song: Option<String>,
    pub thumbnail_source: CoverSource,
}

impl QueueRow {
    /// A row without a song.
    pub fn new() -> (r: QueueRow)
        ensures
            r.song is None,
            r.thumbnail_source == CoverSource::Unknown,
    {
        QueueRow { song: None, thumbnail_source: CoverSource::Unknown }
    }

    /// The row stands for a song from now on. `cached` says whether a cover is in
    /// the cache, and whether it is the song's own.
    pub fn bind(&mut self, uri: String, cached: Option<bool>) -> (r: ThumbnailAction)
        ensures
            final(self).song == Some(uri),
            final(self).thumbnail_source == (match cached {
                Some(is_embedded) => source_of(is_embedded),
                None => CoverSource::Unknown,
            }),
            r == (if cached is Some {
                ThumbnailAction::ShowCover
            } else {
                ThumbnailAction::ShowPlaceholder
            }),
    {
        self.song = Some(uri);
        self.schedule_thumbnail(cached)
    }

    /// Shows the cover that is in the cache, or the placeholder until it is.
    fn schedule_thumbnail(&mut self, cached: Option<bool>) -> (r: ThumbnailAction)
        ensures
            final(self).song == old(self).song,
            final(self).thumbnail_source == (match cached {
                Some(is_embedded) => source_of(is_embedded),
                None => CoverSource::Unknown,
            }),
            r == (if cached is Some {
                ThumbnailAction::ShowCover
            } else {
                ThumbnailAction::ShowPlaceholder
            }),
    {
        match cached {
            Some(is_embedded) => {
                self.thumbnail_source = if is_embedded {
                    CoverSource::Embedded
                } else {
                    CoverSource::Folder
                };
                ThumbnailAction::ShowCover
            },
            None => {
                self.thumbnail_source = CoverSource::Unknown;
                ThumbnailAction::ShowPlaceholder
            },
        }
    }

    /// The row stands for no song any more.
    pub fn unbind(&mut self) -> (r: ThumbnailAction)
        ensures
            final(self).song is None,
            old(self).song is Some ==> r == ThumbnailAction::ShowPlaceholder && final(self).thumbnail_source == CoverSource::Placeholder,
            old(self).song is None ==> r == ThumbnailAction::Keep && final(self).thumbnail_source
                == old(self).thumbnail_source,
    {
        match self.song {
            Some(_) => {
                self.song = None;
                self.thumbnail_source = CoverSource::Placeholder;
                ThumbnailAction::ShowPlaceholder
            },
            None => ThumbnailAction::Keep,
        }
    }

    /// Whether a cover that was downloaded may be the row's: one for the song, or,
    /// unless the song's own is shown, one for its `folder`.
    pub fn concerns(&self, uri: &str, folder: &str) -> (r: bool)
        ensures
            r == (self.song is Some && (opt_view(self.song) == Some(uri@)
                || self.thumbnail_source != CoverSource::Embedded && folder@ == uri@)),
    {
        match &self.song {
            Some(song) => {
                let shows_own: bool = matches!(self.thumbnail_source, CoverSource::Embedded);
                same(song.as_str(), uri) || !shows_own && same(folder, uri)
            },
            None => false,
        }
    }

    /// A cover that concerns the row was downloaded, and `cached` says what the
    /// cache has now. A song's own cover is never replaced.
    pub fn update_thumbnail(&mut self, cached: Option<bool>) -> (r: ThumbnailAction)
        ensures
            final(self).song == old(self).song,
            match cached {
                Some(is_embedded) if old(self).thumbnail_source != CoverSource::Embedded => {
                    r == ThumbnailAction::ShowCover && final(self).thumbnail_source == source_of(
                        is_embedded,
                    )
                },
                _ => r == ThumbnailAction::Keep && final(self).thumbnail_source == old(self).thumbnail_source,
            },
    {
        match cached {
            Some(is_embedded) => {
                if matches!(self.thumbnail_source, CoverSource::Embedded) {
                    ThumbnailAction::Keep
                } else {
                    self.thumbnail_source = if is_embedded {
                        CoverSource::Embedded
                    } else {
                        CoverSource::Folder
                    };
                    ThumbnailAction::ShowCover
                }
            },
            None => ThumbnailAction::Keep,
        }
    }

    /// A cover was removed: that of the song with this URI, or of the folder. The
    /// row gives up what it shows if it comes from there.
    pub fn on_art_cleared(&mut self, uri: &str, folder: &str) -> (r: ThumbnailAction)
        ensures
            final(self).song == old(self).song,
            ({
                let gone = old(self).song is Some && match old(self).thumbnail_source {
                    CoverSource::Folder => folder@ == uri@,
                    CoverSource::Embedded => opt_view(old(self).song) == Some(uri@),
                    _ => false,
                };
                &&& r == (if gone {
                    ThumbnailAction::ShowPlaceholder
                } else {
                    ThumbnailAction::Keep
                })
                &&& final(self).thumbnail_source == (if gone {
                    CoverSource::Placeholder
                } else {
                    old(self).thumbnail_source
                })
            }),
    {
        let gone: bool = match &self.song {
            Some(song) => match self.thumbnail_source {
                CoverSource::Folder => same(folder, uri),
                CoverSource::Embedded => same(song.as_str(), uri),
                _ => false,
            },
            None => false,
        };
        if gone {
            self.thumbnail_source = CoverSource::Placeholder;
            ThumbnailAction::ShowPlaceholder
        } else {
            ThumbnailAction::Keep
        }
    }
}

/// The icon that grades the song's quality is there if there is a grade.
pub fn quality_grade_visible(icon: Option<&str>) -> (r: bool)
    ensures
        r == (icon is Some),
{
    icon.is_some()
}

/// A row shows the cover of its song if the cache has one, and a placeholder else,
/// also once it stands for no song.
pub proof fn rows_show_the_covers_of_their_songs(
    bind: &mut QueueRow,
    bare: &mut QueueRow,
    unbind: &mut QueueRow,
    idle: &mut QueueRow,
    new: QueueRow,
    uri: String,
    embedded: bool,
    shown: ThumbnailAction,
    without: ThumbnailAction,
    left: ThumbnailAction,
    nothing: ThumbnailAction,
)
    requires
        call_ensures(QueueRow::bind, (bind, uri, Some(embedded)), shown),
        call_ensures(QueueRow::bind, (bare, uri, None), without),
        *old(unbind) == *final(bind),
        call_ensures(QueueRow::unbind, (unbind,), left),
        call_ensures(QueueRow::new, (), new),
        *old(idle) == new,
        call_ensures(QueueRow::unbind, (idle,), nothing),
    ensures
        shown == ThumbnailAction::ShowCover,
        final(bind).song == Some(uri),
        final(bind).thumbnail_source == (if embedded {
            CoverSource::Embedded
        } else {
            CoverSource::Folder
        }),
        without == ThumbnailAction::ShowPlaceholder,
        left == ThumbnailAction::ShowPlaceholder && final(unbind).song is None,
        nothing == ThumbnailAction::Keep,
{
}

/// A cover that was downloaded concerns the row of its song, and the rows of its
/// folder but for those that show covers of their own; a row without a song is
/// concerned by none.
pub proof fn news_of_covers_concerns_their_rows(
    row: &QueueRow,
    uri: &str,
    folder: &str,
    concerned: bool,
)
    requires
        call_ensures(QueueRow::concerns, (row, uri, folder), concerned),
    ensures
        row.song is None ==> !concerned,
        row.song is Some && row.song->0@ == uri@ ==> concerned,
        row.song is Some && folder@ == uri@ && row.thumbnail_source != CoverSource::Embedded
            ==> concerned,
        row.song is Some && row.song->0@ != uri@ && (folder@ != uri@ || row.thumbnail_source
            == CoverSource::Embedded) ==> !concerned,
{
}

/// A downloaded cover is shown, but never in place of the song's own.
pub proof fn own_covers_are_not_replaced(
    row: &mut QueueRow,
    embedded: bool,
    action: ThumbnailAction,
    missing: &mut QueueRow,
    kept: ThumbnailAction,
)
    requires
        call_ensures(QueueRow::update_thumbnail, (row, Some(embedded)), action),
        call_ensures(QueueRow::update_thumbnail, (missing, None), kept),
    ensures
        old(row).thumbnail_source == CoverSource::Embedded ==> action == ThumbnailAction::Keep
            && final(row).thumbnail_source == CoverSource::Embedded,
        old(row).thumbnail_source != CoverSource::Embedded ==> action == ThumbnailAction::ShowCover
            && final(row).thumbnail_source == (if embedded {
            CoverSource::Embedded
        } else {
            CoverSource::Folder
        }),
        final(row).song == old(row).song,
        kept == ThumbnailAction::Keep && final(missing).thumbnail_source
            == old(missing).thumbnail_source,
{
}

/// A row gives up its cover exactly if the one that it shows was removed: that of
/// its folder, or that of its song.
pub proof fn removed_covers_are_given_up(
    row: &mut QueueRow,
    uri: &str,
    folder: &str,
    action: ThumbnailAction,
    icon: &str,
    graded: bool,
    ungraded: bool,
)
    requires
        call_ensures(QueueRow::on_art_cleared, (row, uri, folder), action),
        call_ensures(quality_grade_visible, (Some(icon),), graded),
        call_ensures(quality_grade_visible, (None,), ungraded),
    ensures
        action == ThumbnailAction::ShowPlaceholder <==> old(row).song is Some && (
        old(row).thumbnail_source == CoverSource::Folder && folder@ == uri@
            || old(row).thumbnail_source == CoverSource::Embedded && old(row).song->0@ == uri@),
        action == ThumbnailAction::ShowPlaceholder ==> final(row).thumbnail_source
            == CoverSource::Placeholder,
        action != ThumbnailAction::ShowPlaceholder ==> action == ThumbnailAction::Keep,
        action == ThumbnailAction::Keep ==> final(row).thumbnail_source
            == old(row).thumbnail_source,
        final(row).song == old(row).song,
        graded && !ungraded,
{
}

} // verus!
