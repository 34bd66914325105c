//! One album on an artist's page.
use vstd::prelude::*;

verus! {

/// What stands over the songs.
#[derive(Debug)]
pub struct AlbumHeader {
    pub title: String,
    /// Without an album there is no cover, and nowhere to go.
    pub has_album: bool,
}

/// The header of an album, or of songs without one.
pub fn album_header(title: Option<&str>) -> (r: AlbumHeader)
    ensures
        r.has_album == (title is Some),
        r.title@ == (match title {
            Some(t) => t@,
            None => "Untagged"@,
        }),
{
    match title {
        Some(t) => AlbumHeader { title: t.to_owned(), has_album: true },
        None => AlbumHeader { title: "Untagged".to_owned(), has_album: false },
    }
}

/// The icon of the button that folds the songs.
pub fn collapse_icon(revealed: bool) -> (r: &'static str)
    ensures
        r@ == (if revealed {
            "down-symbolic"@
        } else {
            "up-symbolic"@
        }),
{
    if revealed {
        "down-symbolic"
    } else {
        "up-symbolic"
    }
}

/// How cover and songs are laid out.
#[derive(Clone, Copy, Debug, PartialEq, Eq, Structural)]
pub enum Orientation {
    Horizontal,
    Vertical,
}

/// How cover and songs are laid out: one over the other in narrow windows.
pub fn set_narrow(narrow: bool) -> (r: Orientation)
    ensures
        r == (if narrow {
            Orientation::Vertical
        } else {
            Orientation::Horizontal
        }),
{
    if narrow {
        Orientation::Vertical
    } else {
        Orientation::Horizontal
    }
}

/// The loading of a cover, which starts when the album comes into sight and is
/// given up when it leaves.
#[derive(Clone, Copy, Debug, PartialEq, Eq, Structural)]
pub struct CoverLoad {
    pub loading: bool,
}

impl CoverLoad {
    /// Starts loading. Returns whether an earlier load is to be given up.
    pub fn load_cover(&mut self) -> (r: bool)
        ensures
            r == old(self).loading,
            final(self).loading,
    {
        let abort: bool = self.loading;
        self.loading = true;
        abort
    }

    /// Takes the cover off. Returns whether a load is to be given up.
    pub fn unload_cover(&mut self) -> (r: bool)
        ensures
            r == old(self).loading,
            !final(self).loading,
    {
        let abort: bool = self.loading;
        self.loading = false;
        abort
    }
}

/// An album stands under its title, songs without one under a heading of their own.
pub proof fn songs_without_an_album_have_a_heading(
    title: &str,
    album: AlbumHeader,
    none: AlbumHeader,
)
    requires
        call_ensures(album_header, (Some(title),), album),
        call_ensures(album_header, (None,), none),
    ensures
        album.title@ == title@ && album.has_album,
        none.title@ == "Untagged"@ && !none.has_album,
{
}

/// Cover and songs stand side by side, or one over the other in narrow windows; the
/// icon points down over songs that are shown.
pub proof fn narrow_windows_stack_cover_and_songs(
    narrow: Orientation,
    wide: Orientation,
    open: &'static str,
    folded: &'static str,
)
    requires
        call_ensures(set_narrow, (true,), narrow),
        call_ensures(set_narrow, (false,), wide),
        call_ensures(collapse_icon, (true,), open),
        call_ensures(collapse_icon, (false,), folded),
    ensures
        narrow == Orientation::Vertical,
        wide == Orientation::Horizontal,
        open@ == "down-symbolic"@,
        folded@ == "up-symbolic"@,
{
}

/// A load that is still running is given up when another one begins or the cover
/// goes; one that is not, is not.
pub proof fn running_loads_are_given_up(
    load: &mut CoverLoad,
    reload: &mut CoverLoad,
    unload: &mut CoverLoad,
    unload_again: &mut CoverLoad,
    given_up: (bool, bool, bool, bool),
)
    requires
        !old(load).loading,
        call_ensures(CoverLoad::load_cover, (load,), given_up.0),
        *old(reload) == *final(load),
        call_ensures(CoverLoad::load_cover, (reload,), given_up.1),
        *old(unload) == *final(reload),
        call_ensures(CoverLoad::unload_cover, (unload,), given_up.2),
        *old(unload_again) == *final(unload),
        call_ensures(CoverLoad::unload_cover, (unload_again,), given_up.3),
    ensures
        given_up == (false, true, true, false),
{
}

} // verus!
