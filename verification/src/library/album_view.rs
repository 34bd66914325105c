//! The grid of all albums, with its sorting and searching.
use crate::common::Date;
use crate::library::sorting::{
    compare_dates, compare_texts, filter_change, matches_term, opt_date_place, opt_text_place,
    search_text, FilterChange, Place, SortOptions,
};
use crate::text::{as_opt_str, occurs_at, opt_view, same};
use vstd::prelude::*;

verus! {

/// What the albums are sorted by.
#[derive(Clone, Copy, Debug, PartialEq, Eq, Structural)]
pub enum AlbumSort {
    Title,
    Artist,
    ReleaseDate,
}

impl AlbumSort {
    /// The name of a sort mode in the settings.
    pub open spec fn setting(self) -> Seq<char> {
        match self {
            AlbumSort::Title => "album-title"@,
            AlbumSort::Artist => "album-artist"@,
            AlbumSort::ReleaseDate => "release-date"@,
        }
    }

    /// The number of a sort mode in the settings.
    pub open spec fn number(self) -> int {
        match self {
            AlbumSort::Title => 3,
            AlbumSort::Artist => 4,
            AlbumSort::ReleaseDate => 5,
        }
    }

    /// The position of a sort mode in the menu.
    pub open spec fn position(self) -> int {
        match self {
            AlbumSort::Title => 0,
            AlbumSort::Artist => 1,
            AlbumSort::ReleaseDate => 2,
        }
    }

    /// The sort mode with this number in the settings.
    pub fn numbered(number: i32) -> (r: AlbumSort)
        requires
            3 <= number <= 5,
        ensures
            r.number() == number,
    {
        match number {
            3 => AlbumSort::Title,
            4 => AlbumSort::Artist,
            _ => AlbumSort::ReleaseDate,
        }
    }
}

/// A name that a sort mode has in the settings.
pub open spec fn is_sort_setting(name: Seq<char>) -> bool {
    name == "album-title"@ || name == "album-artist"@ || name == "release-date"@
}

/// The sort mode with this name in the settings.
pub fn sort_mode_named(name: &str) -> (r: AlbumSort)
    requires
        is_sort_setting(name@),
    ensures
        r.setting() == name@,
{
    if same(name, "album-title") {
        AlbumSort::Title
    } else if same(name, "album-artist") {
        AlbumSort::Artist
    } else {
        AlbumSort::ReleaseDate
    }
}

/// The position in the menu of the sort mode with this name in the settings.
pub fn sort_position(name: &str) -> (r: u32)
    requires
        is_sort_setting(name@),
    ensures
        forall|mode: AlbumSort| #[trigger] mode.setting() == name@ ==> r == mode.position(),
{
    let named: AlbumSort = sort_mode_named(name);
    proof {
        assert forall|mode: AlbumSort| #[trigger] mode.setting() == name@ implies mode == named by {
            sort_modes_are_told_apart(mode, named);
        }
    }
    match named {
        AlbumSort::Title => 0,
        AlbumSort::Artist => 1,
        AlbumSort::ReleaseDate => 2,
    }
}

/// The name in the settings of the sort mode at this position of the menu.
pub fn sort_setting(position: u32) -> (r: &'static str)
    requires
        position <= 2,
    ensures
        forall|mode: AlbumSort| #[trigger] mode.position() == position ==> r@ == mode.setting(),
{
    match position {
        0 => "album-title",
        1 => "album-artist",
        _ => "release-date",
    }
}

/// Two sort modes never share a name or a position, so that a mode that is
/// picked in the menu is the one that is shown there.
pub proof fn sort_modes_are_told_apart(a: AlbumSort, b: AlbumSort)
    ensures
        a.setting() == b.setting() ==> a == b,
        a.position() == b.position() ==> a == b,
        a.number() == b.number() ==> a == b,
{
    reveal_strlit("album-title");
    reveal_strlit("album-artist");
    reveal_strlit("release-date");
    assert("album-title"@.len() == 11);
    assert("album-artist"@.len() == 12);
    assert("release-date"@.len() == 12);
    assert("album-artist"@[0] == 'a');
    assert("release-date"@[0] == 'r');
}

/// What an album is sorted and searched by.
#[derive(Debug)]
pub struct AlbumKeys {
    pub title: String,
    pub artist: Option<String>,
    pub release_date: Option<Date>,
}

/// The place of one album to another.
pub open spec fn album_place(
    a: AlbumKeys,
    b: AlbumKeys,
    mode: AlbumSort,
    options: SortOptions,
    case_sensitive: bool,
) -> Place {
    match mode {
        AlbumSort::Title => opt_text_place(
            Some(a.title@),
            Some(b.title@),
            options,
            case_sensitive,
        ),
        AlbumSort::Artist => opt_text_place(
            opt_view(a.artist),
            opt_view(b.artist),
            options,
            case_sensitive,
        ),
        AlbumSort::ReleaseDate => opt_date_place(a.release_date, b.release_date, options),
    }
}

/// Places two albums.
pub fn compare_albums(
    a: &AlbumKeys,
    b: &AlbumKeys,
    mode: AlbumSort,
    options: SortOptions,
    case_sensitive: bool,
) -> (r: Place)
    ensures
        r == album_place(*a, *b, mode, options, case_sensitive),
{
    match mode {
        AlbumSort::Title => compare_texts(
            Some(a.title.as_str()),
            Some(b.title.as_str()),
            options,
            case_sensitive,
        ),
        AlbumSort::Artist => compare_texts(
            as_opt_str(&a.artist),
            as_opt_str(&b.artist),
            options,
            case_sensitive,
        ),
        AlbumSort::ReleaseDate => compare_dates(a.release_date, b.release_date, options),
    }
}

/// An album matches a search, by where the term is looked for: in title or album
/// artist, in the title only, or in the album artist only.
pub open spec fn album_matches(
    album: AlbumKeys,
    mode: u32,
    term: Seq<char>,
    case_sensitive: bool,
) -> bool {
    let in_title = matches_term(Some(album.title@), term, case_sensitive);
    let in_artist = matches_term(opt_view(album.artist), term, case_sensitive);
    if term.len() == 0 {
        true
    } else if mode == 0 {
        in_title || in_artist
    } else if mode == 1 {
        in_title
    } else if mode == 2 {
        in_artist
    } else {
        true
    }
}

/// Whether an album matches a search.
pub fn search_album(album: &AlbumKeys, mode: u32, term: &str, case_sensitive: bool) -> (r: bool)
    ensures
        r == album_matches(*album, mode, term@, case_sensitive),
{
    if term.unicode_len() == 0 {
        return true;
    }
    match mode {
        0 => search_text(Some(album.title.as_str()), term, case_sensitive) || search_text(
            as_opt_str(&album.artist),
            term,
            case_sensitive,
        ),
        1 => search_text(Some(album.title.as_str()), term, case_sensitive),
        2 => search_text(as_opt_str(&album.artist), term, case_sensitive),
        _ => true,
    }
}

/// The state of the view.
#[derive(Clone, Copy, Debug, PartialEq, Eq, Structural)]
pub struct AlbumView {
    /// Length of the last search term.
    pub last_search_len: usize,
}

impl AlbumView {
    /// A view without a search.
    pub fn new() -> (r: AlbumView)
        ensures
            r.last_search_len == 0,
    {
        AlbumView { last_search_len: 0 }
    }

    /// Takes note of the length of a new search term.
    pub fn on_search_changed(&mut self, new_len: usize) -> (r: FilterChange)
        ensures
            final(self).last_search_len == new_len,
            r == (if new_len > old(self).last_search_len {
                FilterChange::MoreStrict
            } else if new_len < old(self).last_search_len {
                FilterChange::LessStrict
            } else {
                FilterChange::Different
            }),
    {
        let old_len: usize = self.last_search_len;
        self.last_search_len = new_len;
        filter_change(old_len, new_len)
    }
}

/// Albums sorted by title, artist or release date are placed by exactly that: as
/// the titles, the artists or the dates are placed, and by nothing else.
pub proof fn albums_are_placed_by_one_key(
    a: &AlbumKeys,
    b: &AlbumKeys,
    mode: AlbumSort,
    options: SortOptions,
    case_sensitive: bool,
    place: Place,
    title_a: &str,
    title_b: &str,
    by_title: Place,
    artist_a: Option<&str>,
    artist_b: Option<&str>,
    by_artist: Place,
    by_date: Place,
)
    requires
        title_a@ == a.title@,
        title_b@ == b.title@,
        call_ensures(as_opt_str, (&a.artist,), artist_a),
        call_ensures(as_opt_str, (&b.artist,), artist_b),
        call_ensures(compare_albums, (a, b, mode, options, case_sensitive), place),
        call_ensures(
            compare_texts,
            (Some(title_a), Some(title_b), options, case_sensitive),
            by_title,
        ),
        call_ensures(compare_texts, (artist_a, artist_b, options, case_sensitive), by_artist),
        call_ensures(compare_dates, (a.release_date, b.release_date, options), by_date),
    ensures
        mode == AlbumSort::Title ==> place == by_title,
        mode == AlbumSort::Artist ==> place == by_artist,
        mode == AlbumSort::ReleaseDate ==> place == by_date,
{
}

/// Sorted by release date, an earlier album is placed before a later one, or
/// behind it where the order descends; those of one day are placed together, and
/// those without a date at the end that the settings give them.
pub proof fn albums_are_placed_by_the_day(
    a: &AlbumKeys,
    b: &AlbumKeys,
    options: SortOptions,
    case_sensitive: bool,
    place: Place,
)
    requires
        call_ensures(
            compare_albums,
            (a, b, AlbumSort::ReleaseDate, options, case_sensitive),
            place,
        ),
        a.release_date matches Some(d) ==> 1 <= d.month <= 12 && 1 <= d.day <= 31,
        b.release_date matches Some(d) ==> 1 <= d.month <= 12 && 1 <= d.day <= 31,
    ensures
        match (a.release_date, b.release_date) {
            (Some(x), Some(y)) => {
                let left = 10000 * x.year + 100 * x.month + x.day;
                let right = 10000 * y.year + 100 * y.month + y.day;
                let gap = if options.asc { right - left } else { left - right };
                &&& gap > 0 <==> place == Place::Smaller
                &&& gap == 0 <==> place == Place::Equal
                &&& gap < 0 <==> place == Place::Larger
            },
            (None, Some(_)) => options.nulls_first <==> place == Place::Smaller,
            (Some(_), None) => options.nulls_first <==> place == Place::Larger,
            (None, None) => place == Place::Equal,
        },
        place == Place::Equal ==> a.release_date == b.release_date,
{
}

/// A search in the titles finds the albums whose title holds the term, whoever
/// the artist is; one in the artists finds those whose artist does, whatever the
/// title; one in both finds what either of them finds, and nothing else.
pub proof fn albums_are_searched_where_asked(
    album: &AlbumKeys,
    term: &str,
    case_sensitive: bool,
    title: &str,
    artist: Option<&str>,
    in_title: bool,
    in_artist: bool,
    both: bool,
    titles: bool,
    artists: bool,
)
    requires
        term@.len() > 0,
        title@ == album.title@,
        call_ensures(as_opt_str, (&album.artist,), artist),
        call_ensures(search_text, (Some(title), term, case_sensitive), in_title),
        call_ensures(search_text, (artist, term, case_sensitive), in_artist),
        call_ensures(search_album, (album, 0u32, term, case_sensitive), both),
        call_ensures(search_album, (album, 1u32, term, case_sensitive), titles),
        call_ensures(search_album, (album, 2u32, term, case_sensitive), artists),
    ensures
        titles == in_title,
        artists == in_artist,
        both == (in_title || in_artist),
        album.artist is None ==> !artists,
{
}

/// A search in the titles that heeds case finds an album exactly if its title is
/// made of something, the term, and something.
pub proof fn titles_are_searched_for_the_term(
    album: &AlbumKeys,
    term: &str,
    before: Seq<char>,
    after: Seq<char>,
    found: bool,
)
    requires
        term@.len() > 0,
        call_ensures(search_album, (album, 1u32, term, true), found),
    ensures
        album.title@ == before + term@ + after ==> found,
        found ==> exists|i: int|
            0 <= i && i + term@.len() <= album.title@.len() && #[trigger] album.title@.subrange(
                i,
                i + term@.len(),
            ) == term@,
{
    let title = album.title@;
    if title == before + term@ + after {
        let i = before.len() as int;
        assert(title.subrange(i, i + term@.len()) =~= term@);
        assert(occurs_at(title, term@, i));
    }
    if found {
        let i = choose|i: int| occurs_at(title, term@, i);
        assert(title.subrange(i, i + term@.len()) == term@);
    }
}

/// A search in the titles gives one answer on albums of one title, one in the
/// artists gives one answer on albums of one artist.
pub proof fn only_what_is_searched_counts(
    a: &AlbumKeys,
    b: &AlbumKeys,
    term: &str,
    case_sensitive: bool,
    titles_a: bool,
    titles_b: bool,
    artists_a: bool,
    artists_b: bool,
)
    requires
        call_ensures(search_album, (a, 1u32, term, case_sensitive), titles_a),
        call_ensures(search_album, (b, 1u32, term, case_sensitive), titles_b),
        call_ensures(search_album, (a, 2u32, term, case_sensitive), artists_a),
        call_ensures(search_album, (b, 2u32, term, case_sensitive), artists_b),
    ensures
        a.title@ == b.title@ ==> titles_a == titles_b,
        a.artist == b.artist ==> artists_a == artists_b,
{
}

/// Without a term every album is shown, and so it is where nothing is said of
/// where to look.
pub proof fn nothing_to_search_for_finds_all(
    album: &AlbumKeys,
    mode: u32,
    term: &str,
    case_sensitive: bool,
    found: bool,
)
    requires
        term@.len() == 0 || mode > 2,
        call_ensures(search_album, (album, mode, term, case_sensitive), found),
    ensures
        found,
{
}

/// What is picked in the menu is stored under a name that leads back to it.
pub proof fn the_menu_shows_what_was_picked(
    position: u32,
    name: &'static str,
    again: u32,
    mode: AlbumSort,
)
    requires
        position <= 2,
        call_ensures(sort_setting, (position,), name),
        call_ensures(sort_position, (name,), again),
        call_ensures(sort_mode_named, (name,), mode),
    ensures
        again == position,
        position == 0 ==> mode == AlbumSort::Title && name@ == "album-title"@,
        position == 1 ==> mode == AlbumSort::Artist && name@ == "album-artist"@,
        position == 2 ==> mode == AlbumSort::ReleaseDate && name@ == "release-date"@,
{
    let picked = if position == 0 {
        AlbumSort::Title
    } else if position == 1 {
        AlbumSort::Artist
    } else {
        AlbumSort::ReleaseDate
    };
    assert(picked.position() == position);
    assert(picked.setting() == name@);
    sort_modes_are_told_apart(mode, picked);
}

/// The numbers of the settings stand for title, artist and release date, in that
/// order.
pub proof fn sort_numbers_stand_for_modes(title: AlbumSort, artist: AlbumSort, date: AlbumSort)
    requires
        call_ensures(AlbumSort::numbered, (3i32,), title),
        call_ensures(AlbumSort::numbered, (4i32,), artist),
        call_ensures(AlbumSort::numbered, (5i32,), date),
    ensures
        title == AlbumSort::Title,
        artist == AlbumSort::Artist,
        date == AlbumSort::ReleaseDate,
{
}

/// The view compares each new search term with the one before it.
pub proof fn the_view_remembers_the_last_term(
    first: &mut AlbumView,
    len: usize,
    second: &mut AlbumView,
    new_len: usize,
    ignored: FilterChange,
    change: FilterChange,
)
    requires
        call_ensures(AlbumView::on_search_changed, (first, len), ignored),
        *old(second) == *final(first),
        call_ensures(AlbumView::on_search_changed, (second, new_len), change),
    ensures
        change == FilterChange::MoreStrict <==> new_len > len,
        change == FilterChange::LessStrict <==> new_len < len,
        change == FilterChange::Different <==> new_len == len,
{
}

} // verus!
