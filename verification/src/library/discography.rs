//! The songs of an artist, in order and in sections by year and album.
use crate::collections::{lists_values, new_position_table, position_table, positions, set_position};
use crate::common::{ArtistInfo, SongInfo};
use crate::library::controller::Library;
use crate::text::{is_before, same, text_before, text_order_is_total};
use itertools::Itertools;
use rustc_hash::FxHashMap;
use std::cmp::Ordering;
use vstd::prelude::*;

verus! {

/// The release year of a song.
pub open spec fn year_of(song: SongInfo) -> Option<i32> {
    match song.release_date {
        Some(date) => Some(date.year),
        None => None,
    }
}

/// The title of the album of a song.
pub open spec fn album_title_of(song: SongInfo) -> Option<Seq<char>> {
    match song.album {
        Some(album) => Some(album.title@),
        None => None,
    }
}

/// What tells the album of a song from others.
pub open spec fn album_id_of(song: SongInfo) -> Option<Seq<char>> {
    match song.album {
        Some(album) => Some(album.comp_id@),
        None => None,
    }
}

/// The track number of a song, which only means something within an album.
pub open spec fn track_of(song: SongInfo) -> Option<i64> {
    if song.album is Some {
        song.track
    } else {
        None
    }
}

/// Descending years, those without a year last.
pub open spec fn year_before(a: Option<i32>, b: Option<i32>) -> bool {
    a is Some && (b is None || a->0 > b->0)
}

/// Ascending titles, those without an album last.
pub open spec fn title_before(a: Option<Seq<char>>, b: Option<Seq<char>>) -> bool {
    a is Some && (b is None || text_before(a->0, b->0))
}

/// Ascending track numbers, those without one last.
pub open spec fn track_before(a: Option<i64>, b: Option<i64>) -> bool {
    a is Some && (b is None || a->0 < b->0)
}

/// The order of an artist's songs: by year, then album title, then track
/// number, then URI.
pub open spec fn song_before(a: SongInfo, b: SongInfo) -> bool {
    ||| year_before(year_of(a), year_of(b))
    ||| {
        &&& year_of(a) == year_of(b)
        &&& {
            ||| title_before(album_title_of(a), album_title_of(b))
            ||| {
                &&& album_title_of(a) == album_title_of(b)
                &&& {
                    ||| track_before(track_of(a), track_of(b))
                    ||| track_of(a) == track_of(b) && text_before(a.uri@, b.uri@)
                }
            }
        }
    }
}

/// Neither song comes before the other.
pub open spec fn song_ties(a: SongInfo, b: SongInfo) -> bool {
    &&& year_of(a) == year_of(b)
    &&& album_title_of(a) == album_title_of(b)
    &&& track_of(a) == track_of(b)
    &&& a.uri@ == b.uri@
}

/// No song comes before one that stands in front of it.
pub open spec fn in_song_order(songs: Seq<SongInfo>) -> bool {
    forall|i: int, j: int|
        0 <= i < j < songs.len() ==> !song_before(#[trigger] songs[j], #[trigger] songs[i])
}

/// The order of songs is a strict weak order: two songs either tie or exactly
/// one of them comes before the other, and the order is transitive.
pub proof fn song_order_is_total(a: SongInfo, b: SongInfo, c: SongInfo)
    ensures
        !song_before(a, a),
        song_ties(a, b) || song_before(a, b) || song_before(b, a),
        song_ties(a, b) ==> !song_before(a, b) && !song_before(b, a),
        !(song_before(a, b) && song_before(b, a)),
        song_before(a, b) && song_before(b, c) ==> song_before(a, c),
{
    text_order_is_total(a.uri@, b.uri@, c.uri@);
    let (ta, tb, tc) = (album_title_of(a), album_title_of(b), album_title_of(c));
    if ta is Some {
        text_order_is_total(ta->0, ta->0, ta->0);
    }
    if ta is Some && tb is Some {
        text_order_is_total(ta->0, tb->0, if tc is Some { tc->0 } else { ta->0 });
    }
}

fn year(song: &SongInfo) -> (r: Option<i32>)
    ensures
        r == year_of(*song),
{
    match &song.release_date {
        Some(date) => Some(date.year),
        None => None,
    }
}

/// Compares two songs by the order of an artist's songs.
fn song_order(s1: &SongInfo, s2: &SongInfo) -> (r: Ordering)
    ensures
        r == Ordering::Less <==> song_before(*s1, *s2),
        r == Ordering::Greater <==> song_before(*s2, *s1),
        r == Ordering::Equal <==> song_ties(*s1, *s2),
{
    proof {
        song_order_is_total(*s1, *s2, *s1);
    }
    match (year(s1), year(s2)) {
        (Some(_), None) => {
            return Ordering::Less;
        },
        (None, Some(_)) => {
            return Ordering::Greater;
        },
        (Some(y1), Some(y2)) => {
            if y1 > y2 {
                return Ordering::Less;
            }
            if y1 < y2 {
                return Ordering::Greater;
            }
        },
        (None, None) => {},
    }
    match (&s1.album, &s2.album) {
        (Some(_), None) => {
            return Ordering::Less;
        },
        (None, Some(_)) => {
            return Ordering::Greater;
        },
        (Some(a1), Some(a2)) => {
            proof {
                text_order_is_total(a1.title@, a2.title@, a1.title@);
            }
            if is_before(a1.title.as_str(), a2.title.as_str()) {
                return Ordering::Less;
            }
            if is_before(a2.title.as_str(), a1.title.as_str()) {
                return Ordering::Greater;
            }
            match (s1.track, s2.track) {
                (Some(_), None) => {
                    return Ordering::Less;
                },
                (None, Some(_)) => {
                    return Ordering::Greater;
                },
                (Some(t1), Some(t2)) => {
                    if t1 < t2 {
                        return Ordering::Less;
                    }
                    if t1 > t2 {
                        return Ordering::Greater;
                    }
                },
                (None, None) => {},
            }
        },
        (None, None) => {},
    }
    proof {
        text_order_is_total(s1.uri@, s2.uri@, s1.uri@);
    }
    if is_before(s1.uri.as_str(), s2.uri.as_str()) {
        Ordering::Less
    } else if is_before(s2.uri.as_str(), s1.uri.as_str()) {
        Ordering::Greater
    } else {
        Ordering::Equal
    }
}

/// The songs of a list that tie with `song`, in the order of the list.
pub open spec fn ties_with(songs: Seq<SongInfo>, song: SongInfo) -> Seq<SongInfo> {
    songs.filter(|other: SongInfo| song_ties(song, other))
}

/// `Itertools::sorted_by`, with the comparison [`song_order`]: the same songs,
/// sorted, where songs that tie keep the order they had. The comparison is a
/// strict weak order, as [`song_order_is_total`] shows.
#[verifier::external_body]
fn sorted(songs: Vec<SongInfo>) -> (r: Vec<SongInfo>)
    ensures
        r@.to_multiset() == songs@.to_multiset(),
        in_song_order(r@),
        forall|song: SongInfo| #[trigger] ties_with(r@, song) == ties_with(songs@, song),
{
    songs.into_iter().sorted_by(|s1, s2| song_order(s1, s2)).collect()
}

/// No later song has the same URI.
pub open spec fn is_latest(songs: Seq<SongInfo>, i: int) -> bool {
    0 <= i < songs.len() && forall|j: int|
        i < j < songs.len() ==> (#[trigger] songs[j]).uri@ != songs[i].uri@
}

/// `song` is the last one of its URI, and stands among the first `n`.
pub open spec fn latest_among(songs: Seq<SongInfo>, song: SongInfo, n: int) -> bool {
    exists|i: int| i < n && #[trigger] is_latest(songs, i) && songs[i] == song
}

/// `kept` holds, for each URI of `songs`, the last song with that URI and no
/// other.
pub open spec fn holds_latest(songs: Seq<SongInfo>, kept: Seq<SongInfo>) -> bool {
    &&& forall|k: int|
        0 <= k < kept.len() ==> latest_among(songs, #[trigger] kept[k], songs.len() as int)
    &&& forall|i: int| #[trigger] is_latest(songs, i) ==> kept.contains(songs[i])
    &&& forall|k: int, l: int|
        0 <= k < l < kept.len() ==> (#[trigger] kept[k]).uri@ != (#[trigger] kept[l]).uri@
}

/// The table gives the last position of each URI among the first `n` songs.
spec fn indexes(table: Map<Seq<char>, usize>, songs: Seq<SongInfo>, n: int) -> bool {
    &&& forall|j: int| 0 <= j < n ==> table.dom().contains((#[trigger] songs[j]).uri@)
    &&& forall|uri: Seq<char>| #[trigger]
        table.dom().contains(uri) ==> {
            &&& table[uri] < n
            &&& songs[table[uri] as int].uri@ == uri
            &&& forall|j: int| table[uri] < j < n ==> (#[trigger] songs[j]).uri@ != uri
        }
}

proof fn listed_positions_are_latest(
    table: Map<Seq<char>, usize>,
    list: Seq<usize>,
    songs: Seq<SongInfo>,
)
    requires
        indexes(table, songs, songs.len() as int),
        lists_values(table, list),
    ensures
        forall|k: int| 0 <= k < list.len() ==> is_latest(songs, #[trigger] list[k] as int),
        forall|i: int| #[trigger]
            is_latest(songs, i) ==> exists|k: int| 0 <= k < list.len() && #[trigger] list[k] == i,
{
    let keys = choose|keys: Seq<Seq<char>>|
        {
            &&& keys.no_duplicates()
            &&& #[trigger] keys.to_set() == table.dom()
            &&& list == keys.map_values(|key: Seq<char>| table[key])
        };
    assert forall|k: int| 0 <= k < list.len() implies is_latest(
        songs,
        #[trigger] list[k] as int,
    ) by {
        assert(keys.to_set().contains(keys[k]));
        assert(table.dom().contains(keys[k]));
    }
    assert forall|i: int| #[trigger] is_latest(songs, i) implies exists|k: int|
        0 <= k < list.len() && #[trigger] list[k] == i by {
        let uri = songs[i].uri@;
        assert(table.dom().contains(uri));
        assert(keys.to_set().contains(uri));
        let k = choose|k: int| 0 <= k < keys.len() && keys[k] == uri;
        assert(list[k] == table[uri]);
        if table[uri] < i {
            assert(songs[i].uri@ != uri);
        }
        if table[uri] > i {
            assert(songs[table[uri] as int].uri@ != songs[i].uri@);
        }
    }
}

/// For each URI the last song with that URI.
fn latest_by_uri(songs: Vec<SongInfo>) -> (r: Vec<SongInfo>)
    ensures
        holds_latest(songs@, r@),
{
    let n: usize = songs.len();
    let mut table: FxHashMap<String, usize> = new_position_table();
    for i in 0..n
        invariant
            n == songs.len(),
            indexes(position_table(table), songs@, i as int),
    {
        set_position(&mut table, songs[i].uri.clone(), i);
    }
    let list: Vec<usize> = positions(table);
    proof {
        listed_positions_are_latest(position_table(table), list@, songs@);
    }
    let mut keep: Vec<bool> = Vec::new();
    for i in 0..n
        invariant
            keep.len() == i,
            forall|j: int| 0 <= j < i ==> !keep@[j],
    {
        keep.push(false);
    }
    for k in 0..list.len()
        invariant
            n == songs.len(),
            keep.len() == n,
            forall|m: int| 0 <= m < list.len() ==> is_latest(songs@, #[trigger] list@[m] as int),
            forall|i: int| 0 <= i < n ==> (#[trigger] keep@[i] ==> is_latest(songs@, i)),
            forall|m: int| 0 <= m < k ==> keep@[#[trigger] list@[m] as int],
    {
        let position: usize = list[k];
        assert(is_latest(songs@, position as int));
        keep.set(position, true);
    }
    let ghost all = songs@;
    assert forall|i: int| 0 <= i < n implies #[trigger] keep@[i] == is_latest(all, i) by {
        if is_latest(all, i) {
            let k = choose|k: int| 0 <= k < list.len() && #[trigger] list@[k] == i;
            assert(keep@[list@[k] as int]);
        }
    }
    let mut kept: Vec<SongInfo> = Vec::new();
    let mut at: usize = 0;
    for song in it: songs.into_iter()
        invariant
            it.seq() == all,
            at == it.index(),
            n == all.len(),
            keep.len() == n,
            forall|i: int| 0 <= i < n ==> #[trigger] keep@[i] == is_latest(all, i),
            forall|k: int|
                0 <= k < kept.len() ==> latest_among(all, #[trigger] kept@[k], at as int),
            forall|i: int| i < at && #[trigger] is_latest(all, i) ==> kept@.contains(all[i]),
            forall|k: int, l: int|
                0 <= k < l < kept.len() ==> (#[trigger] kept@[k]).uri@ != (#[trigger] kept@[l]).uri@,
    {
        let ghost before = kept@;
        let ghost position = at as int;
        assert(song == all[position]);
        if keep[at] {
            assert(is_latest(all, position));
            kept.push(song);
            assert(kept@.last() == all[position]);
            assert forall|i: int| i <= position && #[trigger] is_latest(all, i) implies kept@.contains(
                all[i],
            ) by {
                if i < position {
                    let k = choose|k: int| 0 <= k < before.len() && before[k] == all[i];
                    assert(kept@[k] == all[i]);
                }
            }
            assert forall|k: int| 0 <= k < before.len() implies (#[trigger] kept@[k]).uri@
                != all[position].uri@ by {
                let i = choose|i: int|
                    i < position && #[trigger] is_latest(all, i) && all[i] == before[k];
                assert(all[position].uri@ != all[i].uri@);
            }
        }
        assert forall|k: int| 0 <= k < kept.len() implies latest_among(
            all,
            #[trigger] kept@[k],
            position + 1,
        ) by {
            if k < before.len() {
                assert(kept@[k] == before[k]);
            } else {
                assert(is_latest(all, position));
            }
        }
        at = at + 1;
    }
    assert(forall|i: int| #[trigger] is_latest(all, i) ==> i < at);
    kept
}

proof fn reordering_keeps_latest(songs: Seq<SongInfo>, kept: Seq<SongInfo>, other: Seq<SongInfo>)
    requires
        holds_latest(songs, kept),
        kept.to_multiset() == other.to_multiset(),
    ensures
        holds_latest(songs, other),
{
    kept.to_multiset_ensures();
    other.to_multiset_ensures();
    assert(kept.no_duplicates()) by {
        assert forall|i: int, j: int|
            0 <= i < kept.len() && 0 <= j < kept.len() && i != j implies kept[i] != kept[j] by {
            if i < j {
                assert(kept[i].uri@ != kept[j].uri@);
            } else {
                assert(kept[j].uri@ != kept[i].uri@);
            }
        }
    }
    kept.lemma_multiset_has_no_duplicates();
    assert(forall|song: SongInfo| kept.contains(song) <==> kept.to_multiset().count(song) > 0);
    assert(forall|song: SongInfo| other.contains(song) <==> other.to_multiset().count(song) > 0);
    other.lemma_multiset_has_no_duplicates_conv();
    assert forall|k: int| 0 <= k < other.len() implies latest_among(
        songs,
        #[trigger] other[k],
        songs.len() as int,
    ) by {
        assert(other.contains(other[k]));
        assert(kept.contains(other[k]));
    }
    assert forall|i: int| #[trigger] is_latest(songs, i) implies other.contains(songs[i]) by {
        assert(kept.contains(songs[i]));
    }
    assert forall|k: int, l: int| 0 <= k < l < other.len() implies (#[trigger] other[k]).uri@ != (
    #[trigger] other[l]).uri@ by {
        assert(other.contains(other[k]));
        assert(other.contains(other[l]));
        assert(kept.contains(other[k]));
        assert(kept.contains(other[l]));
        assert(other[k] != other[l]);
        let i = choose|i: int| 0 <= i < kept.len() && kept[i] == other[k];
        let j = choose|j: int| 0 <= j < kept.len() && kept[j] == other[l];
        if i < j {
            assert(kept[i].uri@ != kept[j].uri@);
        } else {
            assert(kept[j].uri@ != kept[i].uri@);
        }
    }
}

/// A stretch of songs from one album, or of songs without one: those at the
/// positions from `start` up to, not including, `end`.
#[derive(Clone, Copy, Debug, PartialEq, Eq, Structural)]
pub struct AlbumSection {
    pub start: usize,
    pub end: usize,
}

/// The albums of one year, or those without a year.
#[derive(Debug)]
pub struct YearSection {
    pub year: Option<i32>,
    pub albums: Vec<AlbumSection>,
}

/// The albums follow one another without gaps from `from` to `to`.
pub open spec fn tiles(albums: Seq<AlbumSection>, from: int, to: int) -> bool {
    &&& albums.len() > 0
    &&& albums[0].start == from
    &&& albums.last().end == to
    &&& forall|k: int| 0 <= k < albums.len() ==> (#[trigger] albums[k]).start < albums[k].end
    &&& forall|k: int, l: int|
        0 <= k && l == k + 1 && l < albums.len() ==> (#[trigger] albums[k]).end == (
        #[trigger] albums[l]).start
}

/// All songs of a section are of that year and of the same album.
pub open spec fn uniform(songs: Seq<SongInfo>, year: Option<i32>, album: AlbumSection) -> bool {
    forall|i: int|
        album.start <= i < album.end ==> year_of(#[trigger] songs[i]) == year && album_id_of(
            songs[i],
        ) == album_id_of(songs[album.start as int])
}

/// The albums cover the songs from `from` to `to`, which are all of `year`, and
/// each holds as many songs as it can.
pub open spec fn covers(
    songs: Seq<SongInfo>,
    year: Option<i32>,
    albums: Seq<AlbumSection>,
    from: int,
    to: int,
) -> bool {
    &&& tiles(albums, from, to)
    &&& forall|k: int| 0 <= k < albums.len() ==> uniform(songs, year, #[trigger] albums[k])
    &&& forall|k: int, l: int|
        0 <= k && l == k + 1 && l < albums.len() ==> album_id_of(
            songs[(#[trigger] albums[k]).start as int],
        ) != album_id_of(songs[(#[trigger] albums[l]).start as int])
}

/// Where the songs of a year begin.
pub open spec fn starts_at(section: YearSection) -> int {
    section.albums@[0].start as int
}

/// Where the songs of a year end.
pub open spec fn ends_at(section: YearSection) -> int {
    section.albums@.last().end as int
}

/// The sections cover the first `n` songs in order, and each year holds as many
/// songs as it can.
pub open spec fn sectioned(songs: Seq<SongInfo>, years: Seq<YearSection>, n: int) -> bool {
    &&& n == 0 <==> years.len() == 0
    &&& n > 0 ==> starts_at(years[0]) == 0 && ends_at(years.last()) == n
    &&& forall|y: int|
        0 <= y < years.len() ==> covers(
            songs,
            (#[trigger] years[y]).year,
            years[y].albums@,
            starts_at(years[y]),
            ends_at(years[y]),
        )
    &&& forall|y: int, z: int|
        0 <= y && z == y + 1 && z < years.len() ==> ends_at(#[trigger] years[y]) == starts_at(
            #[trigger] years[z],
        ) && years[y].year != years[z].year
}

fn same_year(a: Option<i32>, b: Option<i32>) -> (r: bool)
    ensures
        r == (a == b),
{
    match (a, b) {
        (Some(x), Some(y)) => x == y,
        (None, None) => true,
        _ => false,
    }
}

fn same_album(s1: &SongInfo, s2: &SongInfo) -> (r: bool)
    ensures
        r == (album_id_of(*s1) == album_id_of(*s2)),
{
    match (&s1.album, &s2.album) {
        (Some(a1), Some(a2)) => same(a1.comp_id.as_str(), a2.comp_id.as_str()),
        (None, None) => true,
        _ => false,
    }
}

/// Puts neighbouring songs of the same year and album into sections.
fn sections(songs: &Vec<SongInfo>) -> (r: Vec<YearSection>)
    ensures
        sectioned(songs@, r@, songs@.len() as int),
{
    let mut years: Vec<YearSection> = Vec::new();
    let mut i: usize = 0;
    while i < songs.len()
        invariant
            i <= songs.len(),
            sectioned(songs@, years@, i as int),
            i < songs.len() && years.len() > 0 ==> years@.last().year != year_of(songs@[i as int]),
        decreases songs.len() - i,
    {
        let first: usize = i;
        let curr_year: Option<i32> = year(&songs[first]);
        let mut albums: Vec<AlbumSection> = Vec::new();
        while i < songs.len() && same_year(year(&songs[i]), curr_year)
            invariant
                first <= i <= songs.len(),
                first < songs.len(),
                curr_year == year_of(songs@[first as int]),
                i == first <==> albums.len() == 0,
                i > first ==> covers(songs@, curr_year, albums@, first as int, i as int),
                first < i < songs.len() && year_of(songs@[i as int]) == curr_year ==> album_id_of(
                    songs@[albums@.last().start as int],
                ) != album_id_of(songs@[i as int]),
            decreases songs.len() - i,
        {
            let start: usize = i;
            i = i + 1;
            while i < songs.len() && same_year(year(&songs[i]), curr_year) && same_album(
                &songs[start],
                &songs[i],
            )
                invariant
                    first <= start < i <= songs.len(),
                    year_of(songs@[start as int]) == curr_year,
                    uniform(songs@, curr_year, AlbumSection { start, end: i }),
                decreases songs.len() - i,
            {
                i = i + 1;
            }
            albums.push(AlbumSection { start, end: i });
        }
        years.push(YearSection { year: curr_year, albums });
    }
    years
}

/// One of the artists has that identity.
pub open spec fn credits(artists: Seq<ArtistInfo>, comp_id: Seq<char>) -> bool {
    exists|i: int| 0 <= i < artists.len() && (#[trigger] artists[i]).comp_id@ == comp_id
}

/// The song is by that artist.
pub open spec fn by_artist(song: SongInfo, comp_id: Seq<char>) -> bool {
    credits(song.artists@, comp_id)
}

/// The album of the song is by that artist.
pub open spec fn by_albumartist(song: SongInfo, comp_id: Seq<char>) -> bool {
    song.album is Some && credits(song.album->0.artists@, comp_id)
}

/// The songs that an artist's content is made of. The server looks names up by
/// substring, so what it finds may be by others.
pub open spec fn found_songs(
    comp_id: Seq<char>,
    artist_songs: Seq<SongInfo>,
    albumartist_songs: Seq<SongInfo>,
) -> Seq<SongInfo> {
    artist_songs.filter(|song: SongInfo| by_artist(song, comp_id)) + albumartist_songs.filter(
        |song: SongInfo| by_albumartist(song, comp_id),
    )
}

fn has_artist(artists: &Vec<ArtistInfo>, comp_id: &str) -> (r: bool)
    ensures
        r == credits(artists@, comp_id@),
{
    for i in 0..artists.len()
        invariant
            forall|j: int| 0 <= j < i ==> (#[trigger] artists@[j]).comp_id@ != comp_id@,
    {
        if same(artists[i].comp_id.as_str(), comp_id) {
            return true;
        }
    }
    false
}

fn keep_by_artist(batch: Vec<SongInfo>, comp_id: &str) -> (r: Vec<SongInfo>)
    ensures
        r@ == batch@.filter(|song: SongInfo| by_artist(song, comp_id@)),
{
    let ghost all = batch@;
    let ghost wanted = |song: SongInfo| by_artist(song, comp_id@);
    let mut kept: Vec<SongInfo> = Vec::new();
    proof {
        reveal(Seq::filter);
        assert(all.take(0).filter(wanted) =~= Seq::empty());
    }
    for song in it: batch.into_iter()
        invariant
            it.seq() == all,
            wanted == (|song: SongInfo| by_artist(song, comp_id@)),
            kept@ == all.take(it.index()).filter(wanted),
    {
        proof {
            reveal(Seq::filter);
            assert(all.take(it.index() + 1).drop_last() =~= all.take(it.index()));
            assert(song == all[it.index()]);
        }
        if has_artist(&song.artists, comp_id) {
            kept.push(song);
        }
    }
    assert(all.take(all.len() as int) =~= all);
    kept
}

fn keep_by_albumartist(batch: Vec<SongInfo>, comp_id: &str) -> (r: Vec<SongInfo>)
    ensures
        r@ == batch@.filter(|song: SongInfo| by_albumartist(song, comp_id@)),
{
    let ghost all = batch@;
    let ghost wanted = |song: SongInfo| by_albumartist(song, comp_id@);
    let mut kept: Vec<SongInfo> = Vec::new();
    proof {
        reveal(Seq::filter);
        assert(all.take(0).filter(wanted) =~= Seq::empty());
    }
    for song in it: batch.into_iter()
        invariant
            it.seq() == all,
            wanted == (|song: SongInfo| by_albumartist(song, comp_id@)),
            kept@ == all.take(it.index()).filter(wanted),
    {
        proof {
            reveal(Seq::filter);
            assert(all.take(it.index() + 1).drop_last() =~= all.take(it.index()));
            assert(song == all[it.index()]);
        }
        let wants: bool = match &song.album {
            Some(album) => has_artist(&album.artists, comp_id),
            None => false,
        };
        if wants {
            kept.push(song);
        }
    }
    assert(all.take(all.len() as int) =~= all);
    kept
}

/// The songs of an artist, and the same songs by year and album.
#[derive(Debug)]
pub struct ArtistContent {
    pub songs: Vec<SongInfo>,
    pub years: Vec<YearSection>,
}

/// The content of an artist, out of what the server found for the artist's name
/// among song artists and among album artists. A song found more than once is
/// taken as it was found last.
pub fn artist_content(
    comp_id: &str,
    artist_songs: Vec<SongInfo>,
    albumartist_songs: Vec<SongInfo>,
) -> (r: ArtistContent)
    ensures
        holds_latest(found_songs(comp_id@, artist_songs@, albumartist_songs@), r.songs@),
        forall|i: int, j: int|
            0 <= i < j < r.songs.len() ==> song_before(
                #[trigger] r.songs@[i],
                #[trigger] r.songs@[j],
            ),
        sectioned(r.songs@, r.years@, r.songs@.len() as int),
{
    let ghost found = found_songs(comp_id@, artist_songs@, albumartist_songs@);
    let mut songs: Vec<SongInfo> = keep_by_artist(artist_songs, comp_id);
    let mut others: Vec<SongInfo> = keep_by_albumartist(albumartist_songs, comp_id);
    songs.append(&mut others);
    assert(songs@ =~= found);
    let kept: Vec<SongInfo> = latest_by_uri(songs);
    let ghost unsorted = kept@;
    let songs: Vec<SongInfo> = sorted(kept);
    proof {
        reordering_keeps_latest(found, unsorted, songs@);
        assert forall|i: int, j: int| 0 <= i < j < songs.len() implies song_before(
            #[trigger] songs@[i],
            #[trigger] songs@[j],
        ) by {
            song_order_is_total(songs@[i], songs@[j], songs@[i]);
            assert(songs@[i].uri@ != songs@[j].uri@);
        }
    }
    let years: Vec<YearSection> = sections(&songs);
    ArtistContent { songs, years }
}

proof fn albums_advance(albums: Seq<AlbumSection>, from: int, to: int, k: int, l: int)
    requires
        tiles(albums, from, to),
        0 <= k <= l < albums.len(),
    ensures
        from <= albums[k].start <= albums[l].start < albums[l].end <= to,
        k < l ==> albums[k].end <= albums[l].start,
    decreases albums.len() - k, l,
{
    if l + 1 < albums.len() {
        albums_advance(albums, from, to, l + 1, l + 1);
        assert(albums[l].end == albums[l + 1].start);
    }
    if k < l {
        albums_advance(albums, from, to, k, l - 1);
        assert(albums[l - 1].end == albums[l].start);
    } else {
        albums_start_late(albums, from, to, k);
    }
}

proof fn albums_start_late(albums: Seq<AlbumSection>, from: int, to: int, k: int)
    requires
        tiles(albums, from, to),
        0 <= k < albums.len(),
    ensures
        from <= albums[k].start,
    decreases k,
{
    if k > 0 {
        albums_start_late(albums, from, to, k - 1);
        assert(albums[k - 1].end == albums[k].start);
    }
}

proof fn years_advance(songs: Seq<SongInfo>, years: Seq<YearSection>, y: int, z: int)
    requires
        sectioned(songs, years, songs.len() as int),
        0 <= y <= z < years.len(),
    ensures
        0 <= starts_at(years[y]) <= starts_at(years[z]) < ends_at(years[z]) <= songs.len(),
        y < z ==> ends_at(years[y]) <= starts_at(years[z]),
    decreases years.len() - y, z,
{
    let s = years[z];
    albums_advance(s.albums@, starts_at(s), ends_at(s), 0, s.albums@.len() - 1);
    if z + 1 < years.len() {
        years_advance(songs, years, z + 1, z + 1);
        assert(ends_at(years[z]) == starts_at(years[z + 1]));
    }
    if y < z {
        years_advance(songs, years, y, z - 1);
        assert(ends_at(years[z - 1]) == starts_at(years[z]));
    }
}

/// The years of an artist's content run strictly downwards, each is there once,
/// and the songs without a year come last.
pub proof fn years_descend(songs: Seq<SongInfo>, years: Seq<YearSection>, y: int, z: int)
    requires
        in_song_order(songs),
        sectioned(songs, years, songs.len() as int),
        0 <= y < z < years.len(),
    ensures
        year_before(years[y].year, years[z].year),
    decreases z,
{
    if y < z - 1 {
        years_descend(songs, years, y, z - 1);
    }
    let (a, b) = (years[z - 1], years[z]);
    years_advance(songs, years, z - 1, z);
    assert(starts_at(a) < starts_at(b)) by {
        albums_advance(a.albums@, starts_at(a), ends_at(a), 0, a.albums@.len() - 1);
    }
    let (i, j) = (starts_at(a), starts_at(b));
    assert(uniform(songs, a.year, a.albums@[0]));
    assert(uniform(songs, b.year, b.albums@[0]));
    assert(year_of(songs[i]) == a.year);
    assert(year_of(songs[j]) == b.year);
    assert(!song_before(songs[j], songs[i]));
    assert(a.year != b.year);
}

/// Within a year, the songs without an album come after all that have one.
pub proof fn albumless_songs_close_a_year(
    songs: Seq<SongInfo>,
    years: Seq<YearSection>,
    y: int,
    k: int,
)
    requires
        in_song_order(songs),
        sectioned(songs, years, songs.len() as int),
        0 <= y < years.len(),
        0 <= k < years[y].albums@.len(),
        songs[years[y].albums@[k].start as int].album is None,
    ensures
        k == years[y].albums@.len() - 1,
{
    let section = years[y];
    let albums = section.albums@;
    if k + 1 < albums.len() {
        years_advance(songs, years, y, y);
        albums_advance(albums, starts_at(section), ends_at(section), k, k + 1);
        let (i, j) = (albums[k].start as int, albums[k + 1].start as int);
        assert(uniform(songs, section.year, albums[k]));
        assert(uniform(songs, section.year, albums[k + 1]));
        assert(year_of(songs[i]) == section.year);
        assert(year_of(songs[j]) == section.year);
        assert(!song_before(songs[j], songs[i]));
        assert(album_id_of(songs[i]) != album_id_of(songs[j]));
    }
}

/// A song with neither a year nor an album comes after every song that has one
/// of them, and two such songs are ordered by their URIs.
pub proof fn untagged_songs_come_last(song: SongInfo, other: SongInfo)
    requires
        year_of(song) is None,
        song.album is None,
    ensures
        year_of(other) is Some || other.album is Some ==> song_before(other, song),
        year_of(other) is None && other.album is None ==> (song_before(song, other) <==> text_before(
            song.uri@,
            other.uri@,
        )),
{
}

proof fn album_around(albums: Seq<AlbumSection>, from: int, to: int, i: int, n: int)
    requires
        tiles(albums, from, to),
        0 < n <= albums.len(),
        from <= i < albums[n - 1].end,
    ensures
        exists|k: int| 0 <= k < n && (#[trigger] albums[k]).start <= i < albums[k].end,
    decreases n,
{
    if albums[n - 1].start <= i {
    } else {
        albums_advance(albums, from, to, n - 2, n - 1);
        assert(albums[n - 2].end == albums[n - 1].start);
        album_around(albums, from, to, i, n - 1);
    }
}

proof fn year_around(songs: Seq<SongInfo>, years: Seq<YearSection>, i: int, n: int)
    requires
        sectioned(songs, years, songs.len() as int),
        0 < n <= years.len(),
        0 <= i < ends_at(years[n - 1]),
    ensures
        exists|y: int| 0 <= y < n && starts_at(#[trigger] years[y]) <= i < ends_at(years[y]),
    decreases n,
{
    if starts_at(years[n - 1]) <= i {
    } else {
        years_advance(songs, years, n - 2, n - 1);
        assert(ends_at(years[n - 2]) == starts_at(years[n - 1]));
        year_around(songs, years, i, n - 1);
    }
}

/// Every song is in a section, which is of the song's year and album.
pub proof fn every_song_has_a_section(
    songs: Seq<SongInfo>,
    years: Seq<YearSection>,
    i: int,
) -> (place: (int, int))
    requires
        sectioned(songs, years, songs.len() as int),
        0 <= i < songs.len(),
    ensures
        0 <= place.0 < years.len(),
        0 <= place.1 < years[place.0].albums@.len(),
        years[place.0].year == year_of(songs[i]),
        years[place.0].albums@[place.1].start <= i < years[place.0].albums@[place.1].end,
        album_id_of(songs[years[place.0].albums@[place.1].start as int]) == album_id_of(songs[i]),
{
    year_around(songs, years, i, years.len() as int);
    let y = choose|y: int|
        0 <= y < years.len() && starts_at(#[trigger] years[y]) <= i < ends_at(years[y]);
    let albums = years[y].albums@;
    album_around(albums, starts_at(years[y]), ends_at(years[y]), i, albums.len() as int);
    let k = choose|k: int|
        0 <= k < albums.len() && (#[trigger] albums[k]).start <= i < albums[k].end;
    assert(uniform(songs, years[y].year, albums[k]));
    (y, k)
}

/// An artist's songs come by year, the latest first, then by the title of the
/// album, then by track number, then by URI. What has no year, no album or no
/// track number comes behind what has one.
pub proof fn songs_come_by_year_title_track_and_uri(
    artist: &ArtistInfo,
    artist_songs: Vec<SongInfo>,
    albumartist_songs: Vec<SongInfo>,
    content: ArtistContent,
    i: int,
    j: int,
)
    requires
        call_ensures(
            Library::get_artist_content,
            (artist, artist_songs, albumartist_songs),
            content,
        ),
        0 <= i < j < content.songs@.len(),
    ensures
        ({
            let (a, b) = (content.songs@[i], content.songs@[j]);
            let one_year = match (a.release_date, b.release_date) {
                (Some(x), Some(y)) => x.year == y.year,
                (None, None) => true,
                _ => false,
            };
            &&& match (a.release_date, b.release_date) {
                (Some(x), Some(y)) => x.year >= y.year,
                (None, Some(_)) => false,
                _ => true,
            }
            &&& one_year ==> match (a.album, b.album) {
                (Some(x), Some(y)) => {
                    &&& x.title@ == y.title@ || text_before(x.title@, y.title@)
                    &&& x.title@ == y.title@ ==> match (a.track, b.track) {
                        (Some(s), Some(t)) => s < t || s == t && text_before(a.uri@, b.uri@),
                        (None, Some(_)) => false,
                        (Some(_), None) => true,
                        (None, None) => text_before(a.uri@, b.uri@),
                    }
                },
                (None, Some(_)) => false,
                (Some(_), None) => true,
                (None, None) => text_before(a.uri@, b.uri@),
            }
        }),
{
    let (a, b) = (content.songs@[i], content.songs@[j]);
    assert(song_before(a, b));
    if let (Some(x), Some(y)) = (a.album, b.album) {
        text_order_is_total(x.title@, y.title@, x.title@);
    }
}

proof fn latest_of_its_uri(songs: Seq<SongInfo>, i: int) -> (j: int)
    requires
        0 <= i < songs.len(),
    ensures
        i <= j < songs.len(),
        is_latest(songs, j),
        songs[j].uri@ == songs[i].uri@,
    decreases songs.len() - i,
{
    if is_latest(songs, i) {
        i
    } else {
        let k = choose|k: int|
            i < k < songs.len() && (#[trigger] songs[k]).uri@ == songs[i].uri@;
        latest_of_its_uri(songs, k)
    }
}

/// Every song that was found among the songs by the artist, or by its album among
/// the albums by the artist, is in the content.
pub proof fn no_song_of_the_artist_is_missing(
    artist: &ArtistInfo,
    artist_songs: Vec<SongInfo>,
    albumartist_songs: Vec<SongInfo>,
    content: ArtistContent,
    song: SongInfo,
    credit: int,
)
    requires
        call_ensures(
            Library::get_artist_content,
            (artist, artist_songs, albumartist_songs),
            content,
        ),
        ({
            ||| {
                &&& artist_songs@.contains(song)
                &&& 0 <= credit < song.artists@.len()
                &&& song.artists@[credit].comp_id@ == artist.comp_id@
            }
            ||| {
                &&& albumartist_songs@.contains(song)
                &&& song.album matches Some(album)
                &&& 0 <= credit < album.artists@.len()
                &&& album.artists@[credit].comp_id@ == artist.comp_id@
            }
        }),
    ensures
        exists|k: int|
            0 <= k < content.songs@.len() && (#[trigger] content.songs@[k]).uri@ == song.uri@,
{
    let id = artist.comp_id@;
    let first = artist_songs@.filter(|song: SongInfo| by_artist(song, id));
    let second = albumartist_songs@.filter(|song: SongInfo| by_albumartist(song, id));
    let found = found_songs(id, artist_songs@, albumartist_songs@);
    assert(found == first + second);
    let at = if artist_songs@.contains(song) && by_artist(song, id) {
        let p = choose|p: int| 0 <= p < artist_songs@.len() && artist_songs@[p] == song;
        artist_songs@.lemma_filter_contains(|song: SongInfo| by_artist(song, id), p);
        choose|q: int| 0 <= q < first.len() && first[q] == song
    } else {
        let p = choose|p: int| 0 <= p < albumartist_songs@.len() && albumartist_songs@[p] == song;
        albumartist_songs@.lemma_filter_contains(|song: SongInfo| by_albumartist(song, id), p);
        first.len() + choose|q: int| 0 <= q < second.len() && second[q] == song
    };
    assert(found[at] == song);
    let j = latest_of_its_uri(found, at);
    assert(content.songs@.contains(found[j]));
    let k = choose|k: int| 0 <= k < content.songs@.len() && content.songs@[k] == found[j];
    assert(content.songs@[k].uri@ == song.uri@);
}

/// Every song of the content was found, and is by the artist or on an album by the
/// artist: the server also finds artists whose names hold that of the artist.
pub proof fn no_song_of_others_gets_in(
    artist: &ArtistInfo,
    artist_songs: Vec<SongInfo>,
    albumartist_songs: Vec<SongInfo>,
    content: ArtistContent,
    k: int,
)
    requires
        call_ensures(
            Library::get_artist_content,
            (artist, artist_songs, albumartist_songs),
            content,
        ),
        0 <= k < content.songs@.len(),
    ensures
        ({
            let song = content.songs@[k];
            ||| {
                &&& artist_songs@.contains(song)
                &&& exists|i: int|
                    0 <= i < song.artists@.len() && (#[trigger] song.artists@[i]).comp_id@
                        == artist.comp_id@
            }
            ||| {
                &&& albumartist_songs@.contains(song)
                &&& song.album matches Some(album)
                &&& exists|i: int|
                    0 <= i < album.artists@.len() && (#[trigger] album.artists@[i]).comp_id@
                        == artist.comp_id@
            }
        }),
{
    let id = artist.comp_id@;
    let song = content.songs@[k];
    let first = artist_songs@.filter(|song: SongInfo| by_artist(song, id));
    let second = albumartist_songs@.filter(|song: SongInfo| by_albumartist(song, id));
    let found = found_songs(id, artist_songs@, albumartist_songs@);
    assert(latest_among(found, song, found.len() as int));
    let i = choose|i: int| #[trigger] is_latest(found, i) && found[i] == song;
    if i < first.len() {
        assert(first[i] == song);
        artist_songs@.lemma_filter_pred(|song: SongInfo| by_artist(song, id), i);
        artist_songs@.lemma_filter_contains_rev(|song: SongInfo| by_artist(song, id), song);
    } else {
        assert(second[i - first.len()] == song);
        albumartist_songs@.lemma_filter_pred(
            |song: SongInfo| by_albumartist(song, id),
            i - first.len(),
        );
        albumartist_songs@.lemma_filter_contains_rev(
            |song: SongInfo| by_albumartist(song, id),
            song,
        );
    }
}

/// No song is in the content twice, though it may be found twice.
pub proof fn each_song_is_there_once(
    artist: &ArtistInfo,
    artist_songs: Vec<SongInfo>,
    albumartist_songs: Vec<SongInfo>,
    content: ArtistContent,
    i: int,
    j: int,
)
    requires
        call_ensures(
            Library::get_artist_content,
            (artist, artist_songs, albumartist_songs),
            content,
        ),
        0 <= i < content.songs@.len(),
        0 <= j < content.songs@.len(),
        content.songs@[i].uri@ == content.songs@[j].uri@,
    ensures
        i == j,
{
    if i < j {
        assert(content.songs@[i].uri@ != content.songs@[j].uri@);
    }
    if j < i {
        assert(content.songs@[j].uri@ != content.songs@[i].uri@);
    }
}

proof fn filtering_keeps_the_latest(
    songs: Seq<SongInfo>,
    wanted: spec_fn(SongInfo) -> bool,
    at: int,
) -> (kept_at: int)
    requires
        0 <= at < songs.len(),
        wanted(songs[at]),
        forall|j: int|
            at < j < songs.len() && wanted(#[trigger] songs[j]) ==> songs[j].uri@
                != songs[at].uri@,
    ensures
        is_latest(songs.filter(wanted), kept_at),
        songs.filter(wanted)[kept_at] == songs[at],
    decreases songs.len(),
{
    reveal(Seq::filter);
    let rest = songs.drop_last();
    let kept = rest.filter(wanted);
    if at == songs.len() - 1 {
        assert(songs.filter(wanted) == kept.push(songs[at]));
        kept.len() as int
    } else {
        assert forall|j: int|
            at < j < rest.len() && wanted(#[trigger] rest[j]) implies rest[j].uri@
            != rest[at].uri@ by {
            assert(rest[j] == songs[j]);
        }
        let kept_at = filtering_keeps_the_latest(rest, wanted, at);
        if wanted(songs.last()) {
            assert(songs.filter(wanted) == kept.push(songs.last()));
            assert(songs[songs.len() - 1].uri@ != songs[at].uri@);
            assert forall|j: int| kept_at < j < kept.len() + 1 implies (#[trigger] kept.push(
                songs.last(),
            )[j]).uri@ != songs[at].uri@ by {
                if j < kept.len() {
                    assert(kept[j].uri@ != kept[kept_at].uri@);
                }
            }
        }
        kept_at
    }
}

/// A song that was found more than once is taken as it was found last: a song
/// found among the album artists' is taken from there, and from the last place
/// there.
pub proof fn songs_are_taken_as_found_last(
    artist: &ArtistInfo,
    artist_songs: Vec<SongInfo>,
    albumartist_songs: Vec<SongInfo>,
    content: ArtistContent,
    at: int,
    credit: int,
)
    requires
        call_ensures(
            Library::get_artist_content,
            (artist, artist_songs, albumartist_songs),
            content,
        ),
        0 <= at < albumartist_songs@.len(),
        albumartist_songs@[at].album matches Some(album) && 0 <= credit < album.artists@.len()
            && album.artists@[credit].comp_id@ == artist.comp_id@,
        forall|j: int|
            at < j < albumartist_songs@.len() ==> (#[trigger] albumartist_songs@[j]).uri@
                != albumartist_songs@[at].uri@,
    ensures
        content.songs@.contains(albumartist_songs@[at]),
{
    let id = artist.comp_id@;
    let first = artist_songs@.filter(|song: SongInfo| by_artist(song, id));
    let second = albumartist_songs@.filter(|song: SongInfo| by_albumartist(song, id));
    let found = found_songs(id, artist_songs@, albumartist_songs@);
    assert(found == first + second);
    let k = filtering_keeps_the_latest(
        albumartist_songs@,
        |song: SongInfo| by_albumartist(song, id),
        at,
    );
    let q = first.len() + k;
    assert(found[q] == second[k]);
    assert forall|j: int| q < j < found.len() implies (#[trigger] found[j]).uri@
        != found[q].uri@ by {
        assert(found[j] == second[j - first.len()]);
        assert(second[j - first.len()].uri@ != second[k].uri@);
    }
    assert(is_latest(found, q));
}

/// Every song is listed under its year and in a section with songs of its album
/// only; a song without a year or without an album is among its like.
pub proof fn each_song_is_listed_under_its_year_and_album(
    artist: &ArtistInfo,
    artist_songs: Vec<SongInfo>,
    albumartist_songs: Vec<SongInfo>,
    content: ArtistContent,
    i: int,
) -> (place: (int, int))
    requires
        call_ensures(
            Library::get_artist_content,
            (artist, artist_songs, albumartist_songs),
            content,
        ),
        0 <= i < content.songs@.len(),
    ensures
        0 <= place.0 < content.years@.len(),
        0 <= place.1 < content.years@[place.0].albums@.len(),
        ({
            let year = content.years@[place.0];
            let album = year.albums@[place.1];
            &&& album.start <= i < album.end <= content.songs@.len()
            &&& forall|j: int|
                album.start <= j < album.end ==> {
                    &&& match ((#[trigger] content.songs@[j]).release_date, year.year) {
                        (Some(date), Some(y)) => date.year == y,
                        (None, None) => true,
                        _ => false,
                    }
                    &&& match (content.songs@[j].album, content.songs@[i].album) {
                        (Some(a), Some(b)) => a.comp_id@ == b.comp_id@,
                        (None, None) => true,
                        _ => false,
                    }
                }
        }),
{
    let (y, k) = every_song_has_a_section(content.songs@, content.years@, i);
    let year = content.years@[y];
    let album = year.albums@[k];
    years_advance(content.songs@, content.years@, y, y);
    albums_advance(year.albums@, starts_at(year), ends_at(year), k, k);
    assert(uniform(content.songs@, year.year, album));
    assert forall|j: int| album.start <= j < album.end implies year_of(
        #[trigger] content.songs@[j],
    ) == year.year && album_id_of(content.songs@[j]) == album_id_of(content.songs@[i]) by {
        assert(album_id_of(content.songs@[i]) == album_id_of(content.songs@[album.start as int]));
    }
    (y, k)
}

/// No song is listed twice: two sections have no song in common.
pub proof fn no_song_is_listed_twice(
    artist: &ArtistInfo,
    artist_songs: Vec<SongInfo>,
    albumartist_songs: Vec<SongInfo>,
    content: ArtistContent,
    i: int,
    one: (int, int),
    other: (int, int),
)
    requires
        call_ensures(
            Library::get_artist_content,
            (artist, artist_songs, albumartist_songs),
            content,
        ),
        0 <= one.0 < content.years@.len(),
        0 <= one.1 < content.years@[one.0].albums@.len(),
        0 <= other.0 < content.years@.len(),
        0 <= other.1 < content.years@[other.0].albums@.len(),
        content.years@[one.0].albums@[one.1].start <= i
            < content.years@[one.0].albums@[one.1].end,
        content.years@[other.0].albums@[other.1].start <= i
            < content.years@[other.0].albums@[other.1].end,
    ensures
        one == other,
{
    let (songs, years) = (content.songs@, content.years@);
    let (a, b) = (years[one.0], years[other.0]);
    albums_advance(a.albums@, starts_at(a), ends_at(a), one.1, one.1);
    albums_advance(b.albums@, starts_at(b), ends_at(b), other.1, other.1);
    if one.0 < other.0 {
        years_advance(songs, years, one.0, other.0);
    } else if other.0 < one.0 {
        years_advance(songs, years, other.0, one.0);
    } else if one.1 < other.1 {
        albums_advance(a.albums@, starts_at(a), ends_at(a), one.1, other.1);
    } else if other.1 < one.1 {
        albums_advance(a.albums@, starts_at(a), ends_at(a), other.1, one.1);
    }
}

/// Two songs that follow one another, of one year and one album, are in the same
/// section: no album is split without need.
pub proof fn an_album_is_not_split(
    artist: &ArtistInfo,
    artist_songs: Vec<SongInfo>,
    albumartist_songs: Vec<SongInfo>,
    content: ArtistContent,
    i: int,
    place: (int, int),
)
    requires
        call_ensures(
            Library::get_artist_content,
            (artist, artist_songs, albumartist_songs),
            content,
        ),
        0 <= place.0 < content.years@.len(),
        0 <= place.1 < content.years@[place.0].albums@.len(),
        content.years@[place.0].albums@[place.1].start <= i
            < content.years@[place.0].albums@[place.1].end,
        0 <= i && i + 1 < content.songs@.len(),
        match (content.songs@[i].release_date, content.songs@[i + 1].release_date) {
            (Some(x), Some(y)) => x.year == y.year,
            (None, None) => true,
            _ => false,
        },
        match (content.songs@[i].album, content.songs@[i + 1].album) {
            (Some(x), Some(y)) => x.comp_id@ == y.comp_id@,
            (None, None) => true,
            _ => false,
        },
    ensures
        i + 1 < content.years@[place.0].albums@[place.1].end,
{
    let (songs, years) = (content.songs@, content.years@);
    let (y, k) = place;
    let albums = years[y].albums@;
    assert(uniform(songs, years[y].year, albums[k]));
    assert(year_of(songs[i]) == year_of(songs[i + 1]));
    assert(album_id_of(songs[i]) == album_id_of(songs[i + 1]));
    if i + 1 == albums[k].end {
        albums_advance(albums, starts_at(years[y]), ends_at(years[y]), k, k);
        if k + 1 < albums.len() {
            assert(albums[k].end == albums[k + 1].start);
            assert(album_id_of(songs[albums[k].start as int]) != album_id_of(
                songs[albums[k + 1].start as int],
            ));
        } else {
            assert(ends_at(years[y]) == i + 1);
            years_advance(songs, years, y, y);
            if y + 1 < years.len() {
                let next = years[y + 1];
                assert(ends_at(years[y]) == starts_at(next));
                assert(uniform(songs, next.year, next.albums@[0]));
                albums_advance(next.albums@, starts_at(next), ends_at(next), 0, 0);
                assert(year_of(songs[i + 1]) == next.year);
            } else {
                assert(years[y] == years.last());
            }
        }
    }
}

/// Later years are listed before earlier ones, none twice, and what has no year
/// comes last.
pub proof fn later_years_are_listed_first(
    artist: &ArtistInfo,
    artist_songs: Vec<SongInfo>,
    albumartist_songs: Vec<SongInfo>,
    content: ArtistContent,
    y: int,
    z: int,
)
    requires
        call_ensures(
            Library::get_artist_content,
            (artist, artist_songs, albumartist_songs),
            content,
        ),
        0 <= y < z < content.years@.len(),
    ensures
        content.years@[y].year is Some,
        content.years@[z].year matches Some(year) ==> content.years@[y].year->0 > year,
        content.years@[y].albums@.len() > 0,
        content.years@[z].albums@.len() > 0,
{
    let songs = content.songs@;
    assert forall|i: int, j: int| 0 <= i < j < songs.len() implies !song_before(
        #[trigger] songs[j],
        #[trigger] songs[i],
    ) by {
        song_order_is_total(songs[i], songs[j], songs[i]);
    }
    years_descend(songs, content.years@, y, z);
}

/// A song by the artist that was not found again among the albums is taken as it was
/// found last among the songs.
pub proof fn songs_by_the_artist_are_taken_as_found_last(
    artist: &ArtistInfo,
    artist_songs: Vec<SongInfo>,
    albumartist_songs: Vec<SongInfo>,
    content: ArtistContent,
    at: int,
    credit: int,
)
    requires
        call_ensures(
            Library::get_artist_content,
            (artist, artist_songs, albumartist_songs),
            content,
        ),
        0 <= at < artist_songs@.len(),
        0 <= credit < artist_songs@[at].artists@.len(),
        artist_songs@[at].artists@[credit].comp_id@ == artist.comp_id@,
        forall|j: int|
            at < j < artist_songs@.len() ==> (#[trigger] artist_songs@[j]).uri@
                != artist_songs@[at].uri@,
        forall|j: int|
            0 <= j < albumartist_songs@.len() ==> (#[trigger] albumartist_songs@[j]).uri@
                != artist_songs@[at].uri@,
    ensures
        content.songs@.contains(artist_songs@[at]),
{
    let id = artist.comp_id@;
    let first = artist_songs@.filter(|song: SongInfo| by_artist(song, id));
    let second = albumartist_songs@.filter(|song: SongInfo| by_albumartist(song, id));
    let found = found_songs(id, artist_songs@, albumartist_songs@);
    assert(found == first + second);
    assert(by_artist(artist_songs@[at], id));
    let k = filtering_keeps_the_latest(artist_songs@, |song: SongInfo| by_artist(song, id), at);
    assert(found[k] == first[k]);
    assert forall|j: int| k < j < found.len() implies (#[trigger] found[j]).uri@
        != found[k].uri@ by {
        if j < first.len() {
            assert(first[j].uri@ != first[k].uri@);
        } else {
            let song = second[j - first.len()];
            assert(found[j] == song);
            assert(second.contains(song));
            albumartist_songs@.lemma_filter_contains_rev(
                |song: SongInfo| by_albumartist(song, id),
                song,
            );
            let m = choose|m: int|
                0 <= m < albumartist_songs@.len() && albumartist_songs@[m] == song;
            assert(albumartist_songs@[m].uri@ != artist_songs@[at].uri@);
        }
    }
    assert(is_latest(found, k));
}

} // verus!
