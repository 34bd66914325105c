//! Requests to MusicBrainz: what to ask for, and what to make of the answer.
//!
//! The client for this service retries on its own, so that no outcome asks for
//! another try: the flag that goes with a document is always false.
use crate::common::{AlbumInfo, ArtistInfo};
use crate::meta_providers::models::{
    merged_album, merged_artist, AlbumMeta, ArtistMeta, ImageMeta, ImageSize,
};
use musicbrainz_rs::entity::artist::ArtistSearchQuery;
use musicbrainz_rs::entity::release::ReleaseSearchQuery;
use vstd::prelude::*;

verus! {

/// What to look up.
#[derive(Debug)]
pub enum AlbumLookup {
    /// The provider is switched off, or the key is not enough to go by.
    Skip,
    Fetch { mbid: String },
    /// Search by a query in the syntax of the service.
    Search { query: String },
}

/// What to look up.
#[derive(Debug)]
pub enum ArtistLookup {
    /// The provider is switched off.
    Skip,
    Fetch { mbid: String },
    /// Search by a query in the syntax of the service.
    Search { query: String },
}

/// A value in a query. With a space in it, it stands in quotes.
pub open spec fn query_value(value: Seq<char>) -> Seq<char> {
    if value.contains(' ') {
        "\""@ + value + "\""@
    } else {
        value
    }
}

/// The query for a release by title and artist.
pub open spec fn release_query(title: Seq<char>, artist: Seq<char>) -> Seq<char> {
    "query=release:"@ + query_value(title) + " AND artist:"@ + query_value(artist)
}

/// The query for an artist by name.
pub open spec fn artist_query(name: Seq<char>) -> Seq<char> {
    "query=artist:"@ + query_value(name)
}

/// The query builder of `ReleaseSearchQuery`, asked for a release with that title
/// and that artist: both conditions, in that order, as [`release_query`] has them.
#[verifier::external_body]
fn build_release_query(title: &str, artist: &str) -> (r: String)
    ensures
        r@ == release_query(title@, artist@),
{
    ReleaseSearchQuery::query_builder().release(title).and().artist(artist).build()
}

/// The query builder of `ArtistSearchQuery`, asked for an artist with that name:
/// the one condition, as [`artist_query`] has it.
#[verifier::external_body]
fn build_artist_query(name: &str) -> (r: String)
    ensures
        r@ == artist_query(name@),
{
    ArtistSearchQuery::query_builder().artist(name).build()
}

/// How to look an album up: by ID, else by title and artist.
pub fn album_lookup(enabled: bool, key: &AlbumInfo) -> (r: AlbumLookup)
    ensures
        match r {
            AlbumLookup::Skip => !enabled || key.mbid is None && key.artist_tag is None,
            AlbumLookup::Fetch { mbid } => enabled && key.mbid == Some(mbid),
            AlbumLookup::Search { query } => enabled && key.mbid is None && key.artist_tag is Some
                && query@ == release_query(key.title@, key.artist_tag->0@),
        },
{
    if !enabled {
        return AlbumLookup::Skip;
    }
    match (&key.mbid, &key.artist_tag) {
        (Some(mbid), _) => AlbumLookup::Fetch { mbid: mbid.clone() },
        (None, Some(artist)) => AlbumLookup::Search {
            query: build_release_query(key.title.as_str(), artist.as_str()),
        },
        (None, None) => AlbumLookup::Skip,
    }
}

/// How to look an artist up: by ID, else by name.
pub fn artist_lookup(enabled: bool, key: &ArtistInfo) -> (r: ArtistLookup)
    ensures
        match r {
            ArtistLookup::Skip => !enabled,
            ArtistLookup::Fetch { mbid } => enabled && key.mbid == Some(mbid),
            ArtistLookup::Search { query } => enabled && key.mbid is None && query@ == artist_query(
                key.name@,
            ),
        },
{
    if !enabled {
        return ArtistLookup::Skip;
    }
    match &key.mbid {
        Some(mbid) => ArtistLookup::Fetch { mbid: mbid.clone() },
        None => ArtistLookup::Search { query: build_artist_query(key.name.as_str()) },
    }
}

/// Where the front cover of a release is.
pub open spec fn front_cover_url(archive: Seq<char>, mbid: Seq<char>) -> Seq<char> {
    archive + "/release/"@ + mbid + "/front"@
}

/// An album document with what was known of the album merged in.
pub open spec fn known_album(existing: Option<AlbumMeta>, found: AlbumMeta) -> AlbumMeta {
    match existing {
        Some(known) => merged_album(known, found),
        None => found,
    }
}

/// What a lookup of an album comes to. `found` is the release that was fetched,
/// or the first of those that were found, if any. With `with_cover`, a link to
/// its front cover goes to the images; that takes the ID of the release.
pub fn album_result(
    existing: Option<AlbumMeta>,
    found: Option<AlbumMeta>,
    with_cover: bool,
    archive: &str,
) -> (r: (Option<AlbumMeta>, bool))
    requires
        found matches Some(release) ==> with_cover ==> known_album(existing, release).mbid is Some,
    ensures
        !r.1,
        match found {
            None => r.0 == existing,
            Some(release) => {
                let document = known_album(existing, release);
                &&& r.0 is Some
                &&& r.0->0.name == document.name
                &&& r.0->0.artist == document.artist
                &&& r.0->0.mbid == document.mbid
                &&& r.0->0.tags == document.tags
                &&& r.0->0.url == document.url
                &&& r.0->0.wiki == document.wiki
                &&& if with_cover {
                    &&& r.0->0.image@.len() == document.image@.len() + 1
                    &&& r.0->0.image@.drop_last() == document.image@
                    &&& r.0->0.image@.last().size == ImageSize::Mega
                    &&& r.0->0.image@.last().url@ == front_cover_url(archive@, document.mbid->0@)
                } else {
                    r.0->0.image == document.image
                }
            },
        },
{
    match found {
        None => (existing, false),
        Some(release) => {
            let mut document: AlbumMeta = match existing {
                Some(known) => known.merge(release),
                None => release,
            };
            if with_cover {
                if let Some(mbid) = &document.mbid {
                    let mut url: String = archive.to_owned();
                    url.append("/release/");
                    url.append(mbid.as_str());
                    url.append("/front");
                    let ghost images = document.image@;
                    document.image.push(ImageMeta { size: ImageSize::Mega, url });
                    assert(document.image@.drop_last() =~= images);
                }
            }
            (Some(document), false)
        },
    }
}

/// What a lookup of an artist comes to.
pub fn artist_result(existing: Option<ArtistMeta>, found: Option<ArtistMeta>) -> (r: (
    Option<ArtistMeta>,
    bool,
))
    ensures
        !r.1,
        r.0 == (match (existing, found) {
            (_, None) => existing,
            (None, Some(artist)) => Some(artist),
            (Some(known), Some(artist)) => Some(merged_artist(known, artist)),
        }),
{
    match found {
        None => (existing, false),
        Some(artist) => (
            Some(
                match existing {
                    Some(known) => known.merge(artist),
                    None => artist,
                },
            ),
            false,
        ),
    }
}

/// An album is fetched by its ID where it has one, else searched by title and
/// artist; a value with a space in it stands in quotes. Without an ID and without
/// an artist nothing is looked up, nor is anything if the provider is off.
pub proof fn albums_are_looked_up_by_id_or_by_names(
    key: &AlbumInfo,
    on: AlbumLookup,
    off: AlbumLookup,
)
    requires
        call_ensures(album_lookup, (true, key), on),
        call_ensures(album_lookup, (false, key), off),
    ensures
        off is Skip,
        key.mbid matches Some(id) ==> (on matches AlbumLookup::Fetch { mbid } && mbid@ == id@),
        key.mbid is None && key.artist_tag is None ==> on is Skip,
        key.mbid is None && key.artist_tag is Some ==> {
            let (title, artist) = (key.title@, key.artist_tag->0@);
            let quoted_title = "\""@ + title + "\""@;
            let quoted_artist = "\""@ + artist + "\""@;
            on matches AlbumLookup::Search { query } && {
                &&& !title.contains(' ') && !artist.contains(' ') ==> query@ == "query=release:"@
                    + title + " AND artist:"@ + artist
                &&& title.contains(' ') && !artist.contains(' ') ==> query@ == "query=release:"@
                    + quoted_title + " AND artist:"@ + artist
                &&& !title.contains(' ') && artist.contains(' ') ==> query@ == "query=release:"@
                    + title + " AND artist:"@ + quoted_artist
                &&& title.contains(' ') && artist.contains(' ') ==> query@ == "query=release:"@
                    + quoted_title + " AND artist:"@ + quoted_artist
            }
        },
{
}

/// An artist is fetched by its ID where it has one, else searched by name, and not
/// looked up if the provider is off.
pub proof fn artists_are_looked_up_by_id_or_by_name(
    key: &ArtistInfo,
    on: ArtistLookup,
    off: ArtistLookup,
)
    requires
        call_ensures(artist_lookup, (true, key), on),
        call_ensures(artist_lookup, (false, key), off),
    ensures
        off is Skip,
        key.mbid matches Some(id) ==> (on matches ArtistLookup::Fetch { mbid } && mbid@ == id@),
        key.mbid is None ==> (on matches ArtistLookup::Search { query } && {
            &&& !key.name@.contains(' ') ==> query@ == "query=artist:"@ + key.name@
            &&& key.name@.contains(' ') ==> query@ == "query=artist:"@ + ("\""@ + key.name@
                + "\""@)
        }),
{
}

/// A lookup that found nothing leaves what was known, and none asks for another
/// try.
pub proof fn nothing_found_changes_nothing(
    album: Option<AlbumMeta>,
    artist: Option<ArtistMeta>,
    with_cover: bool,
    archive: &str,
    album_after: (Option<AlbumMeta>, bool),
    artist_after: (Option<ArtistMeta>, bool),
)
    requires
        call_ensures(album_result, (album, None, with_cover, archive), album_after),
        call_ensures(artist_result, (artist, None), artist_after),
    ensures
        album_after == (album, false),
        artist_after == (artist, false),
{
}

/// A release that was found is merged into what was known of the album; where the
/// cover is wanted, the front cover of the release comes behind the other images,
/// as the largest kind.
pub proof fn releases_are_merged_and_get_a_cover(
    known: AlbumMeta,
    release: AlbumMeta,
    merged: AlbumMeta,
    with_cover: bool,
    archive: &str,
    fresh: (Option<AlbumMeta>, bool),
    r: (Option<AlbumMeta>, bool),
)
    requires
        call_ensures(AlbumMeta::merge, (known, release), merged),
        call_ensures(album_result, (None, Some(release), with_cover, archive), fresh),
        call_ensures(album_result, (Some(known), Some(release), with_cover, archive), r),
        merged.mbid is Some,
        release.mbid is Some,
    ensures
        !fresh.1 && !r.1,
        fresh.0 matches Some(document) && {
            &&& document.name == release.name && document.artist == release.artist
            &&& document.mbid == release.mbid && document.tags == release.tags
            &&& document.url == release.url && document.wiki == release.wiki
            &&& !with_cover ==> document.image == release.image
            &&& with_cover ==> document.image@.len() == release.image@.len() + 1
                && document.image@.drop_last() == release.image@ && document.image@.last().size
                == ImageSize::Mega && document.image@.last().url@ == archive@ + "/release/"@
                + release.mbid->0@ + "/front"@
        },
        r.0 matches Some(document) && {
            &&& document.name == merged.name && document.artist == merged.artist
            &&& document.mbid == merged.mbid && document.tags == merged.tags
            &&& document.url == merged.url && document.wiki == merged.wiki
            &&& !with_cover ==> document.image == merged.image
            &&& with_cover ==> document.image@.len() == merged.image@.len() + 1
                && document.image@.drop_last() == merged.image@ && document.image@.last().size
                == ImageSize::Mega && document.image@.last().url@ == archive@ + "/release/"@
                + merged.mbid->0@ + "/front"@
        },
{
}

/// An artist that was found is merged into what was known of the artist.
pub proof fn artists_are_merged(
    known: ArtistMeta,
    artist: ArtistMeta,
    merged: ArtistMeta,
    fresh: (Option<ArtistMeta>, bool),
    r: (Option<ArtistMeta>, bool),
)
    requires
        call_ensures(ArtistMeta::merge, (known, artist), merged),
        call_ensures(artist_result, (None, Some(artist)), fresh),
        call_ensures(artist_result, (Some(known), Some(artist)), r),
    ensures
        fresh == (Some(artist), false),
        r == (Some(merged), false),
{
}

} // verus!
