//! Requests to Last.fm: what to ask for, and what to make of the answer.
use crate::common::{AlbumInfo, ArtistInfo};
use crate::meta_providers::base::{pairs, MetadataError, MetadataResult, ReqwestError};
use crate::meta_providers::lastfm::models::{LastfmAlbum, LastfmImage};
use crate::meta_providers::models::{
    merged_album, merged_artist, newer, AlbumMeta, ArtistMeta, ImageMeta,
};
use vstd::prelude::*;

verus! {

/// Where the service is.
pub const API_ROOT: &'static str = "http://ws.audioscrobbler.com/2.0";

/// What to do about a request for metadata.
#[derive(Debug)]
pub enum RequestPlan<T> {
    /// Answer at once.
    Return(MetadataResult<T>),
    /// Send this query, and keep the document for when the answer comes.
    Send { query: Vec<(String, String)>, existing: T },
}

/// What came back from the service.
#[derive(Debug)]
pub enum LastfmReply<A> {
    Failed(ReqwestError),
    /// The body of the response could not be read as text.
    NoText,
    Parsed(A),
    /// An error code of the service.
    ServiceError(i32),
    /// Neither an answer nor an error of the service.
    Unparseable,
}

/// The parameters that every query starts with.
pub open spec fn preamble(method: Seq<char>, api_key: Seq<char>) -> Seq<(Seq<char>, Seq<char>)> {
    seq![("format"@, "json"@), ("method"@, method), ("api_key"@, api_key)]
}

/// How to look an album up: by MusicBrainz ID, else by title and artist.
pub open spec fn album_params(key: AlbumInfo) -> Option<Seq<(Seq<char>, Seq<char>)>> {
    match (key.mbid, key.artist_tag) {
        (Some(id), _) => Some(seq![("mbid"@, id@)]),
        (None, Some(artist)) => Some(seq![("album"@, key.title@), ("artist"@, artist@)]),
        (None, None) => None,
    }
}

/// How to look an artist up: by MusicBrainz ID, else by name.
pub open spec fn artist_params(key: ArtistInfo) -> Seq<(Seq<char>, Seq<char>)> {
    match key.mbid {
        Some(id) => seq![("mbid"@, id@)],
        None => seq![("artist"@, key.name@)],
    }
}

/// The error that an error code of the service stands for.
pub open spec fn error_of<T>(code: i32, existing: T) -> MetadataError<T> {
    if code == 29 {
        MetadataError::RateLimit(existing)
    } else if code == 4 || code == 9 || code == 10 || code == 26 {
        MetadataError::Credential(existing)
    } else if code == 11 || code == 16 {
        MetadataError::Temporary(existing)
    } else {
        MetadataError::Other(existing)
    }
}

/// A new album document under the names that it was asked for, merged into what
/// was known. Last.fm does not return the MusicBrainz ID that it was asked with,
/// and may spell names differently than the tags do.
pub open spec fn settled_album(
    key: AlbumInfo,
    existing: Option<AlbumMeta>,
    new: AlbumMeta,
) -> AlbumMeta {
    let named = AlbumMeta {
        name: key.title,
        artist: newer(new.artist, key.artist_tag),
        mbid: newer(new.mbid, key.mbid),
        ..new
    };
    match existing {
        Some(known) => merged_album(known, named),
        None => named,
    }
}

/// A new artist document under the name that it was asked for, merged into what
/// was known.
pub open spec fn settled_artist(
    key: ArtistInfo,
    existing: Option<ArtistMeta>,
    new: ArtistMeta,
) -> ArtistMeta {
    let named = ArtistMeta { name: key.name, mbid: newer(new.mbid, key.mbid), ..new };
    match existing {
        Some(known) => merged_artist(known, named),
        None => named,
    }
}

fn pair(name: &str, value: &str) -> (r: (String, String))
    ensures
        r.0@ == name@,
        r.1@ == value@,
{
    (name.to_owned(), value.to_owned())
}

fn query_start(method: &str, api_key: &str) -> (r: Vec<(String, String)>)
    ensures
        pairs(r@) == preamble(method@, api_key@),
{
    let mut query: Vec<(String, String)> = Vec::new();
    query.push(pair("format", "json"));
    query.push(pair("method", method));
    query.push(pair("api_key", api_key));
    assert(pairs(query@) =~= preamble(method@, api_key@));
    query
}

fn service_error<T>(code: i32, existing: T) -> (r: MetadataError<T>)
    ensures
        r == error_of(code, existing),
{
    match code {
        29 => MetadataError::RateLimit(existing),
        4 | 9 | 10 | 26 => MetadataError::Credential(existing),
        11 | 16 => MetadataError::Temporary(existing),
        _ => MetadataError::Other(existing),
    }
}

/// What to do about a request for album metadata.
pub fn album_request(
    enabled: bool,
    api_key: &str,
    key: &AlbumInfo,
    existing: Option<AlbumMeta>,
) -> (r: RequestPlan<Option<AlbumMeta>>)
    ensures
        match r {
            RequestPlan::Return(Ok(document)) => !enabled && document == existing,
            RequestPlan::Return(Err(error)) => enabled && error == (if api_key@.len() == 0 {
                MetadataError::Credential(existing)
            } else {
                MetadataError::InsufficientKey(existing)
            }) && (api_key@.len() == 0 || album_params(*key) is None),
            RequestPlan::Send { query, existing: document } => {
                &&& enabled && api_key@.len() > 0
                &&& document == existing
                &&& album_params(*key) matches Some(params)
                &&& pairs(query@) == preamble("album.getInfo"@, api_key@) + params
            },
        },
{
    if !enabled {
        return RequestPlan::Return(Ok(existing));
    }
    if api_key.unicode_len() == 0 {
        return RequestPlan::Return(Err(MetadataError::Credential(existing)));
    }
    let mut query: Vec<(String, String)> = query_start("album.getInfo", api_key);
    let ghost start = query@;
    match (&key.mbid, &key.artist_tag) {
        (Some(id), _) => {
            query.push(pair("mbid", id.as_str()));
        },
        (None, Some(artist)) => {
            query.push(pair("album", key.title.as_str()));
            query.push(pair("artist", artist.as_str()));
        },
        (None, None) => {
            return RequestPlan::Return(Err(MetadataError::InsufficientKey(existing)));
        },
    }
    assert(pairs(query@) =~= pairs(start) + album_params(*key)->0);
    RequestPlan::Send { query, existing }
}

/// What to do about a request for artist metadata.
pub fn artist_request(
    enabled: bool,
    api_key: &str,
    key: &ArtistInfo,
    existing: Option<ArtistMeta>,
) -> (r: RequestPlan<Option<ArtistMeta>>)
    ensures
        match r {
            RequestPlan::Return(Ok(document)) => !enabled && document == existing,
            RequestPlan::Return(Err(error)) => enabled && api_key@.len() == 0 && error
                == MetadataError::Credential(existing),
            RequestPlan::Send { query, existing: document } => {
                &&& enabled && api_key@.len() > 0
                &&& document == existing
                &&& pairs(query@) == preamble("artist.getinfo"@, api_key@) + artist_params(*key)
            },
        },
{
    if !enabled {
        return RequestPlan::Return(Ok(existing));
    }
    if api_key.unicode_len() == 0 {
        return RequestPlan::Return(Err(MetadataError::Credential(existing)));
    }
    let mut query: Vec<(String, String)> = query_start("artist.getinfo", api_key);
    let ghost start = query@;
    match &key.mbid {
        Some(id) => {
            query.push(pair("mbid", id.as_str()));
        },
        None => {
            query.push(pair("artist", key.name.as_str()));
        },
    }
    assert(pairs(query@) =~= pairs(start) + artist_params(*key));
    RequestPlan::Send { query, existing }
}

/// What an answer to a request for album metadata comes to.
pub fn album_result(
    key: &AlbumInfo,
    existing: Option<AlbumMeta>,
    reply: LastfmReply<LastfmAlbum>,
) -> (r: MetadataResult<Option<AlbumMeta>>)
    requires
        reply matches LastfmReply::Parsed(album) ==> album.wf(),
    ensures
        match reply {
            LastfmReply::Parsed(album) => exists|new: AlbumMeta| #[trigger]
                album.becomes(new) && r == MetadataResult::<Option<AlbumMeta>>::Ok(
                    Some(settled_album(*key, existing, new)),
                ),
            LastfmReply::ServiceError(code) => r == MetadataResult::<Option<AlbumMeta>>::Err(
                error_of(code, existing),
            ),
            LastfmReply::Failed(e) => r == MetadataResult::<Option<AlbumMeta>>::Err(
                MetadataError::Reqwest(existing, e),
            ),
            LastfmReply::NoText | LastfmReply::Unparseable => r == MetadataResult::<
                Option<AlbumMeta>,
            >::Err(MetadataError::Parse(existing)),
        },
{
    match reply {
        LastfmReply::Parsed(album) => {
            let mut new: AlbumMeta = album.into();
            let ghost answered = new;
            assert(album.becomes(answered));
            if let Some(id) = &key.mbid {
                new.mbid = Some(id.clone());
            }
            if let Some(artist) = &key.artist_tag {
                new.artist = Some(artist.clone());
            }
            new.name = key.title.clone();
            Ok(
                Some(
                    match existing {
                        Some(known) => known.merge(new),
                        None => new,
                    },
                ),
            )
        },
        LastfmReply::ServiceError(code) => Err(service_error(code, existing)),
        LastfmReply::Failed(e) => Err(MetadataError::Reqwest(existing, e)),
        LastfmReply::NoText => Err(MetadataError::Parse(existing)),
        LastfmReply::Unparseable => Err(MetadataError::Parse(existing)),
    }
}

/// What an answer to a request for artist metadata comes to.
pub fn artist_result(
    key: &ArtistInfo,
    existing: Option<ArtistMeta>,
    reply: LastfmReply<ArtistMeta>,
) -> (r: MetadataResult<Option<ArtistMeta>>)
    ensures
        r == (match reply {
            LastfmReply::Parsed(new) => MetadataResult::<Option<ArtistMeta>>::Ok(
                Some(settled_artist(*key, existing, new)),
            ),
            LastfmReply::ServiceError(code) => MetadataResult::<Option<ArtistMeta>>::Err(
                error_of(code, existing),
            ),
            LastfmReply::Failed(e) => MetadataResult::<Option<ArtistMeta>>::Err(
                MetadataError::Reqwest(existing, e),
            ),
            LastfmReply::NoText | LastfmReply::Unparseable => MetadataResult::<
                Option<ArtistMeta>,
            >::Err(MetadataError::Parse(existing)),
        }),
{
    match reply {
        LastfmReply::Parsed(answered) => {
            let mut new: ArtistMeta = answered;
            if let Some(id) = &key.mbid {
                new.mbid = Some(id.clone());
            }
            new.name = key.name.clone();
            Ok(
                Some(
                    match existing {
                        Some(known) => known.merge(new),
                        None => new,
                    },
                ),
            )
        },
        LastfmReply::ServiceError(code) => Err(service_error(code, existing)),
        LastfmReply::Failed(e) => Err(MetadataError::Reqwest(existing, e)),
        LastfmReply::NoText => Err(MetadataError::Parse(existing)),
        LastfmReply::Unparseable => Err(MetadataError::Parse(existing)),
    }
}

/// An error of the service holds the document as it was, for the providers that
/// come after.
pub proof fn service_errors_keep_the_document<T>(code: i32, existing: T)
    ensures
        error_of(code, existing).document() == existing,
{
}

/// A document can be found again by the tags that it was asked for with.
pub proof fn documents_keep_the_names_of_tags(
    key: AlbumInfo,
    existing: Option<AlbumMeta>,
    new: AlbumMeta,
)
    ensures
        settled_album(key, existing, new).name == key.title,
        key.artist_tag is Some ==> settled_album(key, existing, new).artist == key.artist_tag,
        key.mbid is Some ==> settled_album(key, existing, new).mbid == key.mbid,
{
}

/// A request for an album is answered with the known document if the provider is
/// off, and fails without an API key, or without an ID and an artist to go by.
/// Otherwise it goes by the ID alone, or by title and artist, behind the format,
/// the method and the key.
pub proof fn albums_are_asked_for_by_id_or_by_names(
    api_key: &str,
    key: &AlbumInfo,
    existing: Option<AlbumMeta>,
    on: RequestPlan<Option<AlbumMeta>>,
    off: RequestPlan<Option<AlbumMeta>>,
)
    requires
        call_ensures(album_request, (true, api_key, key, existing), on),
        call_ensures(album_request, (false, api_key, key, existing), off),
    ensures
        off == RequestPlan::Return(MetadataResult::<Option<AlbumMeta>>::Ok(existing)),
        api_key@.len() == 0 ==> on == RequestPlan::Return(
            MetadataResult::<Option<AlbumMeta>>::Err(MetadataError::Credential(existing)),
        ),
        api_key@.len() > 0 && key.mbid is None && key.artist_tag is None ==> on
            == RequestPlan::Return(
            MetadataResult::<Option<AlbumMeta>>::Err(MetadataError::InsufficientKey(existing)),
        ),
        api_key@.len() > 0 && (key.mbid is Some || key.artist_tag is Some) ==> (
        on matches RequestPlan::Send { query, existing: document } && {
            &&& document == existing
            &&& query@[0].0@ == "format"@ && query@[0].1@ == "json"@
            &&& query@[1].0@ == "method"@ && query@[1].1@ == "album.getInfo"@
            &&& query@[2].0@ == "api_key"@ && query@[2].1@ == api_key@
            &&& key.mbid matches Some(id) ==> query@.len() == 4 && query@[3].0@ == "mbid"@
                && query@[3].1@ == id@
            &&& key.mbid is None ==> query@.len() == 5 && query@[3].0@ == "album"@ && query@[3].1@
                == key.title@ && query@[4].0@ == "artist"@ && query@[4].1@
                == key.artist_tag->0@
        }),
{
    if let RequestPlan::Send { query, existing: document } = on {
        let told = pairs(query@);
        assert(told.len() == query@.len());
        assert forall|i: int| 0 <= i < query@.len() implies (#[trigger] query@[i]).0@ == told[i].0
            && query@[i].1@ == told[i].1 by {}
    }
}

/// A request for an artist goes by the ID alone, or by the name, and fails only
/// without an API key.
pub proof fn artists_are_asked_for_by_id_or_by_name(
    api_key: &str,
    key: &ArtistInfo,
    existing: Option<ArtistMeta>,
    on: RequestPlan<Option<ArtistMeta>>,
    off: RequestPlan<Option<ArtistMeta>>,
)
    requires
        call_ensures(artist_request, (true, api_key, key, existing), on),
        call_ensures(artist_request, (false, api_key, key, existing), off),
    ensures
        off == RequestPlan::Return(MetadataResult::<Option<ArtistMeta>>::Ok(existing)),
        api_key@.len() == 0 ==> on == RequestPlan::Return(
            MetadataResult::<Option<ArtistMeta>>::Err(MetadataError::Credential(existing)),
        ),
        api_key@.len() > 0 ==> (on matches RequestPlan::Send { query, existing: document } && {
            &&& document == existing
            &&& query@.len() == 4
            &&& query@[0].0@ == "format"@ && query@[0].1@ == "json"@
            &&& query@[1].0@ == "method"@ && query@[1].1@ == "artist.getinfo"@
            &&& query@[2].0@ == "api_key"@ && query@[2].1@ == api_key@
            &&& key.mbid matches Some(id) ==> query@[3].0@ == "mbid"@ && query@[3].1@ == id@
            &&& key.mbid is None ==> query@[3].0@ == "artist"@ && query@[3].1@ == key.name@
        }),
{
    if let RequestPlan::Send { query, existing: document } = on {
        let told = pairs(query@);
        assert(told.len() == query@.len());
        assert forall|i: int| 0 <= i < query@.len() implies (#[trigger] query@[i]).0@ == told[i].0
            && query@[i].1@ == told[i].1 by {}
    }
}

/// An answer on an album keeps the names that it was asked for with: the title,
/// and the artist and the ID where they were known. All else is what the album
/// says, as far as it says anything, or what was known.
pub proof fn answers_on_albums_keep_their_names(
    key: &AlbumInfo,
    existing: Option<AlbumMeta>,
    album: LastfmAlbum,
    new: AlbumMeta,
    r: MetadataResult<Option<AlbumMeta>>,
)
    requires
        album.wf(),
        call_ensures(LastfmAlbum::into, (album,), new),
        call_ensures(album_result, (key, existing, LastfmReply::Parsed(album)), r),
    ensures
        r matches Ok(Some(document)) && {
            &&& document.name@ == key.title@
            &&& key.artist_tag is Some ==> document.artist == key.artist_tag
            &&& key.artist_tag is None ==> document.artist == Some(album.artist)
            &&& key.mbid is Some ==> document.mbid == key.mbid
            &&& key.mbid is None && album.mbid is Some ==> document.mbid == album.mbid
            &&& key.mbid is None && album.mbid is None ==> document.mbid == (match existing {
                Some(known) => known.mbid,
                None => None,
            })
            &&& document.url == Some(album.url)
            &&& new.tags@.len() > 0 ==> document.tags@ == new.tags@
            &&& new.tags@.len() == 0 && existing is Some ==> document.tags@ == existing->0.tags@
            &&& new.image@.len() == 0 && existing is Some ==> document.image@
                == existing->0.image@
            &&& new.image@.len() > 0 ==> document.image@.len() == new.image@.len()
            &&& new.wiki is Some ==> document.wiki is Some && document.wiki->0@ == new.wiki->0@
            &&& new.wiki is None && existing is Some ==> document.wiki == existing->0.wiki
        },
{
    let answered = choose|answered: AlbumMeta| #[trigger]
        album.becomes(answered) && r == MetadataResult::<Option<AlbumMeta>>::Ok(
            Some(settled_album(*key, existing, answered)),
        );
    assert(album.becomes(answered));
    assert(album.becomes(new));
}

/// The images of an answer on an album are those of the album, with their sizes.
pub proof fn answers_on_albums_show_its_images(
    key: &AlbumInfo,
    existing: Option<AlbumMeta>,
    album: LastfmAlbum,
    r: MetadataResult<Option<AlbumMeta>>,
    i: int,
    image: ImageMeta,
)
    requires
        album.wf(),
        0 <= i < album.image@.len(),
        call_ensures(LastfmImage::into, (album.image@[i],), image),
        call_ensures(album_result, (key, existing, LastfmReply::Parsed(album)), r),
    ensures
        r matches Ok(Some(document)) && document.image@[i].url == image.url
            && document.image@[i].size == image.size,
{
    let answered = choose|answered: AlbumMeta| #[trigger]
        album.becomes(answered) && r == MetadataResult::<Option<AlbumMeta>>::Ok(
            Some(settled_album(*key, existing, answered)),
        );
    assert(answered.image@[i].url == album.image@[i].url);
}

/// An answer on an artist keeps the name that it was asked for with, and the ID
/// where it was known. All else is what the answer says, or what was known.
pub proof fn answers_on_artists_keep_their_names(
    key: &ArtistInfo,
    known: ArtistMeta,
    new: ArtistMeta,
    merged: ArtistMeta,
    fresh: MetadataResult<Option<ArtistMeta>>,
    r: MetadataResult<Option<ArtistMeta>>,
)
    requires
        call_ensures(ArtistMeta::merge, (known, new), merged),
        call_ensures(artist_result, (key, None, LastfmReply::Parsed(new)), fresh),
        call_ensures(artist_result, (key, Some(known), LastfmReply::Parsed(new)), r),
    ensures
        fresh matches Ok(Some(document)) && document.name@ == key.name@ && (key.mbid is Some
            ==> document.mbid == key.mbid) && (key.mbid is None ==> document.mbid == new.mbid)
            && document.tags == new.tags && document.image == new.image && document.bio == new.bio
            && document.url == new.url && document.country == new.country,
        r matches Ok(Some(document)) && document.name@ == key.name@ && (key.mbid is Some
            ==> document.mbid == key.mbid) && (key.mbid is None ==> document.mbid == merged.mbid)
            && document.tags == merged.tags && document.image == merged.image && document.bio
            == merged.bio && document.url == merged.url && document.country == merged.country
            && document.artist_type == merged.artist_type && document.begin_date
            == merged.begin_date && document.end_date == merged.end_date,
{
}

/// Every failure holds the document as it was known. A failed request is told apart
/// from an answer that cannot be read, and of the service's own errors those of
/// the rate, of the credentials and of the moment from all others.
pub proof fn failures_of_the_service_are_told_apart(
    key: &AlbumInfo,
    artist: &ArtistInfo,
    album: Option<AlbumMeta>,
    known: Option<ArtistMeta>,
    code: i32,
    e: ReqwestError,
    failed: MetadataResult<Option<AlbumMeta>>,
    unread: MetadataResult<Option<AlbumMeta>>,
    garbled: MetadataResult<Option<AlbumMeta>>,
    refused: MetadataResult<Option<AlbumMeta>>,
    artist_failed: MetadataResult<Option<ArtistMeta>>,
    artist_unread: MetadataResult<Option<ArtistMeta>>,
    artist_garbled: MetadataResult<Option<ArtistMeta>>,
    artist_refused: MetadataResult<Option<ArtistMeta>>,
)
    requires
        call_ensures(album_result, (key, album, LastfmReply::Failed(e)), failed),
        call_ensures(album_result, (key, album, LastfmReply::NoText), unread),
        call_ensures(album_result, (key, album, LastfmReply::Unparseable), garbled),
        call_ensures(album_result, (key, album, LastfmReply::ServiceError(code)), refused),
        call_ensures(artist_result, (artist, known, LastfmReply::Failed(e)), artist_failed),
        call_ensures(artist_result, (artist, known, LastfmReply::NoText), artist_unread),
        call_ensures(artist_result, (artist, known, LastfmReply::Unparseable), artist_garbled),
        call_ensures(
            artist_result,
            (artist, known, LastfmReply::ServiceError(code)),
            artist_refused,
        ),
    ensures
        failed == MetadataResult::<Option<AlbumMeta>>::Err(MetadataError::Reqwest(album, e)),
        unread == MetadataResult::<Option<AlbumMeta>>::Err(MetadataError::Parse(album)),
        garbled == unread,
        artist_failed == MetadataResult::<Option<ArtistMeta>>::Err(
            MetadataError::Reqwest(known, e),
        ),
        artist_unread == MetadataResult::<Option<ArtistMeta>>::Err(MetadataError::Parse(known)),
        artist_garbled == artist_unread,
        code == 29 ==> refused == MetadataResult::<Option<AlbumMeta>>::Err(
            MetadataError::RateLimit(album),
        ) && artist_refused == MetadataResult::<Option<ArtistMeta>>::Err(
            MetadataError::RateLimit(known),
        ),
        code == 4 || code == 9 || code == 10 || code == 26 ==> refused == MetadataResult::<
            Option<AlbumMeta>,
        >::Err(MetadataError::Credential(album)) && artist_refused == MetadataResult::<
            Option<ArtistMeta>,
        >::Err(MetadataError::Credential(known)),
        code == 11 || code == 16 ==> refused == MetadataResult::<Option<AlbumMeta>>::Err(
            MetadataError::Temporary(album),
        ) && artist_refused == MetadataResult::<Option<ArtistMeta>>::Err(
            MetadataError::Temporary(known),
        ),
        code != 29 && code != 4 && code != 9 && code != 10 && code != 26 && code != 11 && code != 16
            ==> refused == MetadataResult::<Option<AlbumMeta>>::Err(MetadataError::Other(album))
            && artist_refused == MetadataResult::<Option<ArtistMeta>>::Err(
            MetadataError::Other(known),
        ),
{
}

} // verus!
