//! Requests to LRCLIB: what to ask for, and which lyrics to take.
use crate::common::SongInfo;
use crate::meta_providers::base::{pairs, MetadataError, MetadataResult, ReqwestError};
use crate::meta_providers::lrclib::models::{LrcLibErrorResponse, LrcLibResponse};
use crate::text::{clone_opt, opt_view};
use vstd::prelude::*;

verus! {

/// Where the service is.
pub const API_ROOT: &'static str = "https://lrclib.net/api/";

/// How to look lyrics up: by title, and by artist and album where known.
pub open spec fn lyrics_params(key: SongInfo) -> Seq<(Seq<char>, Seq<char>)> {
    seq![("track_name"@, key.title@)] + (match key.artist_tag {
        Some(artist) => seq![("artist_name"@, artist@)],
        None => Seq::empty(),
    }) + (match key.album {
        Some(album) => seq![("album_name"@, album.title@)],
        None => Seq::empty(),
    })
}

/// The query for the lyrics of a song; `None` if the provider is switched off.
pub fn lyrics_request(enabled: bool, key: &SongInfo) -> (r: Option<Vec<(String, String)>>)
    ensures
        match r {
            Some(query) => enabled && pairs(query@) == lyrics_params(*key),
            None => !enabled,
        },
{
    if !enabled {
        return None;
    }
    let mut query: Vec<(String, String)> = Vec::new();
    query.push(("track_name".to_owned(), key.title.clone()));
    if let Some(artist) = &key.artist_tag {
        query.push(("artist_name".to_owned(), artist.clone()));
    }
    if let Some(album) = &key.album {
        query.push(("album_name".to_owned(), album.title.clone()));
    }
    assert(pairs(query@) =~= lyrics_params(*key));
    Some(query)
}

/// No other candidate is closer, and none before it is as close.
pub open spec fn is_closest(candidates: Seq<LrcLibResponse>, i: int) -> bool {
    &&& 0 <= i < candidates.len()
    &&& forall|j: int|
        0 <= j < candidates.len() ==> candidates[i].distance <= (#[trigger] candidates[j]).distance
    &&& forall|j: int| 0 <= j < i ==> candidates[i].distance < (#[trigger] candidates[j]).distance
}

/// The candidate whose duration is closest to that of the song; the first of
/// them if there are several.
pub fn closest(candidates: &Vec<LrcLibResponse>) -> (r: Option<usize>)
    ensures
        match r {
            Some(i) => is_closest(candidates@, i as int),
            None => candidates.len() == 0,
        },
{
    if candidates.len() == 0 {
        return None;
    }
    let mut best_idx: usize = 0;
    for i in 1..candidates.len()
        invariant
            best_idx < i <= candidates.len(),
            is_closest(candidates@.take(i as int), best_idx as int),
    {
        let ghost seen = candidates@.take(i as int);
        let ghost now = candidates@.take(i + 1);
        assert(forall|j: int| 0 <= j < i ==> #[trigger] now[j] == seen[j]);
        assert(forall|j: int| 0 <= j < i ==> #[trigger] seen[j] == now[j]);
        if candidates[i].distance < candidates[best_idx].distance {
            best_idx = i;
        }
    }
    assert(candidates@.take(candidates.len() as int) =~= candidates@);
    Some(best_idx)
}

/// The synced and the plain lyrics of the candidate whose duration is closest to
/// that of the song; `None` if there is no candidate.
pub fn best_texts(candidates: &Vec<LrcLibResponse>) -> (r: Option<(Option<String>, String)>)
    ensures
        match r {
            Some(texts) => exists|i: int| #[trigger]
                is_closest(candidates@, i) && opt_view(texts.0) == opt_view(candidates@[i].synced)
                    && texts.1@ == candidates@[i].plain@,
            None => candidates.len() == 0,
        },
{
    match closest(candidates) {
        Some(i) => {
            assert(is_closest(candidates@, i as int));
            Some((clone_opt(&candidates[i].synced), candidates[i].plain.clone()))
        },
        None => None,
    }
}

/// The lyrics to use of a candidate, out of its synced and its plain lyrics as
/// far as they could be read: the synced ones, if there are any.
pub fn preferred<L>(synced: Option<L>, plain: Option<L>) -> (r: Option<L>)
    ensures
        r == (if synced is Some {
            synced
        } else {
            plain
        }),
{
    match synced {
        Some(lyrics) => Some(lyrics),
        None => plain,
    }
}

/// What came back from the service, if not a list of candidates.
#[derive(Debug)]
pub enum LrcLibFailure {
    Failed(ReqwestError),
    /// The body of the response could not be read as text.
    NoText,
    ServiceError(LrcLibErrorResponse),
    /// Neither a list nor an error of the service.
    Unparseable,
}

/// The error that a failure stands for.
pub open spec fn error_of<L>(failure: LrcLibFailure) -> MetadataError<Option<L>> {
    match failure {
        LrcLibFailure::Failed(e) => MetadataError::Reqwest(None, e),
        LrcLibFailure::NoText => MetadataError::Parse(None),
        LrcLibFailure::ServiceError(response) => if response.code == 404 {
            MetadataError::NotFound(None)
        } else {
            MetadataError::Other(None)
        },
        LrcLibFailure::Unparseable => MetadataError::Parse(None),
    }
}

/// What a failed request for lyrics comes to.
pub fn failure_result<L>(failure: LrcLibFailure) -> (r: MetadataResult<Option<L>>)
    ensures
        r == MetadataResult::<Option<L>>::Err(error_of::<L>(failure)),
{
    match failure {
        LrcLibFailure::Failed(e) => Err(MetadataError::Reqwest(None, e)),
        LrcLibFailure::NoText => Err(MetadataError::Parse(None)),
        LrcLibFailure::ServiceError(response) => match response.code {
            404 => Err(MetadataError::NotFound(None)),
            _ => Err(MetadataError::Other(None)),
        },
        LrcLibFailure::Unparseable => Err(MetadataError::Parse(None)),
    }
}

/// The query asks for the title. It asks for the artist exactly if the song has an
/// artist tag, whether or not it has an album, and for the album exactly if the
/// song has one, whether or not it has an artist tag.
pub proof fn lyrics_are_asked_for_by_what_is_known(
    key: &SongInfo,
    r: Option<Vec<(String, String)>>,
    value: Seq<char>,
)
    requires
        call_ensures(lyrics_request, (true, key), r),
    ensures
        r is Some,
        ({
            let query = r->0@;
            &&& (exists|i: int|
                0 <= i < query.len() && (#[trigger] query[i]).0@ == "track_name"@ && query[i].1@
                    == value) <==> key.title@ == value
            &&& (exists|i: int|
                0 <= i < query.len() && (#[trigger] query[i]).0@ == "artist_name"@ && query[i].1@
                    == value) <==> (key.artist_tag matches Some(artist) && artist@ == value)
            &&& (exists|i: int|
                0 <= i < query.len() && (#[trigger] query[i]).0@ == "album_name"@ && query[i].1@
                    == value) <==> (key.album matches Some(album) && album.title@ == value)
            &&& query.len() == 1 + (if key.artist_tag is Some { 1int } else { 0 }) + (
            if key.album is Some { 1int } else { 0 })
        }),
{
    let query = r->0@;
    let told = pairs(query);
    reveal_strlit("track_name");
    reveal_strlit("artist_name");
    reveal_strlit("album_name");
    assert("track_name"@.len() == 10);
    assert("artist_name"@.len() == 11);
    assert("album_name"@.len() == 10);
    assert("track_name"@[0] == 't');
    assert("album_name"@[0] == 'a');
    assert(told.len() == query.len());
    assert forall|i: int| 0 <= i < query.len() implies (#[trigger] query[i]).0@ == told[i].0
        && query[i].1@ == told[i].1 by {}
    assert(told[0] == ("track_name"@, key.title@));
    assert(query[0].0@ == "track_name"@);
    if let Some(artist) = key.artist_tag {
        assert(told[1] == ("artist_name"@, artist@));
        assert(query[1].0@ == "artist_name"@);
    }
    if let Some(album) = key.album {
        let last = query.len() - 1;
        assert(told[last] == ("album_name"@, album.title@));
        assert(query[last].0@ == "album_name"@);
    }
    if key.title@ == value {
        assert(query[0].1@ == value);
    }
    if key.artist_tag matches Some(artist) && artist@ == value {
        assert(query[1].1@ == value);
    }
    if key.album matches Some(album) && album.title@ == value {
        assert(query[query.len() - 1].1@ == value);
    }
}

/// A provider that is switched off asks for nothing.
pub proof fn nothing_is_asked_of_a_provider_that_is_off(
    key: &SongInfo,
    r: Option<Vec<(String, String)>>,
)
    requires
        call_ensures(lyrics_request, (false, key), r),
    ensures
        r is None,
{
}

/// The lyrics that are taken are those of a candidate, none is closer to the
/// song, and of equally close ones it is the first. Some are taken if there are
/// any.
pub proof fn the_closest_lyrics_are_taken(
    candidates: &Vec<LrcLibResponse>,
    position: Option<usize>,
    texts: Option<(Option<String>, String)>,
    other: int,
)
    requires
        call_ensures(closest, (candidates,), position),
        call_ensures(best_texts, (candidates,), texts),
        0 <= other < candidates@.len(),
    ensures
        position is Some,
        texts is Some,
        position->0 < candidates@.len(),
        candidates@[position->0 as int].distance <= candidates@[other].distance,
        other < position->0 ==> candidates@[position->0 as int].distance
            < candidates@[other].distance,
        texts matches Some(t) && opt_view(t.0) == opt_view(candidates@[position->0 as int].synced)
            && t.1@ == candidates@[position->0 as int].plain@,
{
    let i = choose|i: int| #[trigger]
        is_closest(candidates@, i) && opt_view((texts->0).0) == opt_view(candidates@[i].synced) && (
        texts->0).1@ == candidates@[i].plain@;
    let j = position->0 as int;
    assert(is_closest(candidates@, j));
    assert(candidates@[i].distance <= candidates@[j].distance);
    assert(candidates@[j].distance <= candidates@[i].distance);
    if i < j {
        assert(candidates@[j].distance < candidates@[i].distance);
    }
    if j < i {
        assert(candidates@[i].distance < candidates@[j].distance);
    }
}

/// Without candidates there are no lyrics.
pub proof fn no_candidates_no_lyrics(
    candidates: &Vec<LrcLibResponse>,
    position: Option<usize>,
    texts: Option<(Option<String>, String)>,
)
    requires
        candidates@.len() == 0,
        call_ensures(closest, (candidates,), position),
        call_ensures(best_texts, (candidates,), texts),
    ensures
        position is None,
        texts is None,
{
}

/// Synced lyrics are taken wherever there are any, plain ones only in their place.
pub proof fn synced_lyrics_win<L>(
    synced: L,
    plain: Option<L>,
    with_synced: Option<L>,
    without: Option<L>,
)
    requires
        call_ensures(preferred::<L>, (Some(synced), plain), with_synced),
        call_ensures(preferred::<L>, (None, plain), without),
    ensures
        with_synced == Some(synced),
        without == plain,
{
}

/// A failed request never gives lyrics. Only the service's own "not found" says
/// that there are none; a failed connection is passed on for what it is.
pub proof fn failures_are_told_apart<L>(failure: LrcLibFailure, r: MetadataResult<Option<L>>)
    requires
        call_ensures(failure_result::<L>, (failure,), r),
    ensures
        r is Err,
        r matches Err(MetadataError::NotFound(_)) <==> (failure matches LrcLibFailure::ServiceError(
            response,
        ) && response.code == 404),
        r matches Err(MetadataError::Other(_)) <==> (failure matches LrcLibFailure::ServiceError(
            response,
        ) && response.code != 404),
        r matches Err(MetadataError::Parse(_)) <==> failure is NoText || failure is Unparseable,
        r matches Err(MetadataError::Reqwest(_, _)) <==> failure is Failed,
        failure matches LrcLibFailure::Failed(e) ==> r == MetadataResult::<Option<L>>::Err(
            MetadataError::Reqwest(None, e),
        ),
{
}

} // verus!
