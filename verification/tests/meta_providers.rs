use euphonica::common::{AlbumInfo, ArtistInfo, Date, SongInfo};
use euphonica::meta_providers::base::{
    get_best_image, reqwest_error_is_retryable, sleep_between_requests, status_is_retryable,
    trying_order, Download, DownloadAction, DownloadEvent, MetadataError, MetadataResult,
    ReqwestError,
};
use euphonica::meta_providers::chain::{
    get_provider, has_provider, LyricsStep, MetadataChain, ProviderKind,
};
use euphonica::meta_providers::lastfm;
use euphonica::meta_providers::lastfm::models::{
    LastfmAlbum, LastfmAlbumResponse, LastfmImage, LastfmWiki, NestedTagList, TagsHelper,
};
use euphonica::meta_providers::lrclib;
use euphonica::meta_providers::lrclib::models::{LrcLibErrorResponse, LrcLibResponse};
use euphonica::meta_providers::models::{AlbumMeta, ArtistMeta, ImageMeta, ImageSize, Tag, Wiki};
use euphonica::meta_providers::musicbrainz;

fn s(text: &str) -> String {
    text.to_string()
}

fn some(text: &str) -> Option<String> {
    Some(text.to_string())
}

fn album_key(mbid: Option<&str>, artist: Option<&str>) -> AlbumInfo {
    AlbumInfo {
        title: s("Low"),
        mbid: mbid.map(s),
        artist_tag: artist.map(s),
        artists: vec![],
        comp_id: s("low"),
    }
}

fn artist_key(mbid: Option<&str>) -> ArtistInfo {
    ArtistInfo { name: s("David Bowie"), mbid: mbid.map(s), comp_id: s("david bowie") }
}

fn http(status: Option<u16>, connect: bool, timeout: bool) -> ReqwestError {
    ReqwestError { status, connect, timeout }
}

fn query_of<T>(plan: lastfm::controller::RequestPlan<T>) -> Vec<(String, String)> {
    match plan {
        lastfm::controller::RequestPlan::Send { query, .. } => query,
        lastfm::controller::RequestPlan::Return(_) => panic!("nothing to send"),
    }
}

fn owned(pairs: &[(&str, &str)]) -> Vec<(String, String)> {
    pairs.iter().map(|(a, b)| (s(a), s(b))).collect()
}

#[test]
fn server_errors_can_be_retried() {
    assert!(status_is_retryable(500));
    assert!(status_is_retryable(503));
    assert!(status_is_retryable(599));
    assert!(!status_is_retryable(499));
    assert!(!status_is_retryable(600));
    assert!(!status_is_retryable(404));
    assert!(!status_is_retryable(200));
}

#[test]
fn errors_that_may_pass_can_be_retried() {
    assert!(reqwest_error_is_retryable(&http(Some(502), false, false)));
    assert!(reqwest_error_is_retryable(&http(None, true, false)));
    assert!(reqwest_error_is_retryable(&http(None, false, true)));
    assert!(!reqwest_error_is_retryable(&http(None, false, false)));
    assert!(!reqwest_error_is_retryable(&http(Some(404), false, false)));
}

#[test]
fn errors_know_whether_to_retry() {
    assert!(MetadataError::Temporary(()).can_retry());
    assert!(MetadataError::Reqwest((), http(Some(500), false, false)).can_retry());
    assert!(!MetadataError::Reqwest((), http(Some(403), false, false)).can_retry());
    assert!(!MetadataError::NotFound(()).can_retry());
    assert!(!MetadataError::InsufficientKey(()).can_retry());
    assert!(!MetadataError::Credential(()).can_retry());
    assert!(!MetadataError::RateLimit(()).can_retry());
    assert!(!MetadataError::Parse(()).can_retry());
    assert!(!MetadataError::Other(()).can_retry());
}

#[test]
fn errors_hold_the_document() {
    assert_eq!(MetadataError::Reqwest(1, http(None, true, false)).metadata(), 1);
    assert_eq!(MetadataError::Temporary(2).metadata(), 2);
    assert_eq!(MetadataError::NotFound(3).metadata(), 3);
    assert_eq!(MetadataError::InsufficientKey(4).metadata(), 4);
    assert_eq!(MetadataError::Credential(5).metadata(), 5);
    assert_eq!(MetadataError::RateLimit(6).metadata(), 6);
    assert_eq!(MetadataError::Parse(7).metadata(), 7);
    assert_eq!(MetadataError::Other(8).metadata(), 8);
}

#[test]
fn errors_are_put_into_words() {
    let status = |code| MetadataError::Reqwest((), http(Some(code), false, false)).message();
    assert_eq!(status(404), "HTTP code 404 Not Found");
    assert_eq!(status(503), "HTTP code 503 Service Unavailable");
    assert_eq!(status(799), "HTTP code 799 <unknown status code>");
    assert_eq!(
        MetadataError::Reqwest((), http(None, true, false)).message(),
        "connection/parsing error"
    );
    assert_eq!(
        MetadataError::Temporary(()).message(),
        "temporary server-side error (exceeded retries)"
    );
    assert_eq!(MetadataError::NotFound(()).message(), "not available from this provider");
    assert_eq!(
        MetadataError::InsufficientKey(()).message(),
        "not enough existing metadata to search"
    );
    assert_eq!(MetadataError::Credential(()).message(), "authentication error");
    assert_eq!(MetadataError::RateLimit(()).message(), "rate-limited");
    assert_eq!(MetadataError::Parse(()).message(), "error while parsing");
    assert_eq!(MetadataError::Other(()).message(), "unknown error");
}

#[test]
fn requests_keep_their_distance() {
    assert_eq!(sleep_between_requests(1000, 500, 1200), Some(300));
    assert_eq!(sleep_between_requests(1000, 500, 1500), Some(0));
    assert_eq!(sleep_between_requests(1000, 500, 1501), None);
    assert_eq!(sleep_between_requests(1000, 0, 900), Some(100));
}

#[test]
fn downloads_are_tried_again() {
    assert_eq!(Download::start("", 3), None);
    assert_eq!(Download::start("http://x", 0), Some(Download { tries_left: 1 }));
    let mut download = Download::start("http://x", 3).unwrap();
    assert_eq!(download.tries_left, 3);
    let passing = http(Some(500), false, false);
    assert!(matches!(download.on_event(DownloadEvent::Failed(passing)), DownloadAction::TryAgain));
    assert!(matches!(download.on_event(DownloadEvent::Failed(passing)), DownloadAction::TryAgain));
    assert!(matches!(download.on_event(DownloadEvent::Failed(passing)), DownloadAction::GiveUp));
    let mut download = Download { tries_left: 3 };
    let final_error = http(Some(404), false, false);
    assert!(matches!(
        download.on_event(DownloadEvent::Failed(final_error)),
        DownloadAction::GiveUp
    ));
    assert!(matches!(download.on_event(DownloadEvent::Unreadable), DownloadAction::GiveUp));
    match download.on_event(DownloadEvent::Body(vec![1, 2])) {
        DownloadAction::Done(bytes) => assert_eq!(bytes, vec![1, 2]),
        other => panic!("{other:?}"),
    }
    assert_eq!(download.tries_left, 3);
}

fn image(size: ImageSize, url: &str) -> ImageMeta {
    ImageMeta { size, url: s(url) }
}

#[test]
fn the_largest_image_is_tried_first() {
    let metas = [
        image(ImageSize::Small, "a"),
        image(ImageSize::Mega, "b"),
        image(ImageSize::Large, "c"),
        image(ImageSize::Mega, "d"),
        image(ImageSize::Medium, "e"),
    ];
    assert_eq!(trying_order(&metas), vec![3, 1, 2, 4, 0]);
    assert_eq!(trying_order(&[]), Vec::<usize>::new());
    assert_eq!(get_best_image(&metas, &vec![true; 5]), Ok(3));
    assert_eq!(get_best_image(&metas, &vec![true, true, true, false, true]), Ok(1));
    assert_eq!(get_best_image(&metas, &vec![true, false, false, false, false]), Ok(0));
}

#[test]
fn there_may_be_no_image() {
    assert_eq!(
        get_best_image(&[], &vec![]),
        Err(s("This album's metadata does not provide any image."))
    );
    assert_eq!(
        get_best_image(&[image(ImageSize::Small, "")], &vec![false]),
        Err(s("Metadata provided image URLs but none of them could be downloaded."))
    );
}

#[test]
fn sizes_have_an_order() {
    let sizes = [ImageSize::Small, ImageSize::Medium, ImageSize::Large, ImageSize::Mega];
    for (i, size) in sizes.iter().enumerate() {
        assert_eq!(size.order() as usize, i);
    }
}

#[test]
fn providers_have_keys_and_names() {
    for (key, kind, name) in [
        ("musicbrainz", ProviderKind::MusicBrainz, "MusicBrainz"),
        ("lastfm", ProviderKind::Lastfm, "Last.fm"),
        ("lrclib", ProviderKind::LrcLib, "LRCLIB"),
    ] {
        assert!(has_provider(key));
        assert_eq!(get_provider(key), kind);
        assert_eq!(kind.name(), name);
    }
    assert!(!has_provider("spotify"));
    assert!(!has_provider(""));
}

fn chain(n_tries: u32) -> MetadataChain {
    MetadataChain::new(&vec![s("musicbrainz"), s("lastfm")], n_tries)
}

#[test]
fn chains_follow_the_settings() {
    let c = chain(3);
    assert_eq!(c.providers, vec![ProviderKind::MusicBrainz, ProviderKind::Lastfm]);
    assert_eq!(c.max_tries, 3);
    assert_eq!(chain(0).max_tries, 1);
    assert_eq!(chain(1).max_tries, 1);
}

#[test]
fn a_chain_carries_the_document_and_the_key() {
    let c = chain(2);
    let run = c.start("key", Some(1));
    assert_eq!((run.provider, run.tries_left, run.key, run.existing), (0, 2, "key", Some(1)));
    assert!(c.is_running(&run));
    let (run, toast) = c.on_reply(run.provider, run.tries_left, "more", Ok(Some(2)), true);
    assert_eq!(toast, None);
    assert_eq!((run.provider, run.tries_left, run.key, run.existing), (1, 2, "more", Some(2)));
    let reply: MetadataResult<Option<i32>> = Err(MetadataError::NotFound(Some(2)));
    let (run, toast) = c.on_reply(run.provider, run.tries_left, run.key, reply, true);
    assert_eq!(toast, some("Last.fm: not available from this provider"));
    assert_eq!(run.existing, Some(2));
    assert!(!c.is_running(&run));
}

#[test]
fn a_chain_ends_after_its_retries() {
    let c = chain(2);
    let mut run = c.start((), 0);
    let mut calls = 0;
    let mut toasts = 0;
    while c.is_running(&run) {
        calls += 1;
        let reply: MetadataResult<i32> = Err(MetadataError::Temporary(run.existing));
        let (next, toast) = c.on_reply(run.provider, run.tries_left, run.key, reply, true);
        if next.provider != run.provider {
            assert_eq!(next.tries_left, c.max_tries);
            assert!(toast.is_some());
            toasts += 1;
        } else {
            assert_eq!(next.tries_left + 1, run.tries_left);
            assert_eq!(toast, None);
        }
        run = next;
    }
    assert_eq!(calls, 2 * (2 + 1));
    assert_eq!(toasts, 2);
}

#[test]
fn a_chain_is_silent_unless_asked() {
    let c = chain(1);
    let reply: MetadataResult<i32> = Err(MetadataError::RateLimit(5));
    let (run, toast) = c.on_reply(0, 1, (), reply, false);
    assert_eq!(toast, None);
    assert_eq!((run.provider, run.existing), (1, 5));
}

#[test]
fn the_first_lyrics_are_taken() {
    let c = chain(1);
    assert!(matches!(
        c.start_lyrics::<String>(),
        LyricsStep::Ask { provider: 0, tries_left: 1 }
    ));
    let (step, toast) = c.on_lyrics(0, 1, Ok(Some(s("la"))), true);
    assert!(matches!(step, LyricsStep::Found(text) if text == "la"));
    assert_eq!(toast, None);
    let (step, toast) = c.on_lyrics::<String>(0, 1, Ok(None), true);
    assert!(matches!(step, LyricsStep::Ask { provider: 1, tries_left: 1 }));
    assert_eq!(toast, None);
    let (step, toast) = c.on_lyrics::<String>(1, 1, Err(MetadataError::Temporary(None)), true);
    assert!(matches!(step, LyricsStep::Ask { provider: 1, tries_left: 0 }));
    assert_eq!(toast, None);
    let (step, toast) = c.on_lyrics::<String>(1, 0, Err(MetadataError::Temporary(None)), true);
    assert!(matches!(step, LyricsStep::NotFound));
    assert_eq!(toast, some("Last.fm: temporary server-side error (exceeded retries)"));
    let (step, toast) = c.on_lyrics::<String>(0, 1, Err(MetadataError::Parse(None)), false);
    assert!(matches!(step, LyricsStep::Ask { provider: 1, tries_left: 1 }));
    assert_eq!(toast, None);
    let empty = MetadataChain::new(&vec![], 1);
    assert!(matches!(empty.start_lyrics::<String>(), LyricsStep::NotFound));
}

#[test]
fn lastfm_is_asked_by_id_or_by_name() {
    let query = query_of(lastfm::controller::album_request(
        true,
        "k",
        &album_key(Some("id"), Some("Bowie")),
        None,
    ));
    assert_eq!(
        query,
        owned(&[("format", "json"), ("method", "album.getInfo"), ("api_key", "k"), ("mbid", "id")])
    );
    let query =
        query_of(lastfm::controller::album_request(true, "k", &album_key(None, Some("Bowie")), None));
    assert_eq!(query[3..], owned(&[("album", "Low"), ("artist", "Bowie")])[..]);
    let query = query_of(lastfm::controller::artist_request(true, "k", &artist_key(None), None));
    assert_eq!(
        query,
        owned(&[
            ("format", "json"),
            ("method", "artist.getinfo"),
            ("api_key", "k"),
            ("artist", "David Bowie")
        ])
    );
    let query =
        query_of(lastfm::controller::artist_request(true, "k", &artist_key(Some("id")), None));
    assert_eq!(query[3], (s("mbid"), s("id")));
    assert_eq!(lastfm::controller::API_ROOT, "http://ws.audioscrobbler.com/2.0");
}

#[test]
fn lastfm_is_not_asked_in_vain() {
    let known = || Some(AlbumMeta { name: s("x"), ..AlbumMeta::default() });
    assert!(matches!(
        lastfm::controller::album_request(false, "k", &album_key(None, None), known()),
        lastfm::controller::RequestPlan::Return(Ok(Some(_)))
    ));
    assert!(matches!(
        lastfm::controller::album_request(true, "", &album_key(None, None), known()),
        lastfm::controller::RequestPlan::Return(Err(MetadataError::Credential(Some(_))))
    ));
    assert!(matches!(
        lastfm::controller::album_request(true, "k", &album_key(None, None), known()),
        lastfm::controller::RequestPlan::Return(Err(MetadataError::InsufficientKey(Some(_))))
    ));
    assert!(matches!(
        lastfm::controller::artist_request(false, "k", &artist_key(None), None),
        lastfm::controller::RequestPlan::Return(Ok(None))
    ));
    assert!(matches!(
        lastfm::controller::artist_request(true, "", &artist_key(None), None),
        lastfm::controller::RequestPlan::Return(Err(MetadataError::Credential(None)))
    ));
}

fn lastfm_album(wiki: Option<&str>) -> LastfmAlbum {
    LastfmAlbum {
        artist: s("bowie"),
        mbid: None,
        tags: TagsHelper::Nested(NestedTagList {
            tag: vec![Tag { name: s("rock"), url: some("u"), count: None, set_by_user: false }],
        }),
        image: vec![
            LastfmImage { size: s("small"), url: s("1") },
            LastfmImage { size: s("medium"), url: s("2") },
            LastfmImage { size: s("large"), url: s("3") },
            LastfmImage { size: s("mega"), url: s("4") },
            LastfmImage { size: s(""), url: s("5") },
        ],
        url: s("https://last.fm/low"),
        name: s("low"),
        wiki: wiki.map(|content| LastfmWiki { content: s(content) }),
    }
}

#[test]
fn lastfm_albums_become_ours() {
    let response = LastfmAlbumResponse { album: lastfm_album(Some("About.")) };
    assert!(response.album.is_readable());
    let meta = response.album.into();
    assert_eq!(meta.name, "low");
    assert_eq!(meta.artist, some("bowie"));
    assert_eq!(meta.url, some("https://last.fm/low"));
    assert_eq!(meta.tags.len(), 1);
    assert_eq!(meta.tags[0].name, "rock");
    let sizes: Vec<ImageSize> = meta.image.iter().map(|i| i.size).collect();
    assert_eq!(
        sizes,
        vec![
            ImageSize::Small,
            ImageSize::Medium,
            ImageSize::Large,
            ImageSize::Large,
            ImageSize::Large
        ]
    );
    assert_eq!(meta.image[4].url, "5");
    assert_eq!(meta.wiki.unwrap().content, "About.");
    let mut untagged = lastfm_album(None);
    untagged.tags = TagsHelper::String(String::new());
    let meta = untagged.into();
    assert!(meta.tags.is_empty());
    assert!(meta.wiki.is_none());
}

const LICENCE_UNKNOWN: &str = "Unable to parse licensing information for this text. Please refer to Last.fm's ToS for licensing terms.";

#[test]
fn wikis_are_taken_apart() {
    let wiki = LastfmWiki {
        content: s("Low is an <a href=\"x\">album</a>.\n\n <a href=\"https://www.last.fm/low\">Read more on Last.fm</a>. CC-BY-SA. "),
    };
    assert!(wiki.has_readable_link());
    let wiki = wiki.into();
    assert_eq!(wiki.content, "Low is an <a href=\"x\">album</a>.");
    assert_eq!(wiki.url, some("https://www.last.fm/low"));
    assert_eq!(wiki.attribution, "CC-BY-SA.");
}

#[test]
fn wikis_may_lack_a_link() {
    let wiki = LastfmWiki { content: s(" no link ") }.into();
    assert_eq!(wiki.content, " no link ");
    assert_eq!(wiki.url, None);
    assert_eq!(wiki.attribution, LICENCE_UNKNOWN);
    let wiki = LastfmWiki { content: s("text <a href=\"u\">read</a> on") }.into();
    assert_eq!(wiki.content, "text ");
    assert_eq!(wiki.url, None);
    assert_eq!(wiki.attribution, LICENCE_UNKNOWN);
    let wiki = LastfmWiki { content: s("text</a>. rest") }.into();
    assert_eq!(wiki.content, "text</a>. rest");
    assert_eq!(wiki.attribution, LICENCE_UNKNOWN);
}

#[test]
fn some_links_cannot_be_read() {
    assert!(!LastfmWiki { content: s("a</a>. <a href=\"u\">b") }.has_readable_link());
    assert!(!LastfmWiki { content: s("<a href>b</a>. c") }.has_readable_link());
    assert!(!LastfmWiki { content: s("<a href=\">b</a>. c") }.has_readable_link());
    assert!(LastfmWiki { content: s("<a href=\"\">b</a>. c") }.has_readable_link());
    assert!(!lastfm_album(Some("a</a>. <a href=\"u\">b")).is_readable());
    assert!(lastfm_album(None).is_readable());
}

#[test]
fn lastfm_answers_keep_the_names_of_tags() {
    let key = album_key(Some("id"), Some("David Bowie"));
    let known = AlbumMeta { url: some("old"), mbid: some("other"), ..AlbumMeta::default() };
    let meta = lastfm::controller::album_result(&key, Some(known), lastfm::controller::LastfmReply::Parsed(lastfm_album(None)))
        .unwrap()
        .unwrap();
    assert_eq!(meta.name, "Low");
    assert_eq!(meta.artist, some("David Bowie"));
    assert_eq!(meta.mbid, some("id"));
    assert_eq!(meta.url, some("https://last.fm/low"));
    let meta = lastfm::controller::album_result(&album_key(None, None), None, lastfm::controller::LastfmReply::Parsed(lastfm_album(None)))
        .unwrap()
        .unwrap();
    assert_eq!(meta.artist, some("bowie"));
    assert_eq!(meta.mbid, None);
}

#[test]
fn lastfm_artists_keep_their_names() {
    let answer = ArtistMeta { name: s("bowie"), ..ArtistMeta::default() };
    let known = ArtistMeta { country: some("UK"), ..ArtistMeta::default() };
    let meta = lastfm::controller::artist_result(&artist_key(Some("id")), Some(known), lastfm::controller::LastfmReply::Parsed(answer))
        .unwrap()
        .unwrap();
    assert_eq!(meta.name, "David Bowie");
    assert_eq!(meta.mbid, some("id"));
    assert_eq!(meta.country, some("UK"));
}

#[test]
fn lastfm_errors_have_meanings() {
    let key = album_key(None, None);
    let error = |code| {
        lastfm::controller::album_result(&key, None, lastfm::controller::LastfmReply::ServiceError(code)).unwrap_err()
    };
    assert!(matches!(error(29), MetadataError::RateLimit(None)));
    for code in [4, 9, 10, 26] {
        assert!(matches!(error(code), MetadataError::Credential(None)));
    }
    for code in [11, 16] {
        assert!(matches!(error(code), MetadataError::Temporary(None)));
    }
    assert!(matches!(error(6), MetadataError::Other(None)));
    let known = || Some(AlbumMeta::default());
    assert!(matches!(
        lastfm::controller::album_result(&key, known(), lastfm::controller::LastfmReply::NoText),
        Err(MetadataError::Parse(Some(_)))
    ));
    assert!(matches!(
        lastfm::controller::album_result(&key, known(), lastfm::controller::LastfmReply::Unparseable),
        Err(MetadataError::Parse(Some(_)))
    ));
    let failure = http(None, true, false);
    assert!(matches!(
        lastfm::controller::album_result(&key, known(), lastfm::controller::LastfmReply::Failed(failure)),
        Err(MetadataError::Reqwest(Some(_), e)) if e == failure
    ));
    let key = artist_key(None);
    assert!(matches!(
        lastfm::controller::artist_result(&key, None, lastfm::controller::LastfmReply::ServiceError(29)),
        Err(MetadataError::RateLimit(None))
    ));
    assert!(matches!(
        lastfm::controller::artist_result(&key, None, lastfm::controller::LastfmReply::Failed(failure)),
        Err(MetadataError::Reqwest(None, _))
    ));
    assert!(matches!(
        lastfm::controller::artist_result(&key, None, lastfm::controller::LastfmReply::NoText),
        Err(MetadataError::Parse(None))
    ));
    assert!(matches!(
        lastfm::controller::artist_result(&key, None, lastfm::controller::LastfmReply::Unparseable),
        Err(MetadataError::Parse(None))
    ));
}

fn song(artist: Option<&str>, album: Option<AlbumInfo>) -> SongInfo {
    SongInfo {
        uri: s("a.flac"),
        title: s("Warszawa"),
        artist_tag: artist.map(s),
        artists: vec![],
        album,
        release_date: None,
        track: None,
    }
}

#[test]
fn lrclib_is_asked_for_what_is_known() {
    assert_eq!(lrclib::controller::lyrics_request(false, &song(None, None)), None);
    assert_eq!(lrclib::controller::lyrics_request(true, &song(None, None)), Some(owned(&[("track_name", "Warszawa")])));
    assert_eq!(
        lrclib::controller::lyrics_request(true, &song(Some("Bowie"), Some(album_key(None, None)))),
        Some(owned(&[
            ("track_name", "Warszawa"),
            ("artist_name", "Bowie"),
            ("album_name", "Low")
        ]))
    );
    assert_eq!(lrclib::controller::API_ROOT, "https://lrclib.net/api/");
}

fn candidate(distance: u32) -> LrcLibResponse {
    LrcLibResponse { title: s("t"), distance, plain: s("p"), synced: None }
}

#[test]
fn the_closest_lyrics_are_chosen() {
    assert_eq!(lrclib::controller::closest(&vec![]), None);
    assert_eq!(lrclib::controller::closest(&vec![candidate(5)]), Some(0));
    assert_eq!(lrclib::controller::closest(&vec![candidate(5), candidate(2), candidate(2), candidate(9)]), Some(1));
    assert_eq!(lrclib::controller::preferred(Some("synced"), Some("plain")), Some("synced"));
    assert_eq!(lrclib::controller::preferred(None, Some("plain")), Some("plain"));
    assert_eq!(lrclib::controller::preferred::<&str>(None, None), None);
}

#[test]
fn the_texts_of_the_closest_lyrics_are_taken() {
    let with_texts = |distance, plain: &str, synced: Option<&str>| LrcLibResponse {
        title: s("t"),
        distance,
        plain: s(plain),
        synced: synced.map(s),
    };
    assert_eq!(lrclib::controller::best_texts(&vec![]), None);
    let candidates = vec![
        with_texts(5, "far", Some("[00:01.00] far")),
        with_texts(2, "near", None),
        with_texts(2, "second", Some("[00:01.00] second")),
    ];
    assert_eq!(lrclib::controller::best_texts(&candidates), Some((None, s("near"))));
    assert_eq!(
        lrclib::controller::best_texts(&vec![with_texts(1, "p", Some("[00:01.00] s"))]),
        Some((Some(s("[00:01.00] s")), s("p")))
    );
}

#[test]
fn lrclib_errors_have_meanings() {
    let result = |failure| lrclib::controller::failure_result::<String>(failure).unwrap_err();
    let code = |code| lrclib::controller::LrcLibFailure::ServiceError(LrcLibErrorResponse { code });
    assert!(matches!(result(code(404)), MetadataError::NotFound(None)));
    assert!(matches!(result(code(500)), MetadataError::Other(None)));
    assert!(matches!(result(lrclib::controller::LrcLibFailure::NoText), MetadataError::Parse(None)));
    assert!(matches!(result(lrclib::controller::LrcLibFailure::Unparseable), MetadataError::Parse(None)));
    let failure = http(None, false, true);
    assert!(matches!(
        result(lrclib::controller::LrcLibFailure::Failed(failure)),
        MetadataError::Reqwest(None, e) if e == failure
    ));
}

#[test]
fn musicbrainz_is_asked_by_id_or_by_name() {
    assert!(matches!(
        musicbrainz::controller::album_lookup(true, &album_key(Some("id"), None)),
        musicbrainz::controller::AlbumLookup::Fetch { mbid } if mbid == "id"
    ));
    assert!(matches!(
        musicbrainz::controller::album_lookup(true, &album_key(None, Some("Bowie"))),
        musicbrainz::controller::AlbumLookup::Search { query } if query == "query=release:Low AND artist:Bowie"
    ));
    assert!(matches!(
        musicbrainz::controller::album_lookup(true, &album_key(None, Some("David Bowie"))),
        musicbrainz::controller::AlbumLookup::Search { query } if query == "query=release:Low AND artist:\"David Bowie\""
    ));
    assert!(matches!(musicbrainz::controller::album_lookup(true, &album_key(None, None)), musicbrainz::controller::AlbumLookup::Skip));
    assert!(matches!(musicbrainz::controller::album_lookup(false, &album_key(Some("id"), None)), musicbrainz::controller::AlbumLookup::Skip));
    assert!(matches!(
        musicbrainz::controller::artist_lookup(true, &artist_key(Some("id"))),
        musicbrainz::controller::ArtistLookup::Fetch { mbid } if mbid == "id"
    ));
    assert!(matches!(
        musicbrainz::controller::artist_lookup(true, &artist_key(None)),
        musicbrainz::controller::ArtistLookup::Search { query } if query == "query=artist:\"David Bowie\""
    ));
    assert!(matches!(musicbrainz::controller::artist_lookup(false, &artist_key(None)), musicbrainz::controller::ArtistLookup::Skip));
}

#[test]
fn releases_get_a_front_cover() {
    let release = || AlbumMeta {
        name: s("Low"),
        mbid: some("id"),
        image: vec![image(ImageSize::Small, "a")],
        ..AlbumMeta::default()
    };
    let (meta, retry) = musicbrainz::controller::album_result(None, Some(release()), true, "https://caa");
    let meta = meta.unwrap();
    assert!(!retry);
    assert_eq!(meta.image.len(), 2);
    assert_eq!(meta.image[1].size, ImageSize::Mega);
    assert_eq!(meta.image[1].url, "https://caa/release/id/front");
    let (meta, _) = musicbrainz::controller::album_result(None, Some(release()), false, "https://caa");
    assert_eq!(meta.unwrap().image.len(), 1);
    let known = AlbumMeta { name: s("x"), url: some("u"), ..AlbumMeta::default() };
    let (meta, _) = musicbrainz::controller::album_result(Some(known), Some(release()), false, "");
    let meta = meta.unwrap();
    assert_eq!((meta.name.as_str(), meta.url.as_deref()), ("Low", Some("u")));
    let (meta, retry) = musicbrainz::controller::album_result(Some(AlbumMeta::default()), None, true, "");
    assert!(meta.is_some() && !retry);
    assert!(musicbrainz::controller::album_result(None, None, true, "").0.is_none());
}

#[test]
fn artists_are_merged_with_what_is_known() {
    let found = || ArtistMeta {
        name: s("David Bowie"),
        begin_date: Some(Date { year: 1947, month: 1, day: 8 }),
        ..ArtistMeta::default()
    };
    let known = || ArtistMeta { name: s("x"), mbid: some("id"), ..ArtistMeta::default() };
    assert!(musicbrainz::controller::artist_result(None, None).0.is_none());
    assert_eq!(musicbrainz::controller::artist_result(Some(known()), None).0.unwrap().name, "x");
    assert_eq!(musicbrainz::controller::artist_result(None, Some(found())).0.unwrap().name, "David Bowie");
    let (meta, retry) = musicbrainz::controller::artist_result(Some(known()), Some(found()));
    let meta = meta.unwrap();
    assert!(!retry);
    assert_eq!(meta.name, "David Bowie");
    assert_eq!(meta.mbid, some("id"));
    assert_eq!(meta.begin_date, Some(Date { year: 1947, month: 1, day: 8 }));
}

fn tag(name: &str) -> Tag {
    Tag { name: s(name), url: None, count: None, set_by_user: false }
}

fn album_text(meta: &AlbumMeta) -> String {
    format!("{meta:?}")
}

fn three_albums() -> [AlbumMeta; 3] {
    [
        AlbumMeta {
            name: s("a"),
            artist: some("a"),
            tags: vec![tag("a")],
            wiki: Some(Wiki { content: s("a"), url: None, attribution: s("a") }),
            ..AlbumMeta::default()
        },
        AlbumMeta {
            name: s("b"),
            mbid: some("b"),
            tags: vec![tag("b"), tag("c")],
            ..AlbumMeta::default()
        },
        AlbumMeta {
            name: s("c"),
            artist: some("c"),
            image: vec![image(ImageSize::Large, "c")],
            url: some("c"),
            ..AlbumMeta::default()
        },
    ]
}

#[test]
fn merging_keeps_what_either_document_knows() {
    let [a, b, _] = three_albums();
    let merged = a.merge(b);
    assert_eq!(merged.name, "b");
    assert_eq!(merged.artist, some("a"));
    assert_eq!(merged.mbid, some("b"));
    assert_eq!(merged.tags.len(), 2);
    assert_eq!(merged.wiki.unwrap().content, "a");
    assert!(merged.url.is_none());
    let [a, _, c] = three_albums();
    let merged = a.merge(c);
    assert_eq!(merged.artist, some("c"));
    assert_eq!(merged.image.len(), 1);
    assert_eq!(merged.tags[0].name, "a");
}

#[test]
fn the_order_of_merging_two_pairs_does_not_matter() {
    let [a, b, c] = three_albums();
    let left = a.merge(b).merge(c);
    let [a, b, c] = three_albums();
    let right = a.merge(b.merge(c));
    assert_eq!(album_text(&left), album_text(&right));
}

#[test]
fn new_artist_data_wins() {
    let day = |year| Some(Date { year, month: 1, day: 1 });
    let a = || ArtistMeta {
        name: s("a"),
        artist_type: Some(1),
        country: some("a"),
        begin_date: day(1),
        bio: Some(Wiki::default()),
        ..ArtistMeta::default()
    };
    let b = || ArtistMeta {
        name: s("b"),
        artist_type: Some(2),
        end_date: day(2),
        tags: vec![tag("b")],
        ..ArtistMeta::default()
    };
    let merged = a().merge(b());
    assert_eq!(merged.name, "b");
    assert_eq!(merged.artist_type, Some(2));
    assert_eq!(merged.country, some("a"));
    assert_eq!((merged.begin_date, merged.end_date), (day(1), day(2)));
    assert_eq!(merged.tags.len(), 1);
    assert_eq!(merged.bio.unwrap().content, "");
    let left = a().merge(b()).merge(a());
    let right = a().merge(b().merge(a()));
    assert_eq!(format!("{left:?}"), format!("{right:?}"));
}

#[test]
fn articles_can_be_copied() {
    let wiki = Wiki { content: s("c"), url: some("u"), attribution: s("a") };
    let copy = wiki.duplicate();
    assert_eq!(format!("{wiki:?}"), format!("{copy:?}"));
}
