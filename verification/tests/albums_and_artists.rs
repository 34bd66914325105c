use euphonica::common::{AlbumInfo, ArtistInfo, Date, SongInfo};
use euphonica::library::album_cell::{AlbumCell, Measure};
use euphonica::library::album_content_view as album_view_logic;
use euphonica::library::album_content_view::{
    AlbumForm, BackupChild, BackupNext, BackupOutcome, BackupRequest, BackupState, MetaPlan,
    QueueChoice,
};
use euphonica::library::album_view::{
    compare_albums, search_album, sort_mode_named, sort_position, sort_setting, AlbumKeys,
    AlbumSort, AlbumView,
};
use euphonica::library::artist_cell::{
    cover_count, layout_name, ArtistCell, LoadStep, TextureLoad, MAX_COVERS,
};
use euphonica::library::artist_content_view as artist_view_logic;
use euphonica::library::artist_content_view::{ArtistForm, ArtistQueueChoice};
use euphonica::library::controller::{
    ClientCommand, Library, QueryOperation, StickersSupportLevel, TagName,
};
use euphonica::library::discography::{artist_content, AlbumSection, ArtistContent};
use euphonica::library::discography_album::{
    album_header, collapse_icon, set_narrow, CoverLoad, Orientation,
};
use euphonica::library::discography_year::DiscographyYear;
use euphonica::library::selection::{
    pick, play_label, queue_label, queue_next_label, selecting_all, total_duration,
};
use euphonica::library::sorting::{
    compare_dates, compare_texts, filter_change, search_text, sort_direction_icon,
    toggled_direction, FilterChange, Place, SortOptions,
};
use euphonica::meta_providers::models::{AlbumMeta, ArtistMeta, ImageMeta, ImageSize, Tag, Wiki};

fn s(text: &str) -> String {
    text.to_string()
}

fn some(text: &str) -> Option<String> {
    Some(text.to_string())
}

fn day(year: i32, month: u8, day: u8) -> Date {
    Date { year, month, day }
}

fn album(title: &str, artist: Option<&str>, mbid: Option<&str>) -> AlbumInfo {
    AlbumInfo {
        title: s(title),
        mbid: mbid.map(s),
        artist_tag: artist.map(s),
        artists: vec![],
        comp_id: format!("{title}|{artist:?}"),
    }
}

#[test]
fn buttons_say_what_is_selected() {
    assert!(selecting_all(0, 5));
    assert!(selecting_all(5, 5));
    assert!(!selecting_all(3, 5));
    assert_eq!(play_label(0, 5), "Play all");
    assert_eq!(play_label(5, 5), "Play all");
    assert_eq!(play_label(3, 5), "Play 3");
    assert_eq!(queue_label(12, 50), "Queue 12");
    assert_eq!(queue_next_label(0, 5), "Queue all next");
    assert_eq!(queue_next_label(2, 5), "Queue 2 next");
    let labels = album_view_logic::on_selection_changed(2, 9);
    assert_eq!(labels.play, "Play 2");
    assert_eq!(labels.queue, "Queue 2");
    assert_eq!(labels.queue_next, "Queue 2 next");
}

#[test]
fn selections_are_picked_and_summed() {
    assert_eq!(pick(&vec!['a', 'b', 'c'], &vec![2, 0]), vec!['c', 'a']);
    assert_eq!(pick(&vec!['a'], &vec![]), Vec::<char>::new());
    assert_eq!(total_duration(&vec![]), 0);
    assert_eq!(total_duration(&vec![100, 20, 3]), 123);
    assert_eq!(album_view_logic::selected_songs(&vec![], 3), vec![0, 1, 2]);
    assert_eq!(album_view_logic::selected_songs(&vec![1, 2, 0], 3), vec![0, 1, 2]);
    assert_eq!(album_view_logic::selected_songs(&vec![2], 3), vec![2]);
}

#[test]
fn albums_are_queued_whole_where_possible() {
    let choose_queue = album_view_logic::queue_selected;
    assert_eq!(choose_queue(0, 9, true, false), QueueChoice::Album);
    assert_eq!(choose_queue(9, 9, true, false), QueueChoice::Album);
    assert_eq!(choose_queue(0, 9, false, false), QueueChoice::Songs);
    assert_eq!(choose_queue(3, 9, true, false), QueueChoice::Songs);
    assert_eq!(choose_queue(0, 9, true, true), QueueChoice::InsertNext);
}

#[test]
fn ratings_are_half_stars() {
    assert_eq!(album_view_logic::rating_readout(-1), "Unrated");
    assert_eq!(album_view_logic::rating_readout(0), "0.0");
    assert_eq!(album_view_logic::rating_readout(7), "3.5");
    assert_eq!(album_view_logic::rating_readout(10), "5.0");
    assert_eq!(album_view_logic::rating_option(0), None);
    assert_eq!(album_view_logic::rating_option(-1), None);
    assert_eq!(album_view_logic::rating_option(1), Some(1));
    assert!(album_view_logic::rating_visible(StickersSupportLevel::All));
    assert!(!album_view_logic::rating_visible(StickersSupportLevel::SongsOnly));
    assert!(!album_view_logic::rating_visible(StickersSupportLevel::Disabled));
}

#[test]
fn news_concern_the_album_on_display() {
    assert!(album_view_logic::concerns_album(Some("a/b"), "a/b"));
    assert!(!album_view_logic::concerns_album(Some("a/b"), "a"));
    assert!(!album_view_logic::concerns_album(None, "a"));
    assert!(artist_view_logic::concerns_artist(Some("x"), "x"));
    assert!(!artist_view_logic::concerns_artist(Some("x"), "y"));
    assert!(!artist_view_logic::concerns_artist(None, "y"));
}

#[test]
fn album_metadata_is_edited() {
    let meta = AlbumMeta {
        name: s("Low"),
        mbid: some("id"),
        tags: vec![Tag { name: s("t"), url: None, count: None, set_by_user: true }],
        wiki: Some(Wiki { content: s("c"), url: some("u"), attribution: s("a") }),
        ..AlbumMeta::default()
    };
    let form = album_view_logic::edit_form(&Some(meta));
    assert_eq!(
        (form.wiki_desc.as_str(), form.wiki_link.as_str(), form.wiki_attrib.as_str()),
        ("c", "u", "a")
    );
    assert_eq!(form.mbid, "id");
    let empty = album_view_logic::edit_form(&None);
    assert_eq!(empty.wiki_desc + &empty.wiki_link + &empty.wiki_attrib + &empty.mbid, "");
    let form = AlbumForm {
        wiki_desc: s("new"),
        wiki_link: s(""),
        wiki_attrib: s("me"),
        mbid: s(""),
    };
    let saved = album_view_logic::metadata_save(None, form);
    assert_eq!(saved.mbid, None);
    let wiki = saved.wiki.unwrap();
    assert_eq!((wiki.content.as_str(), wiki.url, wiki.attribution.as_str()), ("new", None, "me"));
}

#[test]
fn an_untouched_album_form_changes_nothing() {
    let meta = || AlbumMeta {
        name: s("Low"),
        artist: some("Bowie"),
        mbid: some("id"),
        image: vec![ImageMeta { size: ImageSize::Large, url: s("i") }],
        wiki: Some(Wiki { content: s("c"), url: None, attribution: s("a") }),
        ..AlbumMeta::default()
    };
    let form = album_view_logic::edit_form(&Some(meta()));
    let saved = album_view_logic::metadata_save(Some(meta()), form);
    assert_eq!(format!("{saved:?}"), format!("{:?}", meta()));
}

fn backup() -> BackupState {
    BackupState {
        visible: false,
        child: BackupChild::Button,
        old_last_modified: None,
        new_last_modified: None,
    }
}

#[test]
fn a_backup_runs_to_its_end() {
    let mut state = backup();
    assert_eq!(state.begin(false, true, true, true), None);
    assert!(!state.on_loaded(10, true, true, true));
    assert!(!state.visible);
    assert!(state.on_saved(Some(20), true, true));
    assert!(state.visible);
    assert_eq!(state.begin(false, false, true, true), None);
    assert_eq!(state.begin(false, true, false, true), None);
    assert_eq!(state.begin(false, true, true, false), None);
    let request = state.begin(true, true, true, true).unwrap();
    assert_eq!(
        request,
        BackupRequest { old_last_modified: 10, new_last_modified: 20, overwrite: true }
    );
    assert_eq!(state.child, BackupChild::Spinner);
    state.end(request, true);
    assert!(!state.visible);
    assert_eq!(state.old_last_modified, Some(20));
}

#[test]
fn a_failed_backup_can_be_repeated() {
    let mut state = backup();
    assert!(state.on_loaded(10, false, true, true));
    let request = state.begin(false, true, true, true).unwrap();
    state.end(request, false);
    assert!(state.visible);
    assert_eq!(state.child, BackupChild::Button);
    assert_eq!(state.old_last_modified, Some(10));
}

#[test]
fn backups_need_a_server_that_takes_them() {
    let mut state = backup();
    assert!(!state.on_loaded(10, false, false, true));
    assert!(!state.visible);
    assert!(!state.on_loaded(10, false, true, false));
    assert!(state.visible);
    assert!(!state.on_saved(None, true, true));
    assert!(!state.visible);
    assert_eq!(state.new_last_modified, Some(10));
    assert!(!state.maybe_show_backup_metadata_btn(true, false));
    assert!(!state.maybe_show_backup_metadata_btn(false, true));
    assert!(state.maybe_show_backup_metadata_btn(true, true));
}

#[test]
fn the_user_hears_of_backups() {
    let next = album_view_logic::backup_next;
    assert!(matches!(next(&BackupOutcome::Done, false), BackupNext::Finish));
    assert!(matches!(next(&BackupOutcome::AlreadyExists, false), BackupNext::AskOverwrite));
    assert!(matches!(
        next(&BackupOutcome::AlreadyExists, true),
        BackupNext::Toast(text) if text == "Couldn't back up metadata: MPD side is newer"
    ));
    assert!(matches!(
        next(&BackupOutcome::Failed(s("disk full")), true),
        BackupNext::Toast(text) if text == "Couldn't back up metadata: disk full"
    ));
    assert!(album_view_logic::overwrite_chosen("overwrite"));
    assert!(!album_view_logic::overwrite_chosen("cancel"));
}

#[test]
fn untitled_albums_are_not_looked_up() {
    assert_eq!(album_view_logic::update_meta_plan(None), MetaPlan::Nothing);
    assert_eq!(album_view_logic::update_meta_plan(Some("")), MetaPlan::Untitled);
    assert_eq!(album_view_logic::update_meta_plan(Some("Low")), MetaPlan::Fetch);
}

#[test]
fn articles_are_shown() {
    let wiki = Wiki { content: s("c"), url: some("u"), attribution: s("a") };
    let display = album_view_logic::wiki_display(&Some(wiki));
    assert_eq!(display.content, Some((s("c"), s("a"))));
    assert!(display.link_visible);
    assert_eq!(display.link_uri, "u");
    let wiki = Wiki { content: s("c"), url: None, attribution: s("a") };
    let display = album_view_logic::wiki_display(&Some(wiki));
    assert!(!display.link_visible);
    assert_eq!(display.link_uri, "");
    assert_eq!(album_view_logic::wiki_display(&None).content, None);
    let tags = || vec![Tag { name: s("t"), url: None, count: None, set_by_user: false }];
    assert!(album_view_logic::shows_tags(&Some(tags())));
    assert!(!album_view_logic::shows_tags(&Some(vec![])));
    assert!(!album_view_logic::shows_tags(&None));
}

#[test]
fn album_texts_are_put_together() {
    assert_eq!(album_view_logic::release_uri("id"), "https://musicbrainz.org/release/id");
    let row = album_view_logic::release_row(&some("id"));
    assert!(row.visible);
    assert_eq!(row.link, Some((s("id"), s("https://musicbrainz.org/release/id"))));
    let row = album_view_logic::release_row(&None);
    assert!(!row.visible && row.link.is_none());
    assert_eq!(album_view_logic::last_updated_label("1 day ago"), "Last updated 1 day ago");
    assert_eq!(album_view_logic::cache_error_toast("Couldn't set cover", "x"), "Couldn't set cover: x");
}

#[test]
fn a_row_plays_the_album_from_there() {
    let commands = album_view_logic::row_activated(&album("Low", Some("Bowie"), None), 4);
    assert!(matches!(commands[0], ClientCommand::ClearQueue));
    match &commands[1] {
        ClientCommand::FindAdd { query } => {
            assert_eq!(query.len(), 2);
            assert_eq!((query[0].tag, query[0].value.as_str()), (TagName::Album, "Low"));
            assert_eq!(query[0].operation, QueryOperation::Equals);
            assert_eq!((query[1].tag, query[1].value.as_str()), (TagName::AlbumArtist, "Bowie"));
        }
        other => panic!("{other:?}"),
    }
    assert!(matches!(commands[2], ClientCommand::PlayAt { position: 4 }));
    assert_eq!(commands.len(), 3);
}

const ASC: SortOptions = SortOptions { nulls_first: false, asc: true };
const DESC: SortOptions = SortOptions { nulls_first: false, asc: false };
const NULLS_FIRST: SortOptions = SortOptions { nulls_first: true, asc: true };

#[test]
fn texts_have_places() {
    assert_eq!(compare_texts(Some("a"), Some("b"), ASC, true), Place::Smaller);
    assert_eq!(compare_texts(Some("a"), Some("b"), DESC, true), Place::Larger);
    assert_eq!(compare_texts(Some("B"), Some("a"), ASC, true), Place::Smaller);
    assert_eq!(compare_texts(Some("B"), Some("a"), ASC, false), Place::Larger);
    assert_eq!(compare_texts(Some("É"), Some("é"), ASC, false), Place::Equal);
    assert_eq!(compare_texts(Some("É"), Some("é"), ASC, true), Place::Smaller);
    assert_eq!(compare_texts(None, None, ASC, true), Place::Equal);
}

#[test]
fn missing_values_do_not_move_with_the_direction() {
    for options in [ASC, DESC] {
        assert_eq!(compare_texts(None, Some("a"), options, true), Place::Larger);
        assert_eq!(compare_texts(Some("a"), None, options, true), Place::Smaller);
        assert_eq!(compare_dates(None, Some(day(1, 1, 1)), options), Place::Larger);
    }
    assert_eq!(compare_texts(None, Some("a"), NULLS_FIRST, true), Place::Smaller);
    assert_eq!(compare_texts(Some("a"), None, NULLS_FIRST, true), Place::Larger);
}

#[test]
fn the_other_direction_turns_places_round() {
    for (a, b) in [("a", "b"), ("b", "a"), ("a", "a"), ("", "x")] {
        let there = compare_texts(Some(a), Some(b), ASC, false);
        assert_eq!(there.flip(), compare_texts(Some(a), Some(b), DESC, false));
        assert_eq!(there.flip(), compare_texts(Some(b), Some(a), ASC, false));
    }
}

#[test]
fn dates_have_places() {
    let (a, b, c) = (day(1999, 12, 31), day(2000, 1, 1), day(2000, 1, 2));
    assert_eq!(compare_dates(Some(a), Some(b), ASC), Place::Smaller);
    assert_eq!(compare_dates(Some(c), Some(b), ASC), Place::Larger);
    assert_eq!(compare_dates(Some(c), Some(b), DESC), Place::Smaller);
    assert_eq!(compare_dates(Some(c), Some(c), DESC), Place::Equal);
}

#[test]
fn terms_are_searched() {
    assert!(search_text(Some("Ashes to Ashes"), "TO", false));
    assert!(!search_text(Some("Ashes to Ashes"), "TO", true));
    assert!(search_text(Some("abc"), "c", true));
    assert!(search_text(Some("abc"), "", true));
    assert!(search_text(Some("ÉTÉ"), "été", false));
    assert!(!search_text(Some("ab"), "abc", true));
    assert!(!search_text(None, "", true));
    assert_eq!(filter_change(2, 3), FilterChange::MoreStrict);
    assert_eq!(filter_change(3, 2), FilterChange::LessStrict);
    assert_eq!(filter_change(3, 3), FilterChange::Different);
}

#[test]
fn directions_are_toggled() {
    assert_eq!(sort_direction_icon("asc"), "view-sort-ascending-symbolic");
    assert_eq!(sort_direction_icon("desc"), "view-sort-descending-symbolic");
    assert_eq!(toggled_direction("asc"), "desc");
    assert_eq!(toggled_direction("desc"), "asc");
}

#[test]
fn sort_modes_have_names_numbers_and_positions() {
    for (i, (mode, name)) in [
        (AlbumSort::Title, "album-title"),
        (AlbumSort::Artist, "album-artist"),
        (AlbumSort::ReleaseDate, "release-date"),
    ]
    .into_iter()
    .enumerate()
    {
        assert_eq!(AlbumSort::numbered(3 + i as i32), mode);
        assert_eq!(sort_mode_named(name), mode);
        assert_eq!(sort_position(name), i as u32);
        assert_eq!(sort_setting(i as u32), name);
    }
}

fn keys(title: &str, artist: Option<&str>, date: Option<Date>) -> AlbumKeys {
    AlbumKeys { title: s(title), artist: artist.map(s), release_date: date }
}

#[test]
fn albums_are_sorted_and_searched() {
    let low = keys("Low", Some("Bowie"), Some(day(1977, 1, 14)));
    let lodger = keys("Lodger", None, Some(day(1979, 5, 18)));
    assert_eq!(compare_albums(&low, &lodger, AlbumSort::Title, ASC, true), Place::Larger);
    assert_eq!(compare_albums(&low, &lodger, AlbumSort::Artist, ASC, true), Place::Smaller);
    assert_eq!(compare_albums(&low, &lodger, AlbumSort::ReleaseDate, DESC, true), Place::Larger);
    assert!(search_album(&low, 0, "bow", false));
    assert!(search_album(&low, 0, "low", false));
    assert!(!search_album(&low, 1, "bow", false));
    assert!(search_album(&low, 2, "bow", false));
    assert!(!search_album(&lodger, 2, "bow", false));
    assert!(search_album(&lodger, 2, "", false));
    assert!(search_album(&lodger, 9, "zzz", false));
    let mut view = AlbumView::new();
    assert_eq!(view.on_search_changed(3), FilterChange::MoreStrict);
    assert_eq!(view.on_search_changed(1), FilterChange::LessStrict);
    assert_eq!(view.on_search_changed(1), FilterChange::Different);
}

#[test]
fn cells_have_sizes() {
    let mut cell = AlbumCell::new();
    assert_eq!(cell.image_size(), 128);
    assert!(!cell.rating_visible());
    assert!(cell.set_image_size(200));
    assert!(!cell.set_image_size(200));
    assert!(cell.set_rating(0));
    assert!(!cell.set_rating(0));
    assert!(cell.rating_visible());
    let width = cell.measure_width();
    assert_eq!(
        width,
        Measure { minimum: 200, natural: 200, minimum_baseline: -1, natural_baseline: -1 }
    );
    let inner =
        Measure { minimum: 150, natural: 160, minimum_baseline: 3, natural_baseline: 4 };
    assert_eq!(AlbumCell::measure_height(200, 128, inner).minimum, 222);
    assert_eq!(AlbumCell::measure_height(100, 128, inner), inner);
}

#[test]
fn artist_cells_fan_out_covers() {
    assert_eq!(MAX_COVERS, 3);
    assert_eq!(cover_count(0), 0);
    assert_eq!(cover_count(2), 2);
    assert_eq!(cover_count(9), 3);
    assert_eq!(layout_name(0), "avatar-only");
    assert_eq!(layout_name(1), "covers");
    let mut cell = ArtistCell { hires: false };
    assert!(cell.set_hires(true));
    assert!(!cell.set_hires(true));
    assert!(cell.hires());
}

#[test]
fn full_textures_wait_for_the_cache() {
    let mut load = TextureLoad::new(true);
    assert_eq!(load.next(50, 10), LoadStep::ThumbnailsThenWait);
    assert_eq!(load.next(50, 10), LoadStep::Wait);
    assert_eq!(load.next(9, 10), LoadStep::Hires);
    assert_eq!(TextureLoad::new(true).next(0, 10), LoadStep::Hires);
    assert_eq!(TextureLoad::new(false).next(50, 10), LoadStep::Thumbnails);
}

fn song(uri: &str, year: Option<i32>, title: Option<&str>, track: Option<i64>) -> SongInfo {
    SongInfo {
        uri: s(uri),
        title: s(uri),
        artist_tag: some("Bowie"),
        artists: vec![ArtistInfo { name: s("Bowie"), mbid: None, comp_id: s("bowie") }],
        album: title.map(|t| AlbumInfo {
            artists: vec![ArtistInfo { name: s("Bowie"), mbid: None, comp_id: s("bowie") }],
            ..album(t, Some("Bowie"), None)
        }),
        release_date: year.map(|y| day(y, 1, 1)),
        track,
    }
}

fn uris(content: &ArtistContent) -> Vec<&str> {
    content.songs.iter().map(|song| song.uri.as_str()).collect()
}

fn section(start: usize, end: usize) -> AlbumSection {
    AlbumSection { start, end }
}

#[test]
fn the_songs_of_an_artist_are_in_order() {
    let songs = vec![
        song("single", Some(1977), None, None),
        song("heroes-2", Some(1977), Some("Heroes"), Some(2)),
        song("low-1", Some(1977), Some("Low"), Some(1)),
        song("heroes-1", Some(1977), Some("Heroes"), Some(1)),
        song("lodger", Some(1979), Some("Lodger"), None),
        song("untagged", None, Some("Demos"), Some(1)),
        song("lost", None, None, None),
    ];
    let content = artist_content("bowie", songs, vec![]);
    assert_eq!(
        uris(&content),
        vec!["lodger", "heroes-1", "heroes-2", "low-1", "single", "untagged", "lost"]
    );
    assert_eq!(content.years.len(), 3);
    assert_eq!(content.years[0].year, Some(1979));
    assert_eq!(content.years[0].albums, vec![section(0, 1)]);
    assert_eq!(content.years[1].year, Some(1977));
    assert_eq!(content.years[1].albums, vec![section(1, 3), section(3, 4), section(4, 5)]);
    assert_eq!(content.years[2].year, None);
    assert_eq!(content.years[2].albums, vec![section(5, 6), section(6, 7)]);
}

#[test]
fn a_song_that_both_queries_find_is_listed_once() {
    let twice = || song("heroes-1", Some(1977), Some("Heroes"), Some(1));
    let content = artist_content(
        "bowie",
        vec![twice(), song("low-1", Some(1977), Some("Low"), Some(1))],
        vec![twice()],
    );
    assert_eq!(uris(&content), vec!["heroes-1", "low-1"]);
    let artist = ArtistInfo { name: s("Bowie"), mbid: None, comp_id: s("bowie") };
    let content = Library::get_artist_content(&artist, vec![twice()], vec![twice()]);
    assert_eq!(uris(&content), vec!["heroes-1"]);
    let nobody = ArtistInfo { name: s("x"), mbid: None, comp_id: s("x") };
    let content = Library::get_artist_content(&nobody, vec![twice()], vec![twice()]);
    assert_eq!(uris(&content), Vec::<&str>::new());
    assert!(content.years.is_empty());
}

#[test]
fn longer_terms_match_less() {
    let titles = ["Low", "Lodger", "Heroes", "Aladdin Sane"];
    for title in titles {
        for (shorter, longer) in [("Lo", "Low"), ("lo", "low"), ("a", "ad"), ("", "x")] {
            for case_sensitive in [true, false] {
                let still = search_text(Some(title), longer, case_sensitive);
                assert!(!still || search_text(Some(title), shorter, case_sensitive));
            }
        }
    }
    assert!(search_text(Some("Low"), "Lo", true) && !search_text(Some("Lodger"), "Low", true));
}

#[test]
fn no_backup_begins_after_an_album_was_let_go() {
    let mut state = BackupState::new();
    assert!(!state.visible);
    assert_eq!(state.begin(false, true, true, true), None);
    assert!(!state.on_loaded(7, false, true, false));
    assert!(state.visible);
    state.unbind();
    assert_eq!(state.begin(false, true, true, true), None);
    assert_eq!(state.new_last_modified, Some(7));
}

#[test]
fn years_can_be_folded() {
    let mut year = DiscographyYear::new(Some(1977), true);
    assert_eq!(year.year(), Some(1977));
    assert_eq!(year.label(), some("1977"));
    assert!(!year.revealed);
    assert_eq!(year.collapse_icon(), "down-symbolic");
    year.toggle_collapse();
    assert!(year.revealed);
    assert_eq!(year.collapse_icon(), "up-symbolic");
    assert!(DiscographyYear::new(None, false).revealed);
    assert_eq!(DiscographyYear::new(None, false).label(), None);
}

#[test]
fn album_sections_have_headers_and_covers() {
    assert_eq!(album_header(Some("Low")).title, "Low");
    assert!(album_header(Some("Low")).has_album);
    assert_eq!(album_header(None).title, "Untagged");
    assert!(!album_header(None).has_album);
    assert_eq!(collapse_icon(true), "down-symbolic");
    assert_eq!(collapse_icon(false), "up-symbolic");
    assert_eq!(set_narrow(true), Orientation::Vertical);
    assert_eq!(set_narrow(false), Orientation::Horizontal);
    let mut load = CoverLoad { loading: false };
    assert!(!load.load_cover());
    assert!(load.load_cover());
    assert!(load.unload_cover());
    assert!(!load.unload_cover());
}

fn artist_form(begin: &str, end: &str) -> ArtistForm {
    ArtistForm {
        begin: s(begin),
        end: s(end),
        artist_type: Some(1),
        country: s("UK"),
        mbid: s(""),
        bio_desc: s("d"),
        bio_link: s("l"),
        bio_attrib: s("a"),
    }
}

#[test]
fn artist_metadata_is_edited() {
    let meta = ArtistMeta {
        name: s("Bowie"),
        begin_date: Some(day(1947, 1, 8)),
        end_date: Some(day(-5, 12, 31)),
        country: some("UK"),
        ..ArtistMeta::default()
    };
    let form = artist_view_logic::edit_form(&meta);
    assert_eq!(form.begin, "1947-01-08");
    assert_eq!(form.end, "-0005-12-31");
    assert_eq!(form.country, "UK");
    assert_eq!(form.mbid, "");
    let saved = artist_view_logic::metadata_save(Some(meta), form);
    assert_eq!(saved.begin_date, Some(day(1947, 1, 8)));
    assert_eq!(saved.end_date, Some(day(-5, 12, 31)));
    assert_eq!(saved.name, "Bowie");
    assert_eq!(saved.mbid, None);
    let saved = artist_view_logic::metadata_save(None, artist_form("2016-1-10", "2016-02-30"));
    assert_eq!(saved.begin_date, Some(day(2016, 1, 10)));
    assert_eq!(saved.end_date, None);
    assert_eq!(saved.artist_type, Some(1));
    assert_eq!(saved.country, some("UK"));
    let bio = saved.bio.unwrap();
    assert_eq!((bio.content.as_str(), bio.url, bio.attribution.as_str()), ("d", some("l"), "a"));
}

#[test]
fn far_years_survive_the_editor() {
    for date in [day(12345, 6, 7), day(-262143, 1, 1), day(262142, 12, 31), day(0, 2, 29)] {
        let meta = ArtistMeta { begin_date: Some(date), ..ArtistMeta::default() };
        let form = artist_view_logic::edit_form(&meta);
        let saved = artist_view_logic::metadata_save(Some(meta), form);
        assert_eq!(saved.begin_date, Some(date));
    }
}

#[test]
fn dates_are_saved_as_given() {
    let meta = ArtistMeta { name: s("n"), url: some("u"), ..ArtistMeta::default() };
    let saved = artist_view_logic::save_with_dates(
        meta,
        artist_form("", ""),
        Some(day(1, 2, 3)),
        None,
    );
    assert_eq!(saved.begin_date, Some(day(1, 2, 3)));
    assert_eq!(saved.end_date, None);
    assert_eq!((saved.name.as_str(), saved.url), ("n", some("u")));
}

#[test]
fn wrong_dates_are_marked() {
    let check = artist_view_logic::validate_metadata_entries("1947-01-08", "");
    assert!(!check.begin_error && !check.end_error && check.save_sensitive);
    let check = artist_view_logic::validate_metadata_entries("soon", "2000-02-30");
    assert!(check.begin_error && check.end_error && !check.save_sensitive);
    let check = artist_view_logic::form_check(true, false);
    assert!(!check.begin_error && check.end_error && !check.save_sensitive);
}

#[test]
fn artists_show_their_metadata() {
    let meta = ArtistMeta {
        mbid: some("id"),
        begin_date: Some(day(1947, 1, 8)),
        ..ArtistMeta::default()
    };
    let shown = artist_view_logic::meta_display(&meta, "Person", false);
    assert!(shown.years_visible && shown.wiki_line_visible && !shown.flag_visible);
    assert_eq!(shown.years, some("1947 - current"));
    assert_eq!(shown.artist_type, "Person");
    assert!(shown.mbid_row.visible);
    assert_eq!(
        shown.mbid_row.link,
        Some((s("id"), s("https://musicbrainz.org/artist/id")))
    );
    let shown = artist_view_logic::meta_display(&ArtistMeta::default(), "", false);
    assert!(!shown.years_visible && !shown.wiki_line_visible && shown.years.is_none());
    assert_eq!(shown.artist_type, "-");
    assert!(!shown.mbid_row.visible && shown.mbid_row.link.is_none());
    assert!(artist_view_logic::meta_display(&ArtistMeta::default(), "", true).wiki_line_visible);
}

#[test]
fn nameless_artists_have_no_metadata() {
    let plan = artist_view_logic::update_meta_plan;
    assert_eq!(plan(None), artist_view_logic::ArtistMetaPlan::Nothing);
    assert_eq!(plan(Some("")), artist_view_logic::ArtistMetaPlan::Nameless);
    assert_eq!(plan(Some("David Bowie")), artist_view_logic::ArtistMetaPlan::Fetch);
}

#[test]
fn artist_texts_are_put_together() {
    let label = artist_view_logic::years_label;
    assert_eq!(label(&None, &None), None);
    assert_eq!(label(&Some(day(1947, 1, 8)), &None), some("1947 - current"));
    assert_eq!(label(&None, &Some(day(2016, 1, 10))), some("? - 2016"));
    assert_eq!(label(&Some(day(1947, 1, 8)), &Some(day(2016, 1, 10))), some("1947 - 2016"));
    assert_eq!(artist_view_logic::flag_path("GB"), "flags/gb.svg");
    assert!(artist_view_logic::wiki_line_visible(true, false));
    assert!(artist_view_logic::wiki_line_visible(false, true));
    assert!(!artist_view_logic::wiki_line_visible(false, false));
    assert_eq!(artist_view_logic::artist_type_label("Person"), "Person");
    assert_eq!(artist_view_logic::artist_type_label(""), "-");
    assert_eq!(artist_view_logic::artist_uri("id"), "https://musicbrainz.org/artist/id");
    assert_eq!(artist_view_logic::release_count_label(1000), "1000");
    assert_eq!(artist_view_logic::release_count_label(1001), ">1000");
}

#[test]
fn artists_are_queued_whole_where_possible() {
    let choice = artist_view_logic::queue_choice;
    assert_eq!(choice(false, true), ArtistQueueChoice::Nothing);
    assert_eq!(choice(true, true), ArtistQueueChoice::Artist);
    assert_eq!(choice(true, false), ArtistQueueChoice::Songs);
    assert!(artist_view_logic::is_narrow(Some("narrow")));
    assert!(!artist_view_logic::is_narrow(Some("wide")));
    assert!(!artist_view_logic::is_narrow(None));
}

#[test]
fn albums_are_grouped_by_year() {
    let years = vec![Some(1977), None, Some(1979), Some(1977), None, Some(1969)];
    let groups = artist_view_logic::albums_by_year(&years);
    let listed: Vec<(Option<i32>, Vec<usize>)> =
        groups.into_iter().map(|g| (g.year, g.albums)).collect();
    assert_eq!(
        listed,
        vec![
            (Some(1979), vec![2]),
            (Some(1977), vec![0, 3]),
            (Some(1969), vec![5]),
            (None, vec![1, 4]),
        ]
    );
    assert!(artist_view_logic::albums_by_year(&vec![]).is_empty());
}

#[test]
fn genres_are_listed_once() {
    let genres = ["rock", "Art", "rock", "ambient", "Éclectique", "Zydeco"];
    let listed = artist_view_logic::collect_genres(&genres.iter().map(|g| s(g)).collect());
    assert_eq!(listed, vec!["ambient", "Art", "rock", "Zydeco", "Éclectique"]);
    assert!(artist_view_logic::collect_genres(&vec![]).is_empty());
}
