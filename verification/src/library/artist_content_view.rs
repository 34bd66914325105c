//! One artist: songs, discography, genres, and metadata with its editor.
use crate::collections::{
    insert_text, members, new_text_set, new_year_table, set_year_position, text_set, year_position,
    year_table,
};
use crate::common::Date;
use crate::dates::{date_text, format_date, in_chrono_range, parse_date, read_date};
use crate::library::album_content_view::{wiki_shown, wiki_texts, wiki_written, MbidRow};
use crate::library::discography::year_before;
use crate::meta_providers::models::{ArtistMeta, Wiki};
use crate::text::{
    decimal, decimal_string, entry_text, entry_value, is_before, join2, join3, lowercase, opt_view,
    or_placeholder, same, signed_decimal, signed_string, text_before, text_of_entry, text_order_is_total,
    to_lowercase, value_of_entry, views,
};
use rustc_hash::{FxHashMap, FxHashSet};
use vstd::prelude::*;

verus! {

/// The texts of the metadata editor.
#[derive(Debug)]
pub struct ArtistForm {
    pub begin: String,
    pub end: String,
    /// Position in the list of artist types.
    pub artist_type: Option<u32>,
    pub country: String,
    pub mbid: String,
    pub bio_desc: String,
    pub bio_link: String,
    pub bio_attrib: String,
}

/// The date that an entry field shows.
pub open spec fn date_shown(date: Option<Date>) -> Seq<char> {
    match date {
        Some(d) => date_text(d),
        None => Seq::empty(),
    }
}

/// The date in an entry field, if it holds one.
pub open spec fn date_entered(text: Seq<char>) -> Option<Date> {
    if text.len() == 0 {
        None
    } else {
        read_date(text)
    }
}

/// An entry field for a date may be left empty.
pub open spec fn date_acceptable(text: Seq<char>) -> bool {
    text.len() == 0 || read_date(text) is Some
}

fn shown_date(date: &Option<Date>) -> (r: String)
    requires
        date matches Some(d) ==> in_chrono_range(*d),
    ensures
        r@ == date_shown(*date),
{
    match date {
        Some(d) => format_date(d),
        None => String::new(),
    }
}

fn entered_date(text: &str) -> (r: Option<Date>)
    ensures
        r == date_entered(text@),
        r matches Some(date) ==> in_chrono_range(date),
        forall|date: Option<Date>|
            (date matches Some(d) ==> in_chrono_range(d)) && text@ == #[trigger] date_shown(date)
                ==> r == date,
{
    proof {
        assert forall|date: Date| (#[trigger] date_text(date)).len() > 0 by {
            reveal_strlit("-");
        }
    }
    if text.unicode_len() == 0 {
        None
    } else {
        parse_date(text)
    }
}

/// Opens the metadata editor on what is known.
pub fn edit_form(meta: &ArtistMeta) -> (r: ArtistForm)
    requires
        meta.begin_date matches Some(d) ==> in_chrono_range(d),
        meta.end_date matches Some(d) ==> in_chrono_range(d),
    ensures
        r.begin@ == date_shown(meta.begin_date),
        r.end@ == date_shown(meta.end_date),
        r.artist_type == meta.artist_type,
        r.country@ == entry_text(opt_view(meta.country)),
        r.mbid@ == entry_text(opt_view(meta.mbid)),
        r.bio_desc@ == wiki_shown(meta.bio).content,
        r.bio_link@ == entry_text(wiki_shown(meta.bio).url),
        r.bio_attrib@ == wiki_shown(meta.bio).attribution,
{
    let texts: (String, String, String) = wiki_texts(&meta.bio);
    ArtistForm {
        begin: shown_date(&meta.begin_date),
        end: shown_date(&meta.end_date),
        artist_type: meta.artist_type,
        country: text_of_entry(&meta.country),
        mbid: text_of_entry(&meta.mbid),
        bio_desc: texts.0,
        bio_link: texts.1,
        bio_attrib: texts.2,
    }
}

/// Which fields of the editor are marked as wrong, and whether it can be saved.
#[derive(Clone, Copy, Debug, PartialEq, Eq, Structural)]
pub struct FormCheck {
    pub begin_error: bool,
    pub end_error: bool,
    pub save_sensitive: bool,
}

/// The marks for two fields of which it is known whether they are acceptable.
pub fn form_check(begin_valid: bool, end_valid: bool) -> (r: FormCheck)
    ensures
        r.begin_error == !begin_valid,
        r.end_error == !end_valid,
        r.save_sensitive == (begin_valid && end_valid),
{
    FormCheck {
        begin_error: !begin_valid,
        end_error: !end_valid,
        save_sensitive: begin_valid && end_valid,
    }
}

/// Checks the two dates of the editor.
pub fn validate_metadata_entries(begin: &str, end: &str) -> (r: FormCheck)
    ensures
        r.begin_error == !date_acceptable(begin@),
        r.end_error == !date_acceptable(end@),
        r.save_sensitive == (date_acceptable(begin@) && date_acceptable(end@)),
{
    let begin_valid: bool = begin.unicode_len() == 0 || parse_date(begin).is_some();
    let end_valid: bool = end.unicode_len() == 0 || parse_date(end).is_some();
    form_check(begin_valid, end_valid)
}

/// Saves the metadata editor, given the dates in it. What the editor does not
/// show stays as it was.
pub fn save_with_dates(
    meta: ArtistMeta,
    form: ArtistForm,
    begin_date: Option<Date>,
    end_date: Option<Date>,
) -> (r: ArtistMeta)
    ensures
        r.begin_date == begin_date,
        r.end_date == end_date,
        r.artist_type == form.artist_type,
        opt_view(r.mbid) == entry_value(form.mbid@),
        opt_view(r.country) == entry_value(form.country@),
        r.bio is Some,
        r.bio->0@ == wiki_written(form.bio_desc@, form.bio_link@, form.bio_attrib@),
        r.name == meta.name,
        r.tags == meta.tags,
        r.image == meta.image,
        r.url == meta.url,
{
    let mut new_meta: ArtistMeta = meta;
    new_meta.begin_date = begin_date;
    new_meta.end_date = end_date;
    new_meta.artist_type = form.artist_type;
    new_meta.mbid = value_of_entry(form.mbid);
    new_meta.country = value_of_entry(form.country);
    new_meta.bio = Some(
        Wiki {
            content: form.bio_desc,
            url: value_of_entry(form.bio_link),
            attribution: form.bio_attrib,
        },
    );
    new_meta
}

/// Saves the metadata editor. A date that cannot be read is dropped; one that
/// the editor itself wrote is kept.
pub fn metadata_save(meta: Option<ArtistMeta>, form: ArtistForm) -> (r: ArtistMeta)
    ensures
        r.begin_date == date_entered(form.begin@),
        r.end_date == date_entered(form.end@),
        forall|date: Option<Date>|
            (date matches Some(d) ==> in_chrono_range(d)) && form.begin@ == #[trigger] date_shown(
                date,
            ) ==> r.begin_date == date,
        forall|date: Option<Date>|
            (date matches Some(d) ==> in_chrono_range(d)) && form.end@ == #[trigger] date_shown(
                date,
            ) ==> r.end_date == date,
        r.artist_type == form.artist_type,
        opt_view(r.mbid) == entry_value(form.mbid@),
        opt_view(r.country) == entry_value(form.country@),
        r.bio is Some,
        r.bio->0@ == wiki_written(form.bio_desc@, form.bio_link@, form.bio_attrib@),
        match meta {
            Some(m) => r.name == m.name && r.tags == m.tags && r.image == m.image && r.url == m.url,
            None => r.name@.len() == 0 && r.tags@.len() == 0 && r.image@.len() == 0 && r.url
                is None,
        },
{
    let base: ArtistMeta = match meta {
        Some(m) => m,
        None => ArtistMeta::default(),
    };
    let begin_date: Option<Date> = entered_date(form.begin.as_str());
    let end_date: Option<Date> = entered_date(form.end.as_str());
    save_with_dates(base, form, begin_date, end_date)
}

/// When an artist was active, in words.
pub open spec fn years_text(begin: Option<Date>, end: Option<Date>) -> Seq<char> {
    (match begin {
        Some(d) => signed_decimal(d.year as int),
        None => "?"@,
    }) + (match end {
        Some(d) => " - "@ + signed_decimal(d.year as int),
        None => " - current"@,
    })
}

/// The text on when an artist was active; `None` if nothing is known of it.
pub fn years_label(begin: &Option<Date>, end: &Option<Date>) -> (r: Option<String>)
    ensures
        opt_view(r) == (if begin is Some || end is Some {
            Some(years_text(*begin, *end))
        } else {
            None
        }),
{
    if begin.is_none() && end.is_none() {
        return None;
    }
    let first: String = match begin {
        Some(d) => signed_string(d.year as i64),
        None => "?".to_owned(),
    };
    let second: String = match end {
        Some(d) => join2(" - ", signed_string(d.year as i64).as_str()),
        None => " - current".to_owned(),
    };
    Some(join2(first.as_str(), second.as_str()))
}

/// The file with the flag of a country.
pub fn flag_path(country: &str) -> (r: String)
    ensures
        r@ == "flags/"@ + lowercase(country@) + ".svg"@,
{
    join3("flags/", to_lowercase(country).as_str(), ".svg")
}

/// Whether the line with years and flag is there: one of them has to be.
pub fn wiki_line_visible(has_years: bool, has_flag: bool) -> (r: bool)
    ensures
        r == (has_years || has_flag),
{
    has_years || has_flag
}

/// The text on the type of an artist.
pub fn artist_type_label(artist_type: &str) -> (r: String)
    ensures
        r@ == (if artist_type@.len() > 0 {
            artist_type@
        } else {
            "-"@
        }),
{
    crate::text::shown_text(Some(artist_type), "-")
}

/// Where MusicBrainz has an artist.
pub fn artist_uri(mbid: &str) -> (r: String)
    ensures
        r@ == "https://musicbrainz.org/artist/"@ + mbid@,
{
    join2("https://musicbrainz.org/artist/", mbid)
}

/// The row with the ID of an artist.
pub fn artist_row(mbid: &Option<String>) -> (r: MbidRow)
    ensures
        r.shows(opt_view(*mbid), "https://musicbrainz.org/artist/"@),
{
    match mbid {
        Some(id) => MbidRow { visible: true, link: Some((id.clone(), artist_uri(id.as_str()))) },
        None => MbidRow { visible: false, link: None },
    }
}

/// What is to happen about the metadata of an artist.
#[derive(Clone, Copy, Debug, PartialEq, Eq, Structural)]
pub enum ArtistMetaPlan {
    /// No artist is bound.
    Nothing,
    /// The artist stands for songs without an artist tag: there is nothing to look
    /// up.
    Nameless,
    Fetch,
}

/// What is to happen about the metadata of the artist with this name.
pub fn update_meta_plan(name: Option<&str>) -> (r: ArtistMetaPlan)
    ensures
        r == (match name {
            None => ArtistMetaPlan::Nothing,
            Some(n) => if n@.len() == 0 {
                ArtistMetaPlan::Nameless
            } else {
                ArtistMetaPlan::Fetch
            },
        }),
{
    match name {
        None => ArtistMetaPlan::Nothing,
        Some(n) => if n.unicode_len() == 0 {
            ArtistMetaPlan::Nameless
        } else {
            ArtistMetaPlan::Fetch
        },
    }
}

/// How the metadata of an artist is shown, but for the article and the tags.
#[derive(Debug)]
pub struct ArtistDisplay {
    pub years_visible: bool,
    /// The text on when the artist was active, if that is shown.
    pub years: Option<String>,
    pub flag_visible: bool,
    /// Whether the line with years and flag is there.
    pub wiki_line_visible: bool,
    pub artist_type: String,
    pub mbid_row: MbidRow,
}

/// How the metadata of an artist is shown. `artist_type` is the type in words, and
/// `has_flag` says whether there is a flag for the country.
pub fn meta_display(meta: &ArtistMeta, artist_type: &str, has_flag: bool) -> (r: ArtistDisplay)
    ensures
        r.years_visible == (meta.begin_date is Some || meta.end_date is Some),
        opt_view(r.years) == (if r.years_visible {
            Some(years_text(meta.begin_date, meta.end_date))
        } else {
            None
        }),
        r.flag_visible == has_flag,
        r.wiki_line_visible == (r.years_visible || has_flag),
        r.artist_type@ == or_placeholder(Some(artist_type@), "-"@),
        r.artist_type@.len() > 0,
        r.mbid_row.visible == (meta.mbid is Some),
        r.mbid_row.shows(opt_view(meta.mbid), "https://musicbrainz.org/artist/"@),
{
    proof {
        reveal_strlit("-");
    }
    let years: Option<String> = years_label(&meta.begin_date, &meta.end_date);
    let years_visible: bool = years.is_some();
    ArtistDisplay {
        years_visible,
        years,
        flag_visible: has_flag,
        wiki_line_visible: wiki_line_visible(years_visible, has_flag),
        artist_type: artist_type_label(artist_type),
        mbid_row: artist_row(&meta.mbid),
    }
}

/// Whether news about the avatar of an artist concerns the one on display.
pub fn concerns_artist(name: Option<&str>, changed: &str) -> (r: bool)
    ensures
        r == (name is Some && name->0@ == changed@),
{
    match name {
        Some(current) => same(current, changed),
        None => false,
    }
}

/// Whether the discography is laid out for narrow windows.
pub fn is_narrow(layout: Option<&str>) -> (r: bool)
    ensures
        r == (layout is Some && layout->0@ == "narrow"@),
{
    match layout {
        Some(name) => same(name, "narrow"),
        None => false,
    }
}

/// What a queue button asks of the library.
#[derive(Clone, Copy, Debug, PartialEq, Eq, Structural)]
pub enum ArtistQueueChoice {
    /// No artist is bound.
    Nothing,
    /// Queue all songs by the artist in one request.
    Artist,
    /// Queue the selected songs.
    Songs,
}

/// How to queue a selection.
pub fn queue_choice(has_artist: bool, selecting_all: bool) -> (r: ArtistQueueChoice)
    ensures
        r == (if !has_artist {
            ArtistQueueChoice::Nothing
        } else if selecting_all {
            ArtistQueueChoice::Artist
        } else {
            ArtistQueueChoice::Songs
        }),
{
    if !has_artist {
        ArtistQueueChoice::Nothing
    } else if selecting_all {
        ArtistQueueChoice::Artist
    } else {
        ArtistQueueChoice::Songs
    }
}

/// The text on the number of releases.
pub fn release_count_label(count: usize) -> (r: String)
    ensures
        r@ == (if count > 1000 {
            ">1000"@
        } else {
            decimal(count as nat)
        }),
{
    if count > 1000 {
        ">1000".to_owned()
    } else {
        decimal_string(count as u64)
    }
}

/// The albums of one year, by their positions.
#[derive(Debug)]
pub struct AlbumYear {
    pub year: Option<i32>,
    pub albums: Vec<usize>,
}

/// The positions of a year among the first `n`, ascending.
pub open spec fn positions_of(years: Seq<Option<i32>>, year: Option<i32>, n: int) -> Seq<usize>
    decreases n,
{
    if n <= 0 {
        Seq::empty()
    } else if years[n - 1] == year {
        positions_of(years, year, n - 1).push((n - 1) as usize)
    } else {
        positions_of(years, year, n - 1)
    }
}

/// There is a group for that year.
pub open spec fn has_year(groups: Seq<AlbumYear>, year: Option<i32>) -> bool {
    exists|g: int| 0 <= g < groups.len() && (#[trigger] groups[g]).year == year
}

/// Each group holds the positions of its year among the first `n`.
pub open spec fn groups_hold(groups: Seq<AlbumYear>, years: Seq<Option<i32>>, n: int) -> bool {
    forall|g: int|
        0 <= g < groups.len() ==> {
            &&& (#[trigger] groups[g]).albums@ == positions_of(years, groups[g].year, n)
            &&& groups[g].albums@.len() > 0
        }
}

/// The groups run down the years, those without a year last.
pub open spec fn years_ordered(groups: Seq<AlbumYear>) -> bool {
    forall|g: int, h: int|
        0 <= g < h < groups.len() ==> year_before((#[trigger] groups[g]).year, (
        #[trigger] groups[h]).year)
}

spec fn slots(table: Map<Option<i32>, usize>, groups: Seq<AlbumYear>) -> bool {
    &&& forall|g: int|
        0 <= g < groups.len() ==> table.dom().contains((#[trigger] groups[g]).year)
            && table[groups[g].year] == g
    &&& forall|year: Option<i32>| #[trigger]
        table.dom().contains(year) ==> table[year] < groups.len() && groups[table[year] as int].year
            == year
}

fn unordered_groups(years: &Vec<Option<i32>>) -> (r: Vec<AlbumYear>)
    ensures
        groups_hold(r@, years@, years@.len() as int),
        forall|i: int| 0 <= i < years.len() ==> has_year(r@, #[trigger] years@[i]),
        forall|g: int, h: int|
            0 <= g < h < r.len() ==> (#[trigger] r@[g]).year != (#[trigger] r@[h]).year,
{
    let mut table: FxHashMap<Option<i32>, usize> = new_year_table();
    let mut groups: Vec<AlbumYear> = Vec::new();
    for i in 0..years.len()
        invariant
            slots(year_table(table), groups@),
            groups_hold(groups@, years@, i as int),
            forall|j: int| 0 <= j < i ==> has_year(groups@, #[trigger] years@[j]),
    {
        let ghost before = groups@;
        let year: Option<i32> = years[i];
        match year_position(&table, year) {
            Some(slot) => {
                let ghost albums = before[slot as int].albums@;
                groups[slot].albums.push(i);
                assert(groups@[slot as int].year == year);
                assert(groups@[slot as int].albums@ == albums.push(i));
                assert forall|g: int| 0 <= g < groups.len() implies (#[trigger] groups@[g]).year
                    == before[g].year && (g != slot ==> groups@[g] == before[g]) by {}
                assert(slots(year_table(table), groups@));
            },
            None => {
                let mut albums: Vec<usize> = Vec::new();
                albums.push(i);
                proof {
                    no_group_no_positions(before, years@, year, i as int);
                    assert(albums@ =~= positions_of(years@, year, i + 1));
                }
                set_year_position(&mut table, year, groups.len());
                groups.push(AlbumYear { year, albums });
                assert(groups@.last().year == year);
                assert(forall|g: int| 0 <= g < before.len() ==> #[trigger] groups@[g] == before[g]);
                assert(slots(year_table(table), groups@));
            },
        }
        assert forall|g: int| 0 <= g < groups.len() implies {
            &&& (#[trigger] groups@[g]).albums@ == positions_of(years@, groups@[g].year, i + 1)
            &&& groups@[g].albums@.len() > 0
        } by {
            if g < before.len() {
                assert(before[g].year == groups@[g].year);
            }
        }
        assert forall|j: int| 0 <= j < i + 1 implies has_year(groups@, #[trigger] years@[j]) by {
            if j < i {
                let g = choose|g: int| 0 <= g < before.len() && (#[trigger] before[g]).year
                    == years@[j];
                assert(groups@[g].year == years@[j]);
            } else {
                assert(year_table(table).dom().contains(year));
                assert(groups@[year_table(table)[year] as int].year == year);
            }
        }
    }
    groups
}

proof fn no_group_no_positions(
    groups: Seq<AlbumYear>,
    years: Seq<Option<i32>>,
    year: Option<i32>,
    n: int,
)
    requires
        0 <= n <= years.len(),
        !has_year(groups, year),
        forall|j: int| 0 <= j < n ==> has_year(groups, #[trigger] years[j]),
    ensures
        positions_of(years, year, n) == Seq::<usize>::empty(),
    decreases n,
{
    if n > 0 {
        assert(has_year(groups, years[n - 1]));
        no_group_no_positions(groups, years, year, n - 1);
    }
}

fn comes_before(a: Option<i32>, b: Option<i32>) -> (r: bool)
    ensures
        r == year_before(a, b),
{
    match (a, b) {
        (Some(x), Some(y)) => x > y,
        (Some(_), None) => true,
        _ => false,
    }
}

/// The albums of an artist by release year, the latest year first, given the
/// release year of each.
pub fn albums_by_year(years: &Vec<Option<i32>>) -> (r: Vec<AlbumYear>)
    ensures
        groups_hold(r@, years@, years@.len() as int),
        forall|i: int| 0 <= i < years.len() ==> has_year(r@, #[trigger] years@[i]),
        years_ordered(r@),
{
    let mut groups: Vec<AlbumYear> = unordered_groups(years);
    let mut sorted: Vec<AlbumYear> = Vec::new();
    while groups.len() > 0
        invariant
            groups_hold(groups@, years@, years@.len() as int),
            groups_hold(sorted@, years@, years@.len() as int),
            forall|i: int|
                0 <= i < years.len() ==> has_year(groups@, #[trigger] years@[i]) || has_year(
                    sorted@,
                    years@[i],
                ),
            forall|g: int, h: int|
                0 <= g < h < groups.len() ==> (#[trigger] groups@[g]).year != (
                #[trigger] groups@[h]).year,
            forall|g: int, h: int|
                0 <= g < groups.len() && 0 <= h < sorted.len() ==> (#[trigger] groups@[g]).year != (
                #[trigger] sorted@[h]).year,
            years_ordered(sorted@),
        decreases groups.len(),
    {
        let ghost waiting = groups@;
        let ghost placed = sorted@;
        let next: AlbumYear = match groups.pop() {
            Some(group) => group,
            None => {
                return sorted;
            },
        };
        let ghost group = next;
        assert(group == waiting.last());
        assert(groups@ =~= waiting.drop_last());
        let mut at: usize = 0;
        while at < sorted.len() && comes_before(sorted[at].year, next.year)
            invariant
                at <= sorted.len(),
                sorted@ == placed,
                next == group,
                forall|g: int| 0 <= g < at ==> year_before((#[trigger] placed[g]).year, group.year),
            decreases sorted.len() - at,
        {
            at = at + 1;
        }
        assert(forall|h: int|
            0 <= h < placed.len() ==> group.year != (#[trigger] placed[h]).year) by {
            assert(waiting[waiting.len() - 1].year == group.year);
        }
        assert(forall|g: int|
            at <= g < placed.len() ==> year_before(group.year, (#[trigger] placed[g]).year));
        sorted.insert(at, next);
        proof {
            assert(sorted@ =~= placed.insert(at as int, group));
            assert forall|g: int| 0 <= g < sorted.len() implies (#[trigger] sorted@[g]) == (if g
                < at {
                placed[g]
            } else if g == at {
                group
            } else {
                placed[g - 1]
            }) by {}
            assert forall|i: int| 0 <= i < years.len() implies has_year(
                groups@,
                #[trigger] years@[i],
            ) || has_year(sorted@, years@[i]) by {
                if has_year(waiting, years@[i]) {
                    let g = choose|g: int| 0 <= g < waiting.len() && (#[trigger] waiting[g]).year
                        == years@[i];
                    if g < groups.len() {
                        assert(groups@[g] == waiting[g]);
                    } else {
                        assert(sorted@[at as int].year == years@[i]);
                    }
                } else {
                    let h = choose|h: int| 0 <= h < placed.len() && (#[trigger] placed[h]).year
                        == years@[i];
                    if h < at {
                        assert(sorted@[h] == placed[h]);
                    } else {
                        assert(sorted@[h + 1] == placed[h]);
                    }
                }
            }
            assert forall|g: int, h: int|
                0 <= g < groups.len() && 0 <= h < sorted.len() implies (#[trigger] groups@[g]).year
                != (#[trigger] sorted@[h]).year by {
                assert(groups@[g] == waiting[g]);
                if h < at {
                    assert(sorted@[h] == placed[h]);
                } else if h == at {
                    assert(waiting[g].year != waiting[waiting.len() - 1].year);
                } else {
                    assert(sorted@[h] == placed[h - 1]);
                }
            }
        }
    }
    sorted
}

/// The names are sorted without regard to case.
pub open spec fn case_ordered(names: Seq<Seq<char>>) -> bool {
    forall|i: int, j: int|
        0 <= i < j < names.len() ==> !text_before(
            lowercase(#[trigger] names[j]),
            lowercase(#[trigger] names[i]),
        )
}

/// The genres of an artist's albums: each one once, sorted without regard to
/// case.
pub fn collect_genres(genres: &Vec<String>) -> (r: Vec<String>)
    ensures
        views(r@).no_duplicates(),
        views(r@).to_set() == views(genres@).to_set(),
        case_ordered(views(r@)),
{
    let mut seen: FxHashSet<String> = new_text_set();
    for i in 0..genres.len()
        invariant
            text_set(seen) == views(genres@).take(i as int).to_set(),
    {
        insert_text(&mut seen, genres[i].clone());
        proof {
            let now = views(genres@).take(i + 1);
            let before = views(genres@).take(i as int);
            assert(now =~= before.push(genres@[i as int]@));
            assert(now.to_set() =~= before.to_set().insert(genres@[i as int]@)) by {
                assert forall|x: Seq<char>| now.to_set().contains(x) == before.to_set().insert(
                    genres@[i as int]@,
                ).contains(x) by {
                    if now.to_set().contains(x) {
                        let k = choose|k: int| 0 <= k < now.len() && now[k] == x;
                        if k < before.len() {
                            assert(before[k] == x);
                        }
                    }
                    if before.to_set().contains(x) {
                        let k = choose|k: int| 0 <= k < before.len() && before[k] == x;
                        assert(now[k] == x);
                    }
                    assert(now[i as int] == genres@[i as int]@);
                }
            }
        }
    }
    assert(views(genres@).take(genres.len() as int) =~= views(genres@));
    let listed: Vec<String> = members(&seen);
    sort_by_case(listed)
}

proof fn insert_keeps_members(list: Seq<Seq<char>>, at: int, x: Seq<char>)
    requires
        0 <= at <= list.len(),
        list.no_duplicates(),
        !list.contains(x),
    ensures
        list.insert(at, x).no_duplicates(),
        list.insert(at, x).to_set() =~= list.to_set().insert(x),
{
    let new = list.insert(at, x);
    assert forall|y: Seq<char>| new.to_set().contains(y) == list.to_set().insert(x).contains(y) by {
        if new.contains(y) {
            let k = choose|k: int| 0 <= k < new.len() && new[k] == y;
            if k < at {
                assert(list[k] == y);
            } else if k > at {
                assert(list[k - 1] == y);
            }
        }
        if list.contains(y) {
            let k = choose|k: int| 0 <= k < list.len() && list[k] == y;
            if k < at {
                assert(new[k] == y);
            } else {
                assert(new[k + 1] == y);
            }
        }
        assert(new[at] == x);
    }
    assert forall|i: int, j: int| 0 <= i < new.len() && 0 <= j < new.len() && i != j implies new[i]
        != new[j] by {
        let a = if i < at {
            i
        } else {
            i - 1
        };
        let b = if j < at {
            j
        } else {
            j - 1
        };
        if i == at {
            assert(list[b] == new[j]);
        } else if j == at {
            assert(list[a] == new[i]);
        } else {
            assert(list[a] == new[i] && list[b] == new[j]);
        }
    }
}

fn sort_by_case(names: Vec<String>) -> (r: Vec<String>)
    requires
        views(names@).no_duplicates(),
    ensures
        views(r@).no_duplicates(),
        views(r@).to_set() == views(names@).to_set(),
        case_ordered(views(r@)),
{
    let ghost all = views(names@);
    let mut out: Vec<String> = Vec::new();
    let mut keys: Vec<String> = Vec::new();
    assert(views(out@).to_set() =~= all.take(0).to_set());
    for i in 0..names.len()
        invariant
            all == views(names@),
            all.no_duplicates(),
            keys.len() == out.len(),
            forall|k: int| 0 <= k < out.len() ==> (#[trigger] keys@[k])@ == lowercase(out@[k]@),
            views(out@).no_duplicates(),
            views(out@).to_set() == all.take(i as int).to_set(),
            case_ordered(views(out@)),
    {
        let ghost before = views(out@);
        let name: String = names[i].clone();
        let key: String = to_lowercase(name.as_str());
        let mut at: usize = out.len();
        while at > 0 && is_before(key.as_str(), keys[at - 1].as_str())
            invariant
                at <= out.len(),
                keys.len() == out.len(),
                key@ == lowercase(name@),
                forall|k: int| at <= k < keys.len() ==> text_before(key@, (#[trigger] keys@[k])@),
            decreases at,
        {
            at = at - 1;
        }
        proof {
            assert forall|k: int| 0 <= k < at implies !text_before(key@, (#[trigger] keys@[k])@) by {
                if k < at - 1 {
                    assert(!text_before(lowercase(before[at - 1]), lowercase(before[k])));
                    text_order_is_total(key@, keys@[k]@, keys@[at - 1]@);
                    text_order_is_total(keys@[k]@, keys@[at - 1]@, key@);
                    text_order_is_total(key@, keys@[at - 1]@, keys@[k]@);
                }
            }
            assert forall|k: int| at <= k < keys.len() implies !text_before(
                (#[trigger] keys@[k])@,
                key@,
            ) by {
                text_order_is_total(key@, keys@[k]@, key@);
            }
        }
        let ghost old_keys = keys@;
        let ghost old_out = out@;
        keys.insert(at, key);
        out.insert(at, name);
        proof {
            let now = all.take(i + 1);
            assert(now =~= all.take(i as int).push(all[i as int]));
            assert(!before.contains(all[i as int])) by {
                if before.contains(all[i as int]) {
                    assert(before.to_set().contains(all[i as int]));
                    assert(all.take(i as int).to_set().contains(all[i as int]));
                    let k = choose|k: int|
                        0 <= k < all.take(i as int).len() && all.take(i as int)[k] == all[i as int];
                    assert(all[k] == all[i as int]);
                }
            }
            assert(views(out@) =~= before.insert(at as int, all[i as int]));
            insert_keeps_members(before, at as int, all[i as int]);
            assert(!all.take(i as int).contains(all[i as int])) by {
                if all.take(i as int).contains(all[i as int]) {
                    let k = choose|k: int|
                        0 <= k < all.take(i as int).len() && all.take(i as int)[k] == all[i as int];
                    assert(all[k] == all[i as int]);
                }
            }
            insert_keeps_members(all.take(i as int), i as int, all[i as int]);
            assert(all.take(i as int).insert(i as int, all[i as int]) =~= now);
            assert forall|k: int| 0 <= k < out.len() implies (#[trigger] keys@[k])@ == lowercase(
                out@[k]@,
            ) by {
                if k < at {
                    assert(keys@[k] == old_keys[k]);
                    assert(out@[k] == old_out[k]);
                } else if k > at {
                    assert(keys@[k] == old_keys[k - 1]);
                    assert(out@[k] == old_out[k - 1]);
                }
            }
            assert forall|a: int, b: int| 0 <= a < b < views(out@).len() implies !text_before(
                lowercase(#[trigger] views(out@)[b]),
                lowercase(#[trigger] views(out@)[a]),
            ) by {
                let w = views(out@);
                if b < at {
                    assert(w[b] == before[b] && w[a] == before[a]);
                } else if b == at {
                    assert(w[a] == before[a]);
                    assert(old_keys[a]@ == lowercase(before[a]));
                } else if a < at {
                    assert(w[b] == before[b - 1] && w[a] == before[a]);
                } else if a == at {
                    assert(w[b] == before[b - 1]);
                    assert(old_keys[b - 1]@ == lowercase(before[b - 1]));
                } else {
                    assert(w[b] == before[b - 1] && w[a] == before[a - 1]);
                }
            }
        }
    }
    assert(all.take(names.len() as int) =~= all);
    out
}

/// The editor opens on what is known, field by field; a date is shown as year,
/// month and day.
pub proof fn the_artist_editor_shows_what_is_known(meta: &ArtistMeta, form: ArtistForm)
    requires
        call_ensures(edit_form, (meta,), form),
    ensures
        form.artist_type == meta.artist_type,
        meta.country matches Some(country) ==> form.country@ == country@,
        meta.country is None ==> form.country@.len() == 0,
        meta.mbid matches Some(id) ==> form.mbid@ == id@,
        meta.mbid is None ==> form.mbid@.len() == 0,
        meta.begin_date is None ==> form.begin@.len() == 0,
        meta.end_date is None ==> form.end@.len() == 0,
        meta.begin_date matches Some(d) ==> crate::dates::is_day(d) && 0 <= d.year <= 9999 ==> {
            &&& form.begin@.len() == 10
            &&& 1000 * (form.begin@[0] as int - 0x30) + 100 * (form.begin@[1] as int - 0x30) + 10
                * (form.begin@[2] as int - 0x30) + (form.begin@[3] as int - 0x30) == d.year
            &&& 10 * (form.begin@[5] as int - 0x30) + (form.begin@[6] as int - 0x30) == d.month
            &&& 10 * (form.begin@[8] as int - 0x30) + (form.begin@[9] as int - 0x30) == d.day
        },
        meta.end_date matches Some(d) ==> crate::dates::is_day(d) && 0 <= d.year <= 9999 ==> {
            &&& form.end@.len() == 10
            &&& 1000 * (form.end@[0] as int - 0x30) + 100 * (form.end@[1] as int - 0x30) + 10 * (
            form.end@[2] as int - 0x30) + (form.end@[3] as int - 0x30) == d.year
            &&& 10 * (form.end@[5] as int - 0x30) + (form.end@[6] as int - 0x30) == d.month
            &&& 10 * (form.end@[8] as int - 0x30) + (form.end@[9] as int - 0x30) == d.day
        },
        meta.bio matches Some(bio) ==> form.bio_desc@ == bio.content@ && form.bio_attrib@
            == bio.attribution@ && (bio.url matches Some(url) ==> form.bio_link@ == url@) && (
        bio.url is None ==> form.bio_link@.len() == 0),
        meta.bio is None ==> form.bio_desc@.len() == 0 && form.bio_link@.len() == 0
            && form.bio_attrib@.len() == 0,
{
    if let Some(d) = meta.begin_date {
        if crate::dates::is_day(d) && 0 <= d.year <= 9999 {
            crate::dates::dates_read_as_numbers(d);
        }
    }
    if let Some(d) = meta.end_date {
        if crate::dates::is_day(d) && 0 <= d.year <= 9999 {
            crate::dates::dates_read_as_numbers(d);
        }
    }
    if let Some(bio) = meta.bio {
        assert(bio@.content == bio.content@);
        assert(bio@.attribution == bio.attribution@);
        assert(bio@.url == opt_view(bio.url));
    }
}

/// Saving what the editor opened with keeps everything, the dates too; only empty
/// texts, which the editor cannot tell from missing ones, may go.
pub proof fn an_untouched_artist_editor_keeps_everything(
    meta: ArtistMeta,
    form: ArtistForm,
    saved: ArtistMeta,
)
    requires
        meta.begin_date matches Some(d) ==> in_chrono_range(d),
        meta.end_date matches Some(d) ==> in_chrono_range(d),
        meta.country matches Some(country) ==> country@.len() > 0,
        meta.mbid matches Some(id) ==> id@.len() > 0,
        meta.bio matches Some(bio) ==> bio.url matches Some(url) ==> url@.len() > 0,
        call_ensures(edit_form, (&meta,), form),
        call_ensures(metadata_save, (Some(meta), form), saved),
    ensures
        saved.begin_date == meta.begin_date,
        saved.end_date == meta.end_date,
        saved.artist_type == meta.artist_type,
        opt_view(saved.country) == opt_view(meta.country),
        opt_view(saved.mbid) == opt_view(meta.mbid),
        saved.name == meta.name,
        saved.tags == meta.tags,
        saved.image == meta.image,
        saved.url == meta.url,
        saved.bio is Some,
        meta.bio matches Some(bio) ==> saved.bio->0.content@ == bio.content@
            && saved.bio->0.attribution@ == bio.attribution@ && opt_view(saved.bio->0.url)
            == opt_view(bio.url),
{
    assert(saved.bio->0@.content == saved.bio->0.content@);
    assert(saved.bio->0@.attribution == saved.bio->0.attribution@);
    assert(saved.bio->0@.url == opt_view(saved.bio->0.url));
    if let Some(bio) = meta.bio {
        assert(bio@.content == bio.content@);
        assert(bio@.attribution == bio.attribution@);
        assert(bio@.url == opt_view(bio.url));
    }
}

/// What is typed into the editor is what is saved, field by field; a field that was
/// emptied is saved as none.
pub proof fn what_is_typed_of_an_artist_is_saved(
    meta: Option<ArtistMeta>,
    form: ArtistForm,
    saved: ArtistMeta,
)
    requires
        call_ensures(metadata_save, (meta, form), saved),
    ensures
        form.begin@.len() == 0 ==> saved.begin_date is None,
        form.end@.len() == 0 ==> saved.end_date is None,
        form.begin@.len() > 0 ==> saved.begin_date == read_date(form.begin@),
        form.end@.len() > 0 ==> saved.end_date == read_date(form.end@),
        saved.artist_type == form.artist_type,
        form.country@.len() > 0 ==> saved.country is Some && saved.country->0@ == form.country@,
        form.country@.len() == 0 ==> saved.country is None,
        form.mbid@.len() > 0 ==> saved.mbid is Some && saved.mbid->0@ == form.mbid@,
        form.mbid@.len() == 0 ==> saved.mbid is None,
        saved.bio matches Some(bio) && bio.content@ == form.bio_desc@ && bio.attribution@
            == form.bio_attrib@ && (form.bio_link@.len() > 0 ==> bio.url is Some && bio.url->0@
            == form.bio_link@) && (form.bio_link@.len() == 0 ==> bio.url is None),
        meta matches Some(m) ==> saved.name == m.name && saved.tags == m.tags && saved.image
            == m.image && saved.url == m.url,
{
    if let Some(bio) = saved.bio {
        assert(bio@.content == bio.content@);
        assert(bio@.attribution == bio.attribution@);
        assert(bio@.url == opt_view(bio.url));
    }
}

/// The dates that are saved with a form are those that were read from it.
pub proof fn dates_are_saved_as_read(
    meta: ArtistMeta,
    form: ArtistForm,
    begin: Option<Date>,
    end: Option<Date>,
    saved: ArtistMeta,
)
    requires
        call_ensures(save_with_dates, (meta, form, begin, end), saved),
    ensures
        saved.begin_date == begin,
        saved.end_date == end,
        saved.name == meta.name,
        saved.artist_type == form.artist_type,
{
}

/// The editor can be saved exactly if each date is empty or can be read, and each
/// field that cannot is marked.
pub proof fn unreadable_dates_are_marked(
    begin: &str,
    end: &str,
    check: FormCheck,
    begin_valid: bool,
    end_valid: bool,
    marks: FormCheck,
)
    requires
        call_ensures(validate_metadata_entries, (begin, end), check),
        call_ensures(form_check, (begin_valid, end_valid), marks),
    ensures
        check.begin_error <==> begin@.len() > 0 && read_date(begin@) is None,
        check.end_error <==> end@.len() > 0 && read_date(end@) is None,
        check.save_sensitive <==> !check.begin_error && !check.end_error,
        marks.begin_error == !begin_valid,
        marks.end_error == !end_valid,
        marks.save_sensitive <==> begin_valid && end_valid,
{
}

/// When an artist was active is told by years, with a question mark for a beginning
/// that is not known, and as going on without an end; nothing is told if nothing is
/// known.
pub proof fn active_years_are_told(
    begin: Option<Date>,
    end: Option<Date>,
    label: Option<String>,
    first: String,
    last: String,
)
    requires
        call_ensures(years_label, (&begin, &end), label),
        begin matches Some(d) ==> call_ensures(signed_string, (d.year as i64,), first),
        end matches Some(d) ==> call_ensures(signed_string, (d.year as i64,), last),
    ensures
        label is None <==> begin is None && end is None,
        begin is Some && end is Some ==> label->0@ == first@ + (" - "@ + last@),
        begin is Some && end is None ==> label->0@ == first@ + " - current"@,
        begin is None && end is Some ==> label->0@ == "?"@ + (" - "@ + last@),
{
}

/// Of an artist is shown what is known: the years if one of them is, the flag if
/// there is one, a line for both if there is either, the type or a dash, and the
/// ID with a link to the artist.
pub proof fn artists_show_what_is_known(
    meta: &ArtistMeta,
    artist_type: &str,
    has_flag: bool,
    display: ArtistDisplay,
    years: Option<String>,
    line: bool,
    type_label: String,
)
    requires
        call_ensures(meta_display, (meta, artist_type, has_flag), display),
        call_ensures(years_label, (&meta.begin_date, &meta.end_date), years),
        call_ensures(wiki_line_visible, (display.years_visible, has_flag), line),
        call_ensures(artist_type_label, (artist_type,), type_label),
    ensures
        display.years_visible <==> meta.begin_date is Some || meta.end_date is Some,
        opt_view(display.years) == opt_view(years),
        display.flag_visible == has_flag,
        display.wiki_line_visible <==> display.years_visible || has_flag,
        line == display.wiki_line_visible,
        artist_type@.len() > 0 ==> display.artist_type@ == artist_type@,
        artist_type@.len() == 0 ==> display.artist_type@ == "-"@,
        type_label@ == display.artist_type@,
        display.mbid_row.visible <==> meta.mbid is Some,
        meta.mbid matches Some(id) ==> (display.mbid_row.link matches Some(link) && link.0@ == id@
            && link.1@ == "https://musicbrainz.org/artist/"@ + id@),
{
}

/// A flag lies under the lower case of the country's code; an artist under the ID.
pub proof fn flags_and_artists_have_their_places(
    country: &str,
    path: String,
    mbid: &str,
    uri: String,
    id: String,
    row: MbidRow,
    without: MbidRow,
)
    requires
        mbid@ == id@,
        call_ensures(flag_path, (country,), path),
        call_ensures(artist_uri, (mbid,), uri),
        call_ensures(artist_row, (&Some(id),), row),
        call_ensures(artist_row, (&None,), without),
    ensures
        path@ == "flags/"@ + lowercase(country@) + ".svg"@,
        uri@ == "https://musicbrainz.org/artist/"@ + id@,
        row.visible && !without.visible,
        row.link matches Some(link) && link.0@ == id@ && link.1@ == uri@,
        without.link is None,
{
}

/// Metadata is looked up for artists with a name only.
pub proof fn nameless_artists_are_not_looked_up(
    name: &str,
    named: ArtistMetaPlan,
    none: ArtistMetaPlan,
)
    requires
        call_ensures(update_meta_plan, (Some(name),), named),
        call_ensures(update_meta_plan, (None,), none),
    ensures
        none == ArtistMetaPlan::Nothing,
        named == ArtistMetaPlan::Fetch <==> name@.len() > 0,
        named == ArtistMetaPlan::Nameless <==> name@.len() == 0,
{
}

/// News about an artist concerns that artist only, and only the narrow layout is
/// narrow.
pub proof fn news_concerns_one_artist(
    name: &str,
    changed: &str,
    concerned: bool,
    nobody: bool,
    narrow: bool,
    none: bool,
)
    requires
        call_ensures(concerns_artist, (Some(name), changed), concerned),
        call_ensures(concerns_artist, (None, changed), nobody),
        call_ensures(is_narrow, (Some(name),), narrow),
        call_ensures(is_narrow, (None,), none),
    ensures
        concerned <==> name@ == changed@,
        !nobody,
        narrow <==> name@ == "narrow"@,
        !none,
{
}

/// All songs of an artist go in one request, a selection song by song, and without
/// an artist nothing goes.
pub proof fn an_artist_is_queued_at_once(
    nothing: ArtistQueueChoice,
    nothing_at_all: ArtistQueueChoice,
    all: ArtistQueueChoice,
    some: ArtistQueueChoice,
)
    requires
        call_ensures(queue_choice, (false, false), nothing),
        call_ensures(queue_choice, (false, true), nothing_at_all),
        call_ensures(queue_choice, (true, true), all),
        call_ensures(queue_choice, (true, false), some),
    ensures
        nothing == ArtistQueueChoice::Nothing,
        nothing_at_all == ArtistQueueChoice::Nothing,
        all == ArtistQueueChoice::Artist,
        some == ArtistQueueChoice::Songs,
{
}

/// Releases are counted up to a thousand.
pub proof fn releases_are_counted_to_a_thousand(count: usize, label: String, number: String)
    requires
        call_ensures(release_count_label, (count,), label),
        call_ensures(decimal_string, (count as u64,), number),
    ensures
        count <= 1000 ==> label@ == number@,
        count > 1000 ==> label@ == ">1000"@,
{
}

proof fn positions_hold_their_year(years: Seq<Option<i32>>, year: Option<i32>, n: int)
    requires
        0 <= n <= years.len() <= usize::MAX,
    ensures
        forall|k: int|
            0 <= k < positions_of(years, year, n).len() ==> (#[trigger] positions_of(
                years,
                year,
                n,
            )[k]) < n && years[positions_of(years, year, n)[k] as int] == year,
        forall|k: int, l: int|
            0 <= k < l < positions_of(years, year, n).len() ==> #[trigger] positions_of(
                years,
                year,
                n,
            )[k] < #[trigger] positions_of(years, year, n)[l],
        forall|i: usize|
            i < n && years[i as int] == year ==> #[trigger] positions_of(years, year, n).contains(i),
    decreases n,
{
    if n > 0 {
        positions_hold_their_year(years, year, n - 1);
        let (before, now) = (positions_of(years, year, n - 1), positions_of(years, year, n));
        assert forall|i: usize| i < n && years[i as int] == year implies #[trigger] now.contains(
            i,
        ) by {
            if i < n - 1 {
                assert(before.contains(i));
                let k = choose|k: int| 0 <= k < before.len() && before[k] == i;
                assert(now[k] == i);
            } else {
                assert(now[now.len() - 1] == i);
            }
        }
    }
}

/// Each album is listed under its own year, in its place among the albums of that
/// year; no year is listed without albums, and later years come before earlier
/// ones, with the albums without a year at the end.
pub proof fn albums_are_listed_under_their_years(
    years: &Vec<Option<i32>>,
    groups: Vec<AlbumYear>,
    g: int,
    h: int,
    k: int,
    l: int,
)
    requires
        years@.len() <= usize::MAX,
        call_ensures(albums_by_year, (years,), groups),
        0 <= g < groups@.len(),
    ensures
        groups@[g].albums@.len() > 0,
        0 <= k < groups@[g].albums@.len() ==> groups@[g].albums@[k] < years@.len()
            && years@[groups@[g].albums@[k] as int] == groups@[g].year,
        0 <= k < l < groups@[g].albums@.len() ==> groups@[g].albums@[k] < groups@[g].albums@[l],
        g < h < groups@.len() ==> groups@[g].year is Some && (groups@[h].year matches Some(year)
            ==> groups@[g].year->0 > year),
{
    positions_hold_their_year(years@, groups@[g].year, years@.len() as int);
    assert(groups@[g].albums@ == positions_of(years@, groups@[g].year, years@.len() as int));
    if g < h < groups@.len() {
        assert(year_before(groups@[g].year, groups@[h].year));
    }
}

/// No album is left out.
pub proof fn every_album_is_listed(years: &Vec<Option<i32>>, groups: Vec<AlbumYear>, i: usize)
    requires
        years@.len() <= usize::MAX,
        call_ensures(albums_by_year, (years,), groups),
        i < years@.len(),
    ensures
        exists|g: int|
            0 <= g < groups@.len() && (#[trigger] groups@[g]).year == years@[i as int]
                && groups@[g].albums@.contains(i),
{
    assert(has_year(groups@, years@[i as int]));
    let g = choose|g: int|
        0 <= g < groups@.len() && (#[trigger] groups@[g]).year == years@[i as int];
    positions_hold_their_year(years@, groups@[g].year, years@.len() as int);
    assert(groups@[g].albums@ == positions_of(years@, groups@[g].year, years@.len() as int));
}

/// Every genre is listed, once, and nothing else is; they come in the order of their
/// lower cases.
pub proof fn genres_are_listed_once_in_order(
    genres: &Vec<String>,
    listed: Vec<String>,
    name: Seq<char>,
    i: int,
    j: int,
)
    requires
        call_ensures(collect_genres, (genres,), listed),
    ensures
        (exists|k: int| 0 <= k < listed@.len() && (#[trigger] listed@[k])@ == name) <==> (exists|
            k: int,
        |
            0 <= k < genres@.len() && (#[trigger] genres@[k])@ == name),
        0 <= i < j < listed@.len() ==> listed@[i]@ != listed@[j]@,
        0 <= i < j < listed@.len() ==> !text_before(lowercase(listed@[j]@), lowercase(listed@[i]@)),
{
    let (all, out) = (views(genres@), views(listed@));
    assert(all.len() == genres@.len());
    assert(out.len() == listed@.len());
    assert forall|k: int| 0 <= k < out.len() implies #[trigger] out[k] == listed@[k]@ by {}
    assert forall|k: int| 0 <= k < all.len() implies #[trigger] all[k] == genres@[k]@ by {}
    if exists|k: int| 0 <= k < listed@.len() && (#[trigger] listed@[k])@ == name {
        let k = choose|k: int| 0 <= k < listed@.len() && (#[trigger] listed@[k])@ == name;
        assert(out[k] == name);
        assert(out.to_set().contains(name));
        assert(all.to_set().contains(name));
        let m = choose|m: int| 0 <= m < all.len() && all[m] == name;
        assert(genres@[m]@ == name);
    }
    if exists|k: int| 0 <= k < genres@.len() && (#[trigger] genres@[k])@ == name {
        let k = choose|k: int| 0 <= k < genres@.len() && (#[trigger] genres@[k])@ == name;
        assert(all[k] == name);
        assert(all.to_set().contains(name));
        assert(out.to_set().contains(name));
        let m = choose|m: int| 0 <= m < out.len() && out[m] == name;
        assert(listed@[m]@ == name);
    }
    if 0 <= i < j < listed@.len() {
        assert(out[i] != out[j]);
    }
}

} // verus!
