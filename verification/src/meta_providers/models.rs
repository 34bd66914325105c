//! Metadata documents, whichever provider they come from.
use crate::common::Date;
use vstd::prelude::*;

verus! {

/// A short article on an album or an artist.
#[derive(Debug)]
pub struct Wiki {
    pub content: String,
    pub url: Option<String>,
    pub attribution: String,
}

/// What a [`Wiki`] says.
pub struct WikiView {
    pub content: Seq<char>,
    pub url: Option<Seq<char>>,
    pub attribution: Seq<char>,
}

impl View for Wiki {
    type V = WikiView;

    open spec fn view(&self) -> WikiView {
        WikiView {
            content: self.content@,
            url: crate::text::opt_view(self.url),
            attribution: self.attribution@,
        }
    }
}

impl Wiki {
    /// A copy of the article.
    pub fn duplicate(&self) -> (r: Wiki)
        ensures
            r == *self,
    {
        Wiki {
            content: self.content.clone(),
            url: crate::text::clone_opt(&self.url),
            attribution: self.attribution.clone(),
        }
    }
}

impl Default for Wiki {
    fn default() -> (r: Wiki)
        ensures
            r@ == (WikiView { content: Seq::empty(), url: None, attribution: Seq::empty() }),
    {
        Wiki { content: String::new(), url: None, attribution: String::new() }
    }
}

/// A label that users or providers put on an album or an artist.
#[derive(Debug)]
pub struct Tag {
    pub name: String,
    pub url: Option<String>,
    pub count: Option<i32>,
    pub set_by_user: bool,
}

/// The sizes that images come in, from the smallest.
#[derive(Clone, Copy, Debug, PartialEq, Eq, Structural)]
pub enum ImageSize {
    Small,
    Medium,
    Large,
    Mega,
}

impl ImageSize {
    /// The position of a size among the sizes.
    pub open spec fn rank(self) -> int {
        match self {
            ImageSize::Small => 0,
            ImageSize::Medium => 1,
            ImageSize::Large => 2,
            ImageSize::Mega => 3,
        }
    }

    /// The position of a size among the sizes.
    pub fn order(self) -> (r: u8)
        ensures
            r == self.rank(),
    {
        match self {
            ImageSize::Small => 0,
            ImageSize::Medium => 1,
            ImageSize::Large => 2,
            ImageSize::Mega => 3,
        }
    }
}

/// Where to get an image.
#[derive(Debug)]
pub struct ImageMeta {
    pub size: ImageSize,
    pub url: String,
}

/// What is known of an album.
#[derive(Debug)]
pub struct AlbumMeta {
    pub name: String,
    pub artist: Option<String>,
    pub mbid: Option<String>,
    pub tags: Vec<Tag>,
    pub image: Vec<ImageMeta>,
    pub url: Option<String>,
    pub wiki: Option<Wiki>,
}

/// What is known of an artist.
#[derive(Debug)]
pub struct ArtistMeta {
    pub name: String,
    pub mbid: Option<String>,
    /// Position in the list of artist types.
    pub artist_type: Option<u32>,
    pub country: Option<String>,
    pub begin_date: Option<Date>,
    pub end_date: Option<Date>,
    pub tags: Vec<Tag>,
    pub image: Vec<ImageMeta>,
    pub url: Option<String>,
    pub bio: Option<Wiki>,
}

/// A field of a merged document: the new value, if there is one.
pub open spec fn newer<T>(existing: Option<T>, new: Option<T>) -> Option<T> {
    if new is Some {
        new
    } else {
        existing
    }
}

/// A list of a merged document: the new one, unless it is empty.
pub open spec fn newer_list<T>(existing: Vec<T>, new: Vec<T>) -> Vec<T> {
    if new@.len() > 0 {
        new
    } else {
        existing
    }
}

fn pick<T>(existing: Option<T>, new: Option<T>) -> (r: Option<T>)
    ensures
        r == newer(existing, new),
{
    match new {
        Some(value) => Some(value),
        None => existing,
    }
}

fn pick_list<T>(existing: Vec<T>, new: Vec<T>) -> (r: Vec<T>)
    ensures
        r == newer_list(existing, new),
{
    if new.len() > 0 {
        new
    } else {
        existing
    }
}

/// An album document with data of both documents, where the new data wins.
pub open spec fn merged_album(existing: AlbumMeta, new: AlbumMeta) -> AlbumMeta {
    AlbumMeta {
        name: new.name,
        artist: newer(existing.artist, new.artist),
        mbid: newer(existing.mbid, new.mbid),
        tags: newer_list(existing.tags, new.tags),
        image: newer_list(existing.image, new.image),
        url: newer(existing.url, new.url),
        wiki: newer(existing.wiki, new.wiki),
    }
}

/// An artist document with data of both documents, where the new data wins.
pub open spec fn merged_artist(existing: ArtistMeta, new: ArtistMeta) -> ArtistMeta {
    ArtistMeta {
        name: new.name,
        mbid: newer(existing.mbid, new.mbid),
        artist_type: newer(existing.artist_type, new.artist_type),
        country: newer(existing.country, new.country),
        begin_date: newer(existing.begin_date, new.begin_date),
        end_date: newer(existing.end_date, new.end_date),
        tags: newer_list(existing.tags, new.tags),
        image: newer_list(existing.image, new.image),
        url: newer(existing.url, new.url),
        bio: newer(existing.bio, new.bio),
    }
}

impl AlbumMeta {
    /// Adds newly fetched data to the document.
    pub fn merge(self, new: AlbumMeta) -> (r: AlbumMeta)
        ensures
            r == merged_album(self, new),
    {
        AlbumMeta {
            name: new.name,
            artist: pick(self.artist, new.artist),
            mbid: pick(self.mbid, new.mbid),
            tags: pick_list(self.tags, new.tags),
            image: pick_list(self.image, new.image),
            url: pick(self.url, new.url),
            wiki: pick(self.wiki, new.wiki),
        }
    }
}

impl ArtistMeta {
    /// Adds newly fetched data to the document.
    pub fn merge(self, new: ArtistMeta) -> (r: ArtistMeta)
        ensures
            r == merged_artist(self, new),
    {
        ArtistMeta {
            name: new.name,
            mbid: pick(self.mbid, new.mbid),
            artist_type: pick(self.artist_type, new.artist_type),
            country: pick(self.country, new.country),
            begin_date: pick(self.begin_date, new.begin_date),
            end_date: pick(self.end_date, new.end_date),
            tags: pick_list(self.tags, new.tags),
            image: pick_list(self.image, new.image),
            url: pick(self.url, new.url),
            bio: pick(self.bio, new.bio),
        }
    }
}

impl Default for AlbumMeta {
    fn default() -> (r: AlbumMeta)
        ensures
            r.name@.len() == 0,
            r.artist is None,
            r.mbid is None,
            r.tags@.len() == 0,
            r.image@.len() == 0,
            r.url is None,
            r.wiki is None,
    {
        AlbumMeta {
            name: String::new(),
            artist: None,
            mbid: None,
            tags: Vec::new(),
            image: Vec::new(),
            url: None,
            wiki: None,
        }
    }
}

impl Default for ArtistMeta {
    fn default() -> (r: ArtistMeta)
        ensures
            r.name@.len() == 0,
            r.mbid is None,
            r.artist_type is None,
            r.country is None,
            r.begin_date is None,
            r.end_date is None,
            r.tags@.len() == 0,
            r.image@.len() == 0,
            r.url is None,
            r.bio is None,
    {
        ArtistMeta {
            name: String::new(),
            mbid: None,
            artist_type: None,
            country: None,
            begin_date: None,
            end_date: None,
            tags: Vec::new(),
            image: Vec::new(),
            url: None,
            bio: None,
        }
    }
}

/// Merging loses nothing: a field that either document fills is filled, and a
/// field that the new document fills has the new value.
pub proof fn merging_keeps_what_is_known(existing: AlbumMeta, new: AlbumMeta)
    ensures
        ({
            let r = merged_album(existing, new);
            &&& r.mbid is Some <==> existing.mbid is Some || new.mbid is Some
            &&& r.artist is Some <==> existing.artist is Some || new.artist is Some
            &&& r.url is Some <==> existing.url is Some || new.url is Some
            &&& r.wiki is Some <==> existing.wiki is Some || new.wiki is Some
            &&& r.tags@.len() > 0 <==> existing.tags@.len() > 0 || new.tags@.len() > 0
            &&& r.image@.len() > 0 <==> existing.image@.len() > 0 || new.image@.len() > 0
            &&& new.mbid is Some ==> r.mbid == new.mbid
            &&& new.artist is Some ==> r.artist == new.artist
            &&& new.url is Some ==> r.url == new.url
            &&& new.wiki is Some ==> r.wiki == new.wiki
            &&& new.tags@.len() > 0 ==> r.tags == new.tags
            &&& new.image@.len() > 0 ==> r.image == new.image
        }),
{
}

/// Merging three documents one after the other does not depend on which two are
/// merged first.
pub proof fn merging_is_associative(a: AlbumMeta, b: AlbumMeta, c: AlbumMeta)
    ensures
        merged_album(merged_album(a, b), c) == merged_album(a, merged_album(b, c)),
{
}

/// Merging loses nothing of an artist either, and new values win.
pub proof fn merging_keeps_what_is_known_of_artists(existing: ArtistMeta, new: ArtistMeta)
    ensures
        ({
            let r = merged_artist(existing, new);
            &&& r.mbid is Some <==> existing.mbid is Some || new.mbid is Some
            &&& r.artist_type is Some <==> existing.artist_type is Some || new.artist_type is Some
            &&& r.country is Some <==> existing.country is Some || new.country is Some
            &&& r.begin_date is Some <==> existing.begin_date is Some || new.begin_date is Some
            &&& r.end_date is Some <==> existing.end_date is Some || new.end_date is Some
            &&& r.url is Some <==> existing.url is Some || new.url is Some
            &&& r.bio is Some <==> existing.bio is Some || new.bio is Some
            &&& r.tags@.len() > 0 <==> existing.tags@.len() > 0 || new.tags@.len() > 0
            &&& r.image@.len() > 0 <==> existing.image@.len() > 0 || new.image@.len() > 0
            &&& new.mbid is Some ==> r.mbid == new.mbid
            &&& new.artist_type is Some ==> r.artist_type == new.artist_type
            &&& new.country is Some ==> r.country == new.country
            &&& new.begin_date is Some ==> r.begin_date == new.begin_date
            &&& new.end_date is Some ==> r.end_date == new.end_date
            &&& new.url is Some ==> r.url == new.url
            &&& new.bio is Some ==> r.bio == new.bio
            &&& new.tags@.len() > 0 ==> r.tags == new.tags
            &&& new.image@.len() > 0 ==> r.image == new.image
        }),
{
}

/// The documents of an artist can be merged in either grouping too.
pub proof fn merging_artists_is_associative(a: ArtistMeta, b: ArtistMeta, c: ArtistMeta)
    ensures
        merged_artist(merged_artist(a, b), c) == merged_artist(a, merged_artist(b, c)),
{
}

/// What a new document of an album says replaces what was known, and what it does
/// not say stays as it was known, field by field; only the name is always the new
/// one.
pub proof fn new_album_data_replaces_old(existing: AlbumMeta, new: AlbumMeta, r: AlbumMeta)
    requires
        call_ensures(AlbumMeta::merge, (existing, new), r),
    ensures
        r.name == new.name,
        new.artist is Some ==> r.artist == new.artist,
        new.artist is None ==> r.artist == existing.artist,
        new.mbid is Some ==> r.mbid == new.mbid,
        new.mbid is None ==> r.mbid == existing.mbid,
        new.url is Some ==> r.url == new.url,
        new.url is None ==> r.url == existing.url,
        new.wiki is Some ==> r.wiki == new.wiki,
        new.wiki is None ==> r.wiki == existing.wiki,
        new.tags@.len() > 0 ==> r.tags == new.tags,
        new.tags@.len() == 0 ==> r.tags == existing.tags,
        new.image@.len() > 0 ==> r.image == new.image,
        new.image@.len() == 0 ==> r.image == existing.image,
{
}

/// The same goes for a document of an artist.
pub proof fn new_artist_data_replaces_old(existing: ArtistMeta, new: ArtistMeta, r: ArtistMeta)
    requires
        call_ensures(ArtistMeta::merge, (existing, new), r),
    ensures
        r.name == new.name,
        new.mbid is Some ==> r.mbid == new.mbid,
        new.mbid is None ==> r.mbid == existing.mbid,
        new.artist_type is Some ==> r.artist_type == new.artist_type,
        new.artist_type is None ==> r.artist_type == existing.artist_type,
        new.country is Some ==> r.country == new.country,
        new.country is None ==> r.country == existing.country,
        new.begin_date is Some ==> r.begin_date == new.begin_date,
        new.begin_date is None ==> r.begin_date == existing.begin_date,
        new.end_date is Some ==> r.end_date == new.end_date,
        new.end_date is None ==> r.end_date == existing.end_date,
        new.url is Some ==> r.url == new.url,
        new.url is None ==> r.url == existing.url,
        new.bio is Some ==> r.bio == new.bio,
        new.bio is None ==> r.bio == existing.bio,
        new.tags@.len() > 0 ==> r.tags == new.tags,
        new.tags@.len() == 0 ==> r.tags == existing.tags,
        new.image@.len() > 0 ==> r.image == new.image,
        new.image@.len() == 0 ==> r.image == existing.image,
{
}

/// Merging a document into itself changes nothing.
pub proof fn merging_twice_changes_nothing(
    album: AlbumMeta,
    artist: ArtistMeta,
    same_album: AlbumMeta,
    same_artist: ArtistMeta,
)
    requires
        call_ensures(AlbumMeta::merge, (album, album), same_album),
        call_ensures(ArtistMeta::merge, (artist, artist), same_artist),
    ensures
        same_album == album,
        same_artist == artist,
{
}

/// The sizes of images go from small over medium and large to mega.
pub proof fn image_sizes_are_ordered(small: u8, medium: u8, large: u8, mega: u8)
    requires
        call_ensures(ImageSize::order, (ImageSize::Small,), small),
        call_ensures(ImageSize::order, (ImageSize::Medium,), medium),
        call_ensures(ImageSize::order, (ImageSize::Large,), large),
        call_ensures(ImageSize::order, (ImageSize::Mega,), mega),
    ensures
        small < medium < large < mega,
{
}

/// A copy of an article says what the article says; an article that nobody has
/// written says nothing.
pub proof fn copies_say_the_same(wiki: &Wiki, copy: Wiki)
    requires
        call_ensures(Wiki::duplicate, (wiki,), copy),
    ensures
        copy.content@ == wiki.content@,
        copy.attribution@ == wiki.attribution@,
        copy.url == wiki.url,
{
}

} // verus!
