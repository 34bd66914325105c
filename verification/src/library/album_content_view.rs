//! One album: its songs, its rating, and its metadata with editor and backup.
use crate::common::AlbumInfo;
use crate::library::controller::{ClientCommand, Library, StickersSupportLevel};
use crate::library::selection::{self, action_label, covers_all};
use crate::meta_providers::models::{AlbumMeta, Tag, Wiki, WikiView};
use crate::text::{
    decimal, decimal_string, entry_text, entry_value, join2, join3, opt_view, same, text_of_entry,
    value_of_entry,
};
use vstd::prelude::*;

verus! {

/// What the buttons over the song list say.
#[derive(Debug)]
pub struct QueueLabels {
    pub play: String,
    pub queue: String,
    pub queue_next: String,
}

/// The texts for a selection.
pub fn on_selection_changed(n_sel: u32, total: u32) -> (r: QueueLabels)
    ensures
        r.play@ == action_label("Play"@, n_sel as nat, total as nat),
        r.queue@ == action_label("Queue"@, n_sel as nat, total as nat),
        r.queue_next@ == action_label("Queue"@, n_sel as nat, total as nat) + " next"@,
{
    QueueLabels {
        play: selection::play_label(n_sel, total),
        queue: selection::queue_label(n_sel, total),
        queue_next: selection::queue_next_label(n_sel, total),
    }
}

/// The positions of the songs that an action covers: all of them if none or all
/// are selected, else the selected ones.
pub open spec fn covered(selected: Seq<u32>, total: nat) -> Seq<u32> {
    if covers_all(selected.len(), total) {
        Seq::new(total, |i: int| i as u32)
    } else {
        selected
    }
}

/// The positions of the songs that an action covers.
pub fn selected_songs(selected: &Vec<u32>, total: u32) -> (r: Vec<u32>)
    ensures
        r@ == covered(selected@, total as nat),
{
    let mut out: Vec<u32> = Vec::new();
    if selected.len() == 0 || selected.len() == total as usize {
        for i in 0..total
            invariant
                out@ == Seq::new(i as nat, |j: int| j as u32),
        {
            out.push(i);
            assert(out@ =~= Seq::new((i + 1) as nat, |j: int| j as u32));
        }
    } else {
        for i in 0..selected.len()
            invariant
                out@ == selected@.take(i as int),
        {
            out.push(selected[i]);
        }
        assert(out@ =~= selected@);
    }
    out
}

/// What a queue button asks of the library.
#[derive(Clone, Copy, Debug, PartialEq, Eq, Structural)]
pub enum QueueChoice {
    /// Insert the songs behind the current one.
    InsertNext,
    /// Queue the album as a whole.
    Album,
    /// Queue song by song.
    Songs,
}

/// How to queue a selection. A whole album goes in one request.
pub fn queue_selected(n_sel: u32, total: u32, has_album: bool, next: bool) -> (r: QueueChoice)
    ensures
        r == (if next {
            QueueChoice::InsertNext
        } else if covers_all(n_sel as nat, total as nat) && has_album {
            QueueChoice::Album
        } else {
            QueueChoice::Songs
        }),
{
    if next {
        QueueChoice::InsertNext
    } else if selection::selecting_all(n_sel, total) && has_album {
        QueueChoice::Album
    } else {
        QueueChoice::Songs
    }
}

/// A rating in words: stars with one decimal, half a star for each point.
pub open spec fn rating_text(rating: int) -> Seq<char> {
    if rating < 0 {
        "Unrated"@
    } else {
        decimal((rating / 2) as nat) + (if rating % 2 == 0 {
            ".0"@
        } else {
            ".5"@
        })
    }
}

/// The text next to the stars.
pub fn rating_readout(rating: i8) -> (r: String)
    ensures
        r@ == rating_text(rating as int),
{
    if rating < 0 {
        "Unrated".to_owned()
    } else {
        let points: u64 = rating as u64;
        join2(
            decimal_string(points / 2).as_str(),
            if points % 2 == 0 {
                ".0"
            } else {
                ".5"
            },
        )
    }
}

/// The rating to store for what the stars show: none unless it is positive.
pub fn rating_option(value: i8) -> (r: Option<i8>)
    ensures
        r == (if value > 0 {
            Some(value)
        } else {
            None
        }),
{
    if value > 0 {
        Some(value)
    } else {
        None
    }
}

/// Whether the stars are there: the server has to keep stickers on albums.
pub fn rating_visible(level: StickersSupportLevel) -> (r: bool)
    ensures
        r == (level == StickersSupportLevel::All),
{
    matches!(level, StickersSupportLevel::All)
}

/// Whether news about the cover in a folder concerns the album on display.
pub fn concerns_album(folder_uri: Option<&str>, uri: &str) -> (r: bool)
    ensures
        r == (folder_uri is Some && folder_uri->0@ == uri@),
{
    match folder_uri {
        Some(folder) => same(folder, uri),
        None => false,
    }
}

/// The texts of the metadata editor.
#[derive(Debug)]
pub struct AlbumForm {
    pub wiki_desc: String,
    pub wiki_link: String,
    pub wiki_attrib: String,
    pub mbid: String,
}

/// What an [`AlbumForm`] says.
pub struct AlbumFormView {
    pub wiki_desc: Seq<char>,
    pub wiki_link: Seq<char>,
    pub wiki_attrib: Seq<char>,
    pub mbid: Seq<char>,
}

impl View for AlbumForm {
    type V = AlbumFormView;

    open spec fn view(&self) -> AlbumFormView {
        AlbumFormView {
            wiki_desc: self.wiki_desc@,
            wiki_link: self.wiki_link@,
            wiki_attrib: self.wiki_attrib@,
            mbid: self.mbid@,
        }
    }
}

/// The article that an editor shows; an empty one where there is none.
pub open spec fn wiki_shown(wiki: Option<Wiki>) -> WikiView {
    match wiki {
        Some(w) => w@,
        None => WikiView { content: Seq::empty(), url: None, attribution: Seq::empty() },
    }
}

/// What the editor shows at first.
pub open spec fn form_of(wiki: Option<Wiki>, mbid: Option<String>) -> AlbumFormView {
    AlbumFormView {
        wiki_desc: wiki_shown(wiki).content,
        wiki_link: entry_text(wiki_shown(wiki).url),
        wiki_attrib: wiki_shown(wiki).attribution,
        mbid: entry_text(opt_view(mbid)),
    }
}

/// The article that the texts of an editor make.
pub open spec fn wiki_written(desc: Seq<char>, link: Seq<char>, attrib: Seq<char>) -> WikiView {
    WikiView { content: desc, url: entry_value(link), attribution: attrib }
}

/// The three texts of an article.
pub fn wiki_texts(wiki: &Option<Wiki>) -> (r: (String, String, String))
    ensures
        r.0@ == wiki_shown(*wiki).content,
        r.1@ == entry_text(wiki_shown(*wiki).url),
        r.2@ == wiki_shown(*wiki).attribution,
{
    match wiki {
        Some(w) => (w.content.clone(), text_of_entry(&w.url), w.attribution.clone()),
        None => (String::new(), String::new(), String::new()),
    }
}

/// Opens the metadata editor on what is known.
pub fn edit_form(meta: &Option<AlbumMeta>) -> (r: AlbumForm)
    ensures
        r@ == (match meta {
            Some(m) => form_of(m.wiki, m.mbid),
            None => form_of(None, None),
        }),
{
    match meta {
        Some(m) => {
            let texts: (String, String, String) = wiki_texts(&m.wiki);
            AlbumForm {
                wiki_desc: texts.0,
                wiki_link: texts.1,
                wiki_attrib: texts.2,
                mbid: text_of_entry(&m.mbid),
            }
        },
        None => AlbumForm {
            wiki_desc: String::new(),
            wiki_link: String::new(),
            wiki_attrib: String::new(),
            mbid: String::new(),
        },
    }
}

/// Saves the metadata editor. There is an article afterwards, even if an empty
/// one; what the editor does not show stays as it was.
pub fn metadata_save(meta: Option<AlbumMeta>, form: AlbumForm) -> (r: AlbumMeta)
    ensures
        r.wiki is Some,
        r.wiki->0@ == wiki_written(form.wiki_desc@, form.wiki_link@, form.wiki_attrib@),
        opt_view(r.mbid) == entry_value(form.mbid@),
        match meta {
            Some(m) => r.name == m.name && r.artist == m.artist && r.tags == m.tags && r.image
                == m.image && r.url == m.url,
            None => r.name@.len() == 0 && r.artist is None && r.tags@.len() == 0 && r.image@.len()
                == 0 && r.url is None,
        },
{
    let mut new_meta: AlbumMeta = match meta {
        Some(m) => m,
        None => AlbumMeta::default(),
    };
    new_meta.wiki = Some(
        Wiki {
            content: form.wiki_desc,
            url: value_of_entry(form.wiki_link),
            attribution: form.wiki_attrib,
        },
    );
    new_meta.mbid = value_of_entry(form.mbid);
    new_meta
}

/// Saving the editor without touching it keeps the article and the MusicBrainz
/// ID, where these are not empty strings.
pub proof fn an_untouched_form_changes_nothing(wiki: Option<Wiki>, mbid: Option<String>)
    requires
        wiki matches Some(w) ==> w.url matches Some(url) ==> url@.len() > 0,
        mbid matches Some(id) ==> id@.len() > 0,
    ensures
        ({
            let form = form_of(wiki, mbid);
            &&& wiki_written(form.wiki_desc, form.wiki_link, form.wiki_attrib) == wiki_shown(wiki)
            &&& entry_value(form.mbid) == opt_view(mbid)
        }),
{
}

/// How a backup went.
#[derive(Debug)]
pub enum BackupOutcome {
    Done,
    /// The server has newer metadata.
    AlreadyExists,
    /// Another error, in words.
    Failed(String),
}

/// What follows a backup.
#[derive(Debug)]
pub enum BackupNext {
    Finish,
    /// Ask the user whether to overwrite what the server has.
    AskOverwrite,
    Toast(String),
}

/// What a backup is made of.
#[derive(Clone, Copy, Debug, PartialEq, Eq, Structural)]
pub struct BackupRequest {
    pub old_last_modified: i128,
    pub new_last_modified: i128,
    pub overwrite: bool,
}

/// What stands in the place of the backup button.
#[derive(Clone, Copy, Debug, PartialEq, Eq, Structural)]
pub enum BackupChild {
    Button,
    Spinner,
}

/// The state of the metadata backup. Times are in nanoseconds.
#[derive(Clone, Copy, Debug, PartialEq, Eq, Structural)]
pub struct BackupState {
    pub visible: bool,
    pub child: BackupChild,
    /// The age of what the server is believed to have.
    pub old_last_modified: Option<i128>,
    /// The age of the metadata on display.
    pub new_last_modified: Option<i128>,
}

impl BackupState {
    /// Nothing is known, and nothing to back up.
    pub fn new() -> (r: BackupState)
        ensures
            r == (BackupState {
                visible: false,
                child: BackupChild::Button,
                old_last_modified: None,
                new_last_modified: None,
            }),
    {
        BackupState {
            visible: false,
            child: BackupChild::Button,
            old_last_modified: None,
            new_last_modified: None,
        }
    }

    /// Lets go of the album. Until the metadata of another one is loaded, no
    /// backup can begin.
    pub fn unbind(&mut self)
        ensures
            *final(self) == (BackupState { old_last_modified: None, ..*old(self) }),
    {
        self.old_last_modified = None;
    }

    /// Starts a backup, if all that it takes is there.
    pub fn begin(&mut self, overwrite: bool, has_cache: bool, has_meta: bool, has_album: bool) -> (r:
        Option<BackupRequest>)
        ensures
            match r {
                Some(request) => {
                    &&& has_cache && has_meta && has_album
                    &&& old(self).old_last_modified == Some(request.old_last_modified)
                    &&& old(self).new_last_modified == Some(request.new_last_modified)
                    &&& request.overwrite == overwrite
                    &&& *final(self) == (BackupState { child: BackupChild::Spinner, ..*old(self) })
                },
                None => {
                    &&& !has_cache || !has_meta || !has_album || old(self).old_last_modified is None
                        || old(self).new_last_modified is None
                    &&& *final(self) == *old(self)
                },
            },
    {
        if has_cache && has_meta && has_album {
            match (self.old_last_modified, self.new_last_modified) {
                (Some(old_last_modified), Some(new_last_modified)) => {
                    self.child = BackupChild::Spinner;
                    Some(BackupRequest { old_last_modified, new_last_modified, overwrite })
                },
                _ => None,
            }
        } else {
            None
        }
    }

    /// Ends a backup. After a success the server has what is on display, and
    /// there is nothing more to back up.
    pub fn end(&mut self, request: BackupRequest, ok: bool)
        ensures
            *final(self) == (if ok {
                BackupState {
                    visible: false,
                    old_last_modified: Some(request.new_last_modified),
                    ..*old(self)
                }
            } else {
                BackupState { child: BackupChild::Button, ..*old(self) }
            }),
    {
        if ok {
            self.visible = false;
            self.old_last_modified = Some(request.new_last_modified);
        } else {
            self.child = BackupChild::Button;
        }
    }

    /// Shows or hides the backup button. Returns whether a backup can be made;
    /// hidden, none is.
    pub fn maybe_show_backup_metadata_btn(&mut self, visible: bool, available: bool) -> (r: bool)
        ensures
            r == (visible && available),
            *final(self) == (if visible {
                BackupState { visible: available, child: BackupChild::Button, ..*old(self) }
            } else {
                BackupState { visible: false, ..*old(self) }
            }),
    {
        if visible {
            self.visible = available;
            self.child = BackupChild::Button;
            available
        } else {
            self.visible = false;
            false
        }
    }

    /// Takes in metadata that was loaded. It is as old as what the server is
    /// believed to have. Returns whether to back it up on its own: metadata that
    /// came from the server is not.
    pub fn on_loaded(&mut self, last_modified: i128, from_server: bool, available: bool, auto: bool)
        -> (r: bool)
        ensures
            r == (!from_server && available && auto),
            final(self).old_last_modified == Some(last_modified),
            final(self).new_last_modified == Some(last_modified),
            final(self).visible == (!from_server && available),
            final(self).child == (if from_server {
                old(self).child
            } else {
                BackupChild::Button
            }),
    {
        self.old_last_modified = Some(last_modified);
        self.new_last_modified = Some(last_modified);
        let should_backup: bool = self.maybe_show_backup_metadata_btn(!from_server, available);
        should_backup && auto
    }

    /// Takes note of metadata that was saved, or could not be. Returns whether
    /// to back it up on its own.
    pub fn on_saved(&mut self, saved: Option<i128>, available: bool, auto: bool) -> (r: bool)
        ensures
            r == (saved is Some && available && auto),
            final(self).old_last_modified == old(self).old_last_modified,
            match saved {
                Some(ts) => {
                    &&& final(self).new_last_modified == Some(ts)
                    &&& final(self).visible == available
                    &&& final(self).child == BackupChild::Button
                },
                None => *final(self) == (BackupState { visible: false, ..*old(self) }),
            },
    {
        match saved {
            Some(ts) => {
                self.new_last_modified = Some(ts);
                let can: bool = self.maybe_show_backup_metadata_btn(true, available);
                can && auto
            },
            None => {
                self.maybe_show_backup_metadata_btn(false, available);
                false
            },
        }
    }
}

/// What follows a first attempt at a backup. Where the server has newer metadata
/// the user decides, unless the backup is silent.
pub fn backup_next(outcome: &BackupOutcome, silent: bool) -> (r: BackupNext)
    ensures
        match outcome {
            BackupOutcome::Done => r is Finish,
            BackupOutcome::AlreadyExists => if silent {
                r matches BackupNext::Toast(text) && text@
                    == "Couldn't back up metadata: MPD side is newer"@
            } else {
                r is AskOverwrite
            },
            BackupOutcome::Failed(message) => r matches BackupNext::Toast(text) && text@
                == "Couldn't back up metadata: "@ + message@,
        },
{
    match outcome {
        BackupOutcome::Done => BackupNext::Finish,
        BackupOutcome::AlreadyExists => if silent {
            BackupNext::Toast("Couldn't back up metadata: MPD side is newer".to_owned())
        } else {
            BackupNext::AskOverwrite
        },
        BackupOutcome::Failed(message) => BackupNext::Toast(
            join2("Couldn't back up metadata: ", message.as_str()),
        ),
    }
}

/// Whether the user chose to overwrite.
pub fn overwrite_chosen(response: &str) -> (r: bool)
    ensures
        r == (response@ == "overwrite"@),
{
    same(response, "overwrite")
}

/// What is to happen about the metadata of an album.
#[derive(Clone, Copy, Debug, PartialEq, Eq, Structural)]
pub enum MetaPlan {
    /// No album is bound.
    Nothing,
    /// The album stands for songs without an album tag: there is nothing to
    /// look up.
    Untitled,
    Fetch,
}

/// What is to happen about the metadata of the album with this title.
pub fn update_meta_plan(title: Option<&str>) -> (r: MetaPlan)
    ensures
        r == (match title {
            None => MetaPlan::Nothing,
            Some(t) => if t@.len() == 0 {
                MetaPlan::Untitled
            } else {
                MetaPlan::Fetch
            },
        }),
{
    match title {
        None => MetaPlan::Nothing,
        Some(t) => if t.unicode_len() == 0 {
            MetaPlan::Untitled
        } else {
            MetaPlan::Fetch
        },
    }
}

/// How to show an article.
#[derive(Debug)]
pub struct WikiDisplay {
    /// The text and the attribution; `None` shows a placeholder.
    pub content: Option<(String, String)>,
    pub link_visible: bool,
    pub link_uri: String,
}

/// How to show an article. The link is only there if there is one.
pub fn wiki_display(wiki: &Option<Wiki>) -> (r: WikiDisplay)
    ensures
        match wiki {
            Some(w) => {
                &&& r.content matches Some(texts)
                &&& texts.0 == w.content
                &&& texts.1 == w.attribution
                &&& r.link_visible == (w.url is Some)
                &&& r.link_uri@ == entry_text(opt_view(w.url))
            },
            None => r.content is None && !r.link_visible && r.link_uri@.len() == 0,
        },
{
    match wiki {
        Some(w) => WikiDisplay {
            content: Some((w.content.clone(), w.attribution.clone())),
            link_visible: w.url.is_some(),
            link_uri: text_of_entry(&w.url),
        },
        None => WikiDisplay { content: None, link_visible: false, link_uri: String::new() },
    }
}

/// Where MusicBrainz has a release.
pub fn release_uri(mbid: &str) -> (r: String)
    ensures
        r@ == "https://musicbrainz.org/release/"@ + mbid@,
{
    join2("https://musicbrainz.org/release/", mbid)
}

/// The row with a MusicBrainz ID.
#[derive(Debug)]
pub struct MbidRow {
    pub visible: bool,
    /// The text of the link, and where it leads. Without an ID the link stays as
    /// it is.
    pub link: Option<(String, String)>,
}

impl MbidRow {
    /// The row shows this ID, if there is one, with a link to a page of
    /// MusicBrainz.
    pub open spec fn shows(self, mbid: Option<Seq<char>>, pages: Seq<char>) -> bool {
        &&& self.visible == (mbid is Some)
        &&& match self.link {
            Some(link) => mbid == Some(link.0@) && link.1@ == pages + link.0@,
            None => mbid is None,
        }
    }
}

/// The row with the ID of an album.
pub fn release_row(mbid: &Option<String>) -> (r: MbidRow)
    ensures
        r.shows(opt_view(*mbid), "https://musicbrainz.org/release/"@),
{
    match mbid {
        Some(id) => MbidRow { visible: true, link: Some((id.clone(), release_uri(id.as_str()))) },
        None => MbidRow { visible: false, link: None },
    }
}

/// Whether tags that were looked up are shown, or a placeholder: there have to
/// be some.
pub fn shows_tags(tags: &Option<Vec<Tag>>) -> (r: bool)
    ensures
        r == (tags is Some && tags->0@.len() > 0),
{
    match tags {
        Some(list) => list.len() > 0,
        None => false,
    }
}

/// The text on the age of the metadata.
pub fn last_updated_label(time: &str) -> (r: String)
    ensures
        r@ == "Last updated "@ + time@,
{
    join2("Last updated ", time)
}

/// The text of a toast on an error of the cache.
pub fn cache_error_toast(prefix: &str, message: &str) -> (r: String)
    ensures
        r@ == prefix@ + ": "@ + message@,
{
    join3(prefix, ": ", message)
}

/// The commands for playing an album from one of its songs on.
pub fn row_activated(album: &AlbumInfo, idx: u32) -> (r: Vec<ClientCommand>)
    ensures
        crate::library::controller::commands(r@) == crate::library::controller::queueing(
            true,
            crate::library::controller::CommandView::FindAdd {
                query: crate::library::controller::queue_album_terms(*album),
            },
            Some(idx),
        ),
{
    Library::queue_album(album, true, true, Some(idx))
}

/// The buttons say how much they queue, as the labels of a selection do.
pub proof fn the_album_buttons_say_what_they_queue(
    n_sel: u32,
    total: u32,
    labels: QueueLabels,
    play: String,
    queue: String,
    next: String,
)
    requires
        call_ensures(on_selection_changed, (n_sel, total), labels),
        call_ensures(selection::play_label, (n_sel, total), play),
        call_ensures(selection::queue_label, (n_sel, total), queue),
        call_ensures(selection::queue_next_label, (n_sel, total), next),
    ensures
        labels.play@ == play@,
        labels.queue@ == queue@,
        labels.queue_next@ == next@,
{
}

/// An action covers the selected songs, or all of them, from the first to the last,
/// if none is selected or all are.
pub proof fn actions_cover_the_selection(
    selected: &Vec<u32>,
    total: u32,
    covered_songs: Vec<u32>,
    i: int,
)
    requires
        call_ensures(selected_songs, (selected, total), covered_songs),
    ensures
        selected@.len() == 0 || selected@.len() == total ==> covered_songs@.len() == total && (0
            <= i < total ==> covered_songs@[i] == i),
        selected@.len() != 0 && selected@.len() != total ==> covered_songs@ == selected@,
{
}

/// Songs to come next are inserted, a whole album goes in one request, and
/// everything else song by song.
pub proof fn whole_albums_are_queued_at_once(
    n_sel: u32,
    total: u32,
    has_album: bool,
    next: QueueChoice,
    later: QueueChoice,
)
    requires
        call_ensures(queue_selected, (n_sel, total, has_album, true), next),
        call_ensures(queue_selected, (n_sel, total, has_album, false), later),
    ensures
        next == QueueChoice::InsertNext,
        later == QueueChoice::Album <==> has_album && (n_sel == 0 || n_sel == total),
        later == QueueChoice::Songs <==> !has_album || n_sel != 0 && n_sel != total,
{
}

/// Two points make a star: an even rating shows whole stars, an odd one half a star
/// more, and a negative one that there is no rating.
pub proof fn two_points_make_a_star(rating: i8, text: String, stars: String)
    requires
        call_ensures(rating_readout, (rating,), text),
        call_ensures(decimal_string, ((rating / 2) as u64,), stars),
    ensures
        rating < 0 ==> text@ == "Unrated"@,
        rating >= 0 && rating % 2 == 0 ==> text@ == stars@ + ".0"@,
        rating >= 0 && rating % 2 == 1 ==> text@ == stars@ + ".5"@,
{
}

/// Only a positive rating is stored.
pub proof fn no_stars_no_rating(value: i8, rating: Option<i8>)
    requires
        call_ensures(rating_option, (value,), rating),
    ensures
        value > 0 ==> rating == Some(value),
        value <= 0 ==> rating is None,
{
}

/// Ratings are there only where the server keeps stickers on albums.
pub proof fn ratings_take_stickers_on_albums(disabled: bool, songs_only: bool, all: bool)
    requires
        call_ensures(rating_visible, (StickersSupportLevel::Disabled,), disabled),
        call_ensures(rating_visible, (StickersSupportLevel::SongsOnly,), songs_only),
        call_ensures(rating_visible, (StickersSupportLevel::All,), all),
    ensures
        !disabled && !songs_only && all,
{
}

/// News about a folder concerns the album of that folder, and no other.
pub proof fn news_concerns_one_folder(folder: &str, uri: &str, concerned: bool, nobody: bool)
    requires
        call_ensures(concerns_album, (Some(folder), uri), concerned),
        call_ensures(concerns_album, (None, uri), nobody),
    ensures
        concerned <==> folder@ == uri@,
        !nobody,
{
}

/// Saving what the editor opened with keeps the article and the ID; only empty
/// ones, which the editor cannot tell from missing ones, may go.
pub proof fn an_untouched_editor_keeps_everything(
    meta: AlbumMeta,
    form: AlbumForm,
    saved: AlbumMeta,
)
    requires
        call_ensures(edit_form, (&Some(meta),), form),
        call_ensures(metadata_save, (Some(meta), form), saved),
        meta.wiki matches Some(w) ==> w.url matches Some(url) ==> url@.len() > 0,
        meta.mbid matches Some(id) ==> id@.len() > 0,
    ensures
        saved.name == meta.name,
        saved.artist == meta.artist,
        saved.tags == meta.tags,
        saved.image == meta.image,
        saved.url == meta.url,
        opt_view(saved.mbid) == opt_view(meta.mbid),
        saved.wiki is Some,
        meta.wiki matches Some(w) ==> saved.wiki->0.content@ == w.content@
            && saved.wiki->0.attribution@ == w.attribution@ && opt_view(saved.wiki->0.url)
            == opt_view(w.url),
        meta.wiki is None ==> saved.wiki->0.content@.len() == 0,
{
    an_untouched_form_changes_nothing(meta.wiki, meta.mbid);
    assert(saved.wiki->0@ == wiki_shown(meta.wiki));
    assert(saved.wiki->0@.content == saved.wiki->0.content@);
    assert(saved.wiki->0@.attribution == saved.wiki->0.attribution@);
    assert(saved.wiki->0@.url == opt_view(saved.wiki->0.url));
    if let Some(w) = meta.wiki {
        assert(w@.content == w.content@);
        assert(w@.attribution == w.attribution@);
        assert(w@.url == opt_view(w.url));
    }
}

/// The editor opens on what is known, field by field.
pub proof fn the_editor_shows_what_is_known(meta: AlbumMeta, form: AlbumForm, empty: AlbumForm)
    requires
        call_ensures(edit_form, (&Some(meta),), form),
        call_ensures(edit_form, (&None,), empty),
    ensures
        meta.mbid matches Some(id) ==> form.mbid@ == id@,
        meta.mbid is None ==> form.mbid@.len() == 0,
        meta.wiki matches Some(w) ==> form.wiki_desc@ == w.content@ && form.wiki_attrib@
            == w.attribution@ && (w.url matches Some(url) ==> form.wiki_link@ == url@) && (w.url
            is None ==> form.wiki_link@.len() == 0),
        meta.wiki is None ==> form.wiki_desc@.len() == 0 && form.wiki_link@.len() == 0
            && form.wiki_attrib@.len() == 0,
        empty.wiki_desc@.len() == 0 && empty.wiki_link@.len() == 0 && empty.wiki_attrib@.len() == 0
            && empty.mbid@.len() == 0,
{
    assert(form@.mbid == form.mbid@);
    assert(form@.wiki_desc == form.wiki_desc@);
    assert(form@.wiki_link == form.wiki_link@);
    assert(form@.wiki_attrib == form.wiki_attrib@);
    assert(empty@.mbid == empty.mbid@);
    assert(empty@.wiki_desc == empty.wiki_desc@);
    assert(empty@.wiki_link == empty.wiki_link@);
    assert(empty@.wiki_attrib == empty.wiki_attrib@);
    if let Some(w) = meta.wiki {
        assert(w@.content == w.content@);
        assert(w@.attribution == w.attribution@);
        assert(w@.url == opt_view(w.url));
    }
}

/// What is typed into the editor is what is saved, field by field; an empty link or
/// ID is saved as none.
pub proof fn what_is_typed_is_saved(meta: Option<AlbumMeta>, form: AlbumForm, saved: AlbumMeta)
    requires
        call_ensures(metadata_save, (meta, form), saved),
    ensures
        saved.wiki matches Some(w) && w.content@ == form.wiki_desc@ && w.attribution@
            == form.wiki_attrib@ && (form.wiki_link@.len() > 0 ==> w.url is Some && w.url->0@
            == form.wiki_link@) && (form.wiki_link@.len() == 0 ==> w.url is None),
        form.mbid@.len() > 0 ==> saved.mbid is Some && saved.mbid->0@ == form.mbid@,
        form.mbid@.len() == 0 ==> saved.mbid is None,
{
    if let Some(w) = saved.wiki {
        assert(w@.content == w.content@);
        assert(w@.attribution == w.attribution@);
        assert(w@.url == opt_view(w.url));
    }
}

/// A backup hands over when the metadata on display and that of the server were
/// changed, as they were loaded or saved, and is possible only with both.
pub proof fn backups_know_both_ages(
    load: &mut BackupState,
    save: &mut BackupState,
    begin: &mut BackupState,
    fresh: &mut BackupState,
    loaded_at: i128,
    saved_at: i128,
    from_server: bool,
    available: bool,
    auto: bool,
    loaded: bool,
    saved: bool,
    overwrite: bool,
    request: Option<BackupRequest>,
    fresh_request: Option<BackupRequest>,
    new: BackupState,
)
    requires
        call_ensures(
            BackupState::on_loaded,
            (load, loaded_at, from_server, available, auto),
            loaded,
        ),
        *old(save) == *final(load),
        call_ensures(BackupState::on_saved, (save, Some(saved_at), available, auto), saved),
        *old(begin) == *final(save),
        call_ensures(BackupState::begin, (begin, overwrite, true, true, true), request),
        call_ensures(BackupState::new, (), new),
        *old(fresh) == new,
        call_ensures(BackupState::begin, (fresh, overwrite, true, true, true), fresh_request),
    ensures
        request == Some(
            BackupRequest {
                old_last_modified: loaded_at,
                new_last_modified: saved_at,
                overwrite,
            },
        ),
        fresh_request is None,
        loaded == (!from_server && available && auto),
        saved == (available && auto),
        final(load).visible == (!from_server && available),
        final(save).visible == available,
{
}

/// A backup takes the cache, the metadata and the album; while it runs there is a
/// spinner.
pub proof fn backups_take_all_that_is_needed(
    state: &mut BackupState,
    overwrite: bool,
    has_cache: bool,
    has_meta: bool,
    has_album: bool,
    request: Option<BackupRequest>,
)
    requires
        call_ensures(BackupState::begin, (state, overwrite, has_cache, has_meta, has_album), request),
    ensures
        request is Some <==> has_cache && has_meta && has_album && old(state).old_last_modified
            is Some && old(state).new_last_modified is Some,
        request is Some ==> final(state).child == BackupChild::Spinner,
        request is None ==> *final(state) == *old(state),
{
}

/// After a backup that succeeded the server is as new as the display, and nothing
/// is left to back up; after one that failed the button is there again.
pub proof fn a_backup_brings_the_server_up_to_date(
    done: &mut BackupState,
    again: &mut BackupState,
    failed: &mut BackupState,
    request: BackupRequest,
    next: Option<BackupRequest>,
)
    requires
        call_ensures(BackupState::end, (done, request, true), ()),
        old(done).new_last_modified == Some(request.new_last_modified),
        *old(again) == *final(done),
        call_ensures(BackupState::begin, (again, false, true, true, true), next),
        call_ensures(BackupState::end, (failed, request, false), ()),
    ensures
        !final(done).visible,
        next matches Some(n) && n.old_last_modified == n.new_last_modified,
        final(failed).child == BackupChild::Button,
        final(failed).visible == old(failed).visible,
{
}

/// Without an album no backup can begin, until another one was loaded.
pub proof fn no_album_no_backup(
    unbind: &mut BackupState,
    begin: &mut BackupState,
    request: Option<BackupRequest>,
)
    requires
        call_ensures(BackupState::unbind, (unbind,), ()),
        *old(begin) == *final(unbind),
        call_ensures(BackupState::begin, (begin, true, true, true, true), request),
    ensures
        request is None,
        final(unbind).new_last_modified == old(unbind).new_last_modified,
{
}

/// The backup button is there if it is wanted and a backup can be made. Metadata
/// that could not be saved is not backed up.
pub proof fn the_backup_button_is_there_if_it_can_do_something(
    state: &mut BackupState,
    visible: bool,
    available: bool,
    can: bool,
    unsaved: &mut BackupState,
    auto: bool,
    backed_up: bool,
)
    requires
        call_ensures(BackupState::maybe_show_backup_metadata_btn, (state, visible, available), can),
        call_ensures(BackupState::on_saved, (unsaved, None, available, auto), backed_up),
    ensures
        can <==> visible && available,
        final(state).visible == can,
        final(state).old_last_modified == old(state).old_last_modified,
        final(state).new_last_modified == old(state).new_last_modified,
        !backed_up,
        !final(unsaved).visible,
        final(unsaved).new_last_modified == old(unsaved).new_last_modified,
{
}

/// The user is asked before anything newer is overwritten, unless the backup was
/// made on its own; of every failure the user is told.
pub proof fn newer_metadata_is_not_overwritten_unasked(
    message: String,
    silent: bool,
    done: BackupNext,
    asked: BackupNext,
    told: BackupNext,
    failed: BackupNext,
)
    requires
        call_ensures(backup_next, (&BackupOutcome::Done, silent), done),
        call_ensures(backup_next, (&BackupOutcome::AlreadyExists, false), asked),
        call_ensures(backup_next, (&BackupOutcome::AlreadyExists, true), told),
        call_ensures(backup_next, (&BackupOutcome::Failed(message), silent), failed),
    ensures
        done is Finish,
        asked is AskOverwrite,
        told matches BackupNext::Toast(text) && text@
            == "Couldn't back up metadata: MPD side is newer"@,
        failed matches BackupNext::Toast(text) && text@ == "Couldn't back up metadata: "@
            + message@,
{
}

/// Only the answer that says so overwrites.
pub proof fn only_one_answer_overwrites(response: &str, overwrite: bool)
    requires
        call_ensures(overwrite_chosen, (response,), overwrite),
    ensures
        overwrite <==> response@ == "overwrite"@,
{
}

/// Metadata is looked up for albums with a title only.
pub proof fn untitled_albums_are_not_looked_up(title: &str, titled: MetaPlan, none: MetaPlan)
    requires
        call_ensures(update_meta_plan, (Some(title),), titled),
        call_ensures(update_meta_plan, (None,), none),
    ensures
        none == MetaPlan::Nothing,
        titled == MetaPlan::Fetch <==> title@.len() > 0,
        titled == MetaPlan::Untitled <==> title@.len() == 0,
{
}

/// An article is shown with its attribution, and with its link if it has one;
/// without an article there is a placeholder.
pub proof fn articles_are_shown_with_their_links(
    wiki: Wiki,
    display: WikiDisplay,
    nothing: WikiDisplay,
)
    requires
        call_ensures(wiki_display, (&Some(wiki),), display),
        call_ensures(wiki_display, (&None,), nothing),
    ensures
        display.content matches Some(texts) && texts.0@ == wiki.content@ && texts.1@
            == wiki.attribution@,
        display.link_visible <==> wiki.url is Some,
        wiki.url matches Some(url) ==> display.link_uri@ == url@,
        nothing.content is None && !nothing.link_visible,
{
}

/// A MusicBrainz ID is shown with a link to its release; without one there is no
/// row.
pub proof fn ids_link_to_their_releases(id: String, row: MbidRow, without: MbidRow, uri: String, mbid: &str)
    requires
        mbid@ == id@,
        call_ensures(release_row, (&Some(id),), row),
        call_ensures(release_row, (&None,), without),
        call_ensures(release_uri, (mbid,), uri),
    ensures
        row.visible && !without.visible,
        row.link matches Some(link) && link.0@ == id@ && link.1@ == uri@,
        without.link is None,
        uri@ == "https://musicbrainz.org/release/"@ + id@,
{
}

/// Tags are shown if there are any.
pub proof fn some_tags_are_shown(tags: Vec<Tag>, shown: bool, unread: bool)
    requires
        call_ensures(shows_tags, (&Some(tags),), shown),
        call_ensures(shows_tags, (&None,), unread),
    ensures
        shown <==> tags@.len() > 0,
        !unread,
{
}

/// Playing a song of an album replaces the queue by the album, and plays from that
/// song on, as queueing the album does.
pub proof fn a_song_plays_with_its_album(
    album: &AlbumInfo,
    idx: u32,
    r: Vec<ClientCommand>,
)
    requires
        call_ensures(row_activated, (album, idx), r),
    ensures
        r@.len() == 3,
        r@[0] == ClientCommand::ClearQueue,
        r@[1] is FindAdd,
        r@[2] == (ClientCommand::PlayAt { position: idx }),
        r@[1] matches ClientCommand::FindAdd { query } && query@.len() >= 1 && query@[0].value@
            == album.title@,
{
    let told = crate::library::controller::commands(r@);
    assert(told.len() == r@.len());
    assert(told[0] == r@[0]@ && told[1] == r@[1]@ && told[2] == r@[2]@);
    if let ClientCommand::FindAdd { query } = r@[1] {
        let terms = crate::library::controller::terms(query@);
        assert(terms.len() == query@.len());
        assert(terms[0] == query@[0]@);
    }
}

/// Messages begin with what they are about.
pub proof fn messages_name_their_subject(
    time: &str,
    prefix: &str,
    message: &str,
    label: String,
    toast: String,
)
    requires
        call_ensures(last_updated_label, (time,), label),
        call_ensures(cache_error_toast, (prefix, message), toast),
    ensures
        label@ == "Last updated "@ + time@,
        toast@ == prefix@ + ": "@ + message@,
{
}

/// The texts of an article are its content, its link and its attribution; without an
/// article they are empty, and so is the text of a link that is missing.
pub proof fn articles_are_taken_apart(
    wiki: Wiki,
    texts: (String, String, String),
    empty: (String, String, String),
)
    requires
        call_ensures(wiki_texts, (&Some(wiki),), texts),
        call_ensures(wiki_texts, (&None,), empty),
    ensures
        texts.0@ == wiki.content@,
        wiki.url matches Some(url) ==> texts.1@ == url@,
        wiki.url is None ==> texts.1@.len() == 0,
        texts.2@ == wiki.attribution@,
        empty.0@.len() == 0 && empty.1@.len() == 0 && empty.2@.len() == 0,
{
    assert(wiki@.content == wiki.content@);
    assert(wiki@.attribution == wiki.attribution@);
    assert(wiki@.url == opt_view(wiki.url));
}

} // verus!
