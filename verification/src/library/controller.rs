//! The library controller: what is loaded, where the folder view is, and which
//! commands carry a request out.
use crate::common::{AlbumInfo, ArtistInfo, INode, SongInfo};
use crate::dates::{format_moment, is_moment, moment_text, moments_read_as_numbers, Timestamp};
use crate::library::discography::{
    self, found_songs, holds_latest, sectioned, song_before, ArtistContent,
};
use crate::library::tag::Tag;
use crate::meta_providers::models;
use crate::text::{join, join3, joined, signed_decimal, signed_string, views};
use vstd::prelude::*;

verus! {

/// A tag to search by.
#[derive(Clone, Copy, Debug, PartialEq, Eq, Structural)]
pub enum TagName {
    Album,
    AlbumArtist,
    Artist,
    AlbumMbid,
}

/// How to compare a tag with a value.
#[derive(Clone, Copy, Debug, PartialEq, Eq, Structural)]
pub enum QueryOperation {
    Equals,
    Contains,
}

/// One condition of a query; a song has to meet them all.
#[derive(Debug)]
pub struct QueryTerm {
    pub tag: TagName,
    pub operation: QueryOperation,
    pub value: String,
}

/// What a [`QueryTerm`] says.
pub struct TermView {
    pub tag: TagName,
    pub operation: QueryOperation,
    pub value: Seq<char>,
}

impl View for QueryTerm {
    type V = TermView;

    open spec fn view(&self) -> TermView {
        TermView { tag: self.tag, operation: self.operation, value: self.value@ }
    }
}

/// What the terms of a query say.
pub open spec fn terms(query: Seq<QueryTerm>) -> Seq<TermView> {
    query.map_values(|term: QueryTerm| term@)
}

/// A condition that a tag has exactly this value.
pub open spec fn equals(tag: TagName, value: Seq<char>) -> TermView {
    TermView { tag, operation: QueryOperation::Equals, value }
}

/// A condition that a tag has this value somewhere in it.
pub open spec fn holds(tag: TagName, value: Seq<char>) -> TermView {
    TermView { tag, operation: QueryOperation::Contains, value }
}

/// A change of a stored playlist.
#[derive(Debug)]
pub enum EditAction {
    Clear { playlist: String },
    /// Add a song at the end.
    Add { playlist: String, uri: String },
}

/// What an [`EditAction`] says.
pub enum EditView {
    Clear { playlist: Seq<char> },
    Add { playlist: Seq<char>, uri: Seq<char> },
}

impl View for EditAction {
    type V = EditView;

    open spec fn view(&self) -> EditView {
        match self {
            EditAction::Clear { playlist } => EditView::Clear { playlist: playlist@ },
            EditAction::Add { playlist, uri } => EditView::Add { playlist: playlist@, uri: uri@ },
        }
    }
}

/// What a list of changes says.
pub open spec fn edits(actions: Seq<EditAction>) -> Seq<EditView> {
    actions.map_values(|action: EditAction| action@)
}

/// A command to the music server.
#[derive(Debug)]
pub enum ClientCommand {
    ClearQueue,
    /// Add songs, or whole folders if `recursive`, at a position or at the end.
    AddMulti { uris: Vec<String>, recursive: bool, at: Option<usize> },
    /// Add all songs that a query finds.
    FindAdd { query: Vec<QueryTerm> },
    LoadPlaylist { name: String },
    QueueCachedDynamicPlaylist { name: String },
    /// Start playing at a position of the queue.
    PlayAt { position: u32 },
    SetAlbumRating { filter: String, value: String },
    DeleteAlbumRating { filter: String },
    EditPlaylist { actions: Vec<EditAction> },
    RenamePlaylist { from: String, to: String },
    DeletePlaylist { playlist: String },
}

/// What a [`ClientCommand`] says.
pub enum CommandView {
    ClearQueue,
    AddMulti { uris: Seq<Seq<char>>, recursive: bool, at: Option<usize> },
    FindAdd { query: Seq<TermView> },
    LoadPlaylist { name: Seq<char> },
    QueueCachedDynamicPlaylist { name: Seq<char> },
    PlayAt { position: u32 },
    SetAlbumRating { filter: Seq<char>, value: Seq<char> },
    DeleteAlbumRating { filter: Seq<char> },
    EditPlaylist { actions: Seq<EditView> },
    RenamePlaylist { from: Seq<char>, to: Seq<char> },
    DeletePlaylist { playlist: Seq<char> },
}

impl View for ClientCommand {
    type V = CommandView;

    open spec fn view(&self) -> CommandView {
        match self {
            ClientCommand::ClearQueue => CommandView::ClearQueue,
            ClientCommand::AddMulti { uris, recursive, at } => CommandView::AddMulti {
                uris: views(uris@),
                recursive: *recursive,
                at: *at,
            },
            ClientCommand::FindAdd { query } => CommandView::FindAdd { query: terms(query@) },
            ClientCommand::LoadPlaylist { name } => CommandView::LoadPlaylist { name: name@ },
            ClientCommand::QueueCachedDynamicPlaylist { name } => {
                CommandView::QueueCachedDynamicPlaylist { name: name@ }
            },
            ClientCommand::PlayAt { position } => CommandView::PlayAt { position: *position },
            ClientCommand::SetAlbumRating { filter, value } => CommandView::SetAlbumRating {
                filter: filter@,
                value: value@,
            },
            ClientCommand::DeleteAlbumRating { filter } => CommandView::DeleteAlbumRating {
                filter: filter@,
            },
            ClientCommand::EditPlaylist { actions } => CommandView::EditPlaylist {
                actions: edits(actions@),
            },
            ClientCommand::RenamePlaylist { from, to } => CommandView::RenamePlaylist {
                from: from@,
                to: to@,
            },
            ClientCommand::DeletePlaylist { playlist } => CommandView::DeletePlaylist {
                playlist: playlist@,
            },
        }
    }
}

/// What a list of commands says. Each is only sent once the one before it has
/// succeeded.
pub open spec fn commands(plan: Seq<ClientCommand>) -> Seq<CommandView> {
    plan.map_values(|command: ClientCommand| command@)
}

/// Queueing something: if wanted, the queue is emptied first, and playing starts
/// at a position afterwards.
pub open spec fn queueing(replace: bool, addition: CommandView, play: Option<u32>) -> Seq<
    CommandView,
> {
    (if replace {
        seq![CommandView::ClearQueue]
    } else {
        Seq::empty()
    }) + seq![addition] + (match play {
        Some(position) => seq![CommandView::PlayAt { position }],
        None => Seq::empty(),
    })
}

fn plan(replace: bool, addition: ClientCommand, play: Option<u32>) -> (r: Vec<ClientCommand>)
    ensures
        commands(r@) == queueing(replace, addition@, play),
{
    let ghost added = addition@;
    let mut out: Vec<ClientCommand> = Vec::new();
    if replace {
        out.push(ClientCommand::ClearQueue);
    }
    out.push(addition);
    if let Some(position) = play {
        out.push(ClientCommand::PlayAt { position });
    }
    assert(commands(out@) =~= queueing(replace, added, play));
    out
}

fn copy_all(uris: &Vec<String>) -> (r: Vec<String>)
    ensures
        views(r@) == views(uris@),
{
    let mut out: Vec<String> = Vec::new();
    for i in 0..uris.len()
        invariant
            out.len() == i,
            forall|j: int| 0 <= j < i ==> #[trigger] out@[j] == uris@[j],
    {
        out.push(uris[i].clone());
    }
    assert(views(out@) =~= views(uris@));
    out
}

fn start_of(play: bool) -> (r: Option<u32>)
    ensures
        r == start(play),
{
    if play {
        Some(0)
    } else {
        None
    }
}

/// Stored tags as the lists have them; none if they could not be read.
pub open spec fn tags_shown(stored: Option<Vec<models::Tag>>) -> Seq<Tag> {
    match stored {
        Some(tags) => tags@.map_values(|tag: models::Tag| Tag::shown(tag)),
        None => Seq::empty(),
    }
}

fn shown_tags(stored: Option<Vec<models::Tag>>) -> (r: Vec<Tag>)
    ensures
        r@ == tags_shown(stored),
{
    let mut out: Vec<Tag> = Vec::new();
    if let Some(tags) = stored {
        for tag in rest: tags.into_iter()
            invariant
                rest.seq() == tags@,
                out.len() == rest.index(),
                forall|i: int| 0 <= i < out.len() ==> #[trigger] out@[i] == Tag::shown(tags@[i]),
        {
            out.push(Tag::from(tag));
        }
    }
    assert(out@ =~= tags_shown(stored));
    out
}

/// Playing, if wanted, starts at the head of the queue.
pub open spec fn start(play: bool) -> Option<u32> {
    if play {
        Some(0u32)
    } else {
        None
    }
}

/// How the server supports stickers, from least to most.
#[derive(Clone, Copy, Debug, PartialEq, Eq, Structural)]
pub enum StickersSupportLevel {
    Disabled,
    SongsOnly,
    All,
}

/// How to save songs into a playlist.
#[derive(Clone, Copy, Debug, PartialEq, Eq, Structural)]
pub enum SaveMode {
    Create,
    Append,
    Replace,
}

/// The query for the songs of an album: by MusicBrainz ID, else by title and,
/// where there is one, album artist.
pub open spec fn album_songs_terms(album: AlbumInfo) -> Seq<TermView> {
    match album.mbid {
        Some(mbid) => seq![equals(TagName::AlbumMbid, mbid@)],
        None => seq![equals(TagName::Album, album.title@)] + (match album.artist_tag {
            Some(artist) => seq![equals(TagName::AlbumArtist, artist@)],
            None => Seq::empty(),
        }),
    }
}

/// The query that an album is queued by: title, and album artist and MusicBrainz
/// ID where there are any.
pub open spec fn queue_album_terms(album: AlbumInfo) -> Seq<TermView> {
    seq![equals(TagName::Album, album.title@)] + (match album.artist_tag {
        Some(artist) => seq![equals(TagName::AlbumArtist, artist@)],
        None => Seq::empty(),
    }) + (match album.mbid {
        Some(mbid) => seq![equals(TagName::AlbumMbid, mbid@)],
        None => Seq::empty(),
    })
}

/// The changes that put songs into a playlist: all at the end, in their order;
/// to replace the contents, the playlist is emptied first.
pub open spec fn playlist_edits(
    playlist: Seq<char>,
    uris: Seq<Seq<char>>,
    mode: SaveMode,
) -> Seq<EditView> {
    (if mode == SaveMode::Replace {
        seq![EditView::Clear { playlist }]
    } else {
        Seq::empty()
    }) + uris.map_values(|uri: Seq<char>| EditView::Add { playlist, uri })
}

/// What the library has loaded, and where its folder view is.
pub struct LibraryView {
    pub recent_initialized: bool,
    pub playlists_initialized: bool,
    pub dyn_playlists_initialized: bool,
    pub albums_and_albumartists_initialized: bool,
    pub artists_initialized: bool,
    pub genres_initialized: bool,
    pub folder_inodes_initialized: bool,
    /// The folders that were entered, from the root down.
    pub trail: Seq<Seq<char>>,
    /// How many of them lead to the current folder; 0 is the root.
    pub depth: int,
    pub recent_songs: Seq<SongInfo>,
    pub recent_albums: Seq<AlbumInfo>,
    pub recent_artists: Seq<ArtistInfo>,
    pub playlists: Seq<INode>,
    pub dyn_playlists: Seq<INode>,
    pub albums: Seq<AlbumInfo>,
    pub album_tags: Seq<Tag>,
    pub albumartists: Seq<ArtistInfo>,
    pub artists: Seq<ArtistInfo>,
    pub artist_tags: Seq<Tag>,
    pub genres: Seq<Tag>,
    pub folder_inodes: Seq<INode>,
}

impl LibraryView {
    /// The current folder lies on the path that was taken.
    pub open spec fn wf(self) -> bool {
        0 <= self.depth <= self.trail.len() <= u32::MAX
    }

    /// The folders that lead to the current one.
    pub open spec fn folders(self) -> Seq<Seq<char>> {
        self.trail.take(self.depth)
    }

    /// The path of the current folder. The root has an empty path.
    pub open spec fn path(self) -> Seq<char> {
        joined(self.folders(), "/"@)
    }

    /// Nothing is loaded, all lists are empty, and the folder view is at the root.
    pub open spec fn fresh() -> LibraryView {
        LibraryView {
            recent_initialized: false,
            playlists_initialized: false,
            dyn_playlists_initialized: false,
            albums_and_albumartists_initialized: false,
            artists_initialized: false,
            genres_initialized: false,
            folder_inodes_initialized: false,
            trail: Seq::empty(),
            depth: 0,
            recent_songs: Seq::empty(),
            recent_albums: Seq::empty(),
            recent_artists: Seq::empty(),
            playlists: Seq::empty(),
            dyn_playlists: Seq::empty(),
            albums: Seq::empty(),
            album_tags: Seq::empty(),
            albumartists: Seq::empty(),
            artists: Seq::empty(),
            artist_tags: Seq::empty(),
            genres: Seq::empty(),
            folder_inodes: Seq::empty(),
        }
    }

    /// After entering the folder `name`. Folders that were left behind are
    /// forgotten.
    pub open spec fn entered(self, name: Seq<char>) -> LibraryView {
        LibraryView {
            trail: self.folders().push(name),
            depth: self.depth + 1,
            folder_inodes_initialized: false,
            ..self
        }
    }

    /// After going up one folder.
    pub open spec fn went_back(self) -> LibraryView {
        LibraryView { depth: self.depth - 1, folder_inodes_initialized: false, ..self }
    }

    /// After going back down one folder.
    pub open spec fn went_forward(self) -> LibraryView {
        LibraryView { depth: self.depth + 1, folder_inodes_initialized: false, ..self }
    }

    /// The contents of the folder are being loaded, unless they are loaded.
    pub open spec fn loading_folder(self) -> LibraryView {
        if self.folder_inodes_initialized {
            self
        } else {
            LibraryView {
                folder_inodes_initialized: true,
                folder_inodes: Seq::empty(),
                ..self
            }
        }
    }

    /// The albums and their artists are being loaded, unless they are loaded.
    pub open spec fn loading_albums(self) -> LibraryView {
        if self.albums_and_albumartists_initialized {
            self
        } else {
            LibraryView {
                albums_and_albumartists_initialized: true,
                albums: Seq::empty(),
                albumartists: Seq::empty(),
                ..self
            }
        }
    }

    /// The albums with their artists and then the artists are being loaded, as far
    /// as they are not loaded.
    pub open spec fn loading_artists(self) -> LibraryView {
        let albums = self.loading_albums();
        if self.artists_initialized {
            albums
        } else {
            LibraryView { artists_initialized: true, artists: Seq::empty(), ..albums }
        }
    }

    /// The albums and their artists have come.
    pub open spec fn with_albums(
        self,
        albums: Seq<AlbumInfo>,
        albumartists: Seq<ArtistInfo>,
    ) -> LibraryView {
        LibraryView { albums, albumartists, ..self }
    }

    /// The artists have come.
    pub open spec fn with_artists(self, artists: Seq<ArtistInfo>) -> LibraryView {
        LibraryView { artists, ..self }
    }

    /// The contents of the folder have come.
    pub open spec fn with_folder(self, folder_inodes: Seq<INode>) -> LibraryView {
        LibraryView { folder_inodes, ..self }
    }
}

/// A genre as the lists have it: a tag that stays.
pub open spec fn genre_tag(genre: String) -> Tag {
    Tag { name: genre, count: 1, link: None, removable: false, set_by_user: false }
}

/// The library: what is loaded, and where its folder view is.
#[derive(Debug)]
pub struct Library {
    recent_initialized: bool,
    playlists_initialized: bool,
    dyn_playlists_initialized: bool,
    albums_and_albumartists_initialized: bool,
    artists_initialized: bool,
    genres_initialized: bool,
    folder_inodes_initialized: bool,
    folder_history: Vec<String>,
    folder_curr_idx: u32,
    recent_songs: Vec<SongInfo>,
    recent_albums: Vec<AlbumInfo>,
    recent_artists: Vec<ArtistInfo>,
    playlists: Vec<INode>,
    dyn_playlists: Vec<INode>,
    albums: Vec<AlbumInfo>,
    album_tags: Vec<Tag>,
    albumartists: Vec<ArtistInfo>,
    artists: Vec<ArtistInfo>,
    artist_tags: Vec<Tag>,
    genres: Vec<Tag>,
    folder_inodes: Vec<INode>,
}

impl View for Library {
    type V = LibraryView;

    closed spec fn view(&self) -> LibraryView {
        LibraryView {
            recent_initialized: self.recent_initialized,
            playlists_initialized: self.playlists_initialized,
            dyn_playlists_initialized: self.dyn_playlists_initialized,
            albums_and_albumartists_initialized: self.albums_and_albumartists_initialized,
            artists_initialized: self.artists_initialized,
            genres_initialized: self.genres_initialized,
            folder_inodes_initialized: self.folder_inodes_initialized,
            trail: views(self.folder_history@),
            depth: self.folder_curr_idx as int,
            recent_songs: self.recent_songs@,
            recent_albums: self.recent_albums@,
            recent_artists: self.recent_artists@,
            playlists: self.playlists@,
            dyn_playlists: self.dyn_playlists@,
            albums: self.albums@,
            album_tags: self.album_tags@,
            albumartists: self.albumartists@,
            artists: self.artists@,
            artist_tags: self.artist_tags@,
            genres: self.genres@,
            folder_inodes: self.folder_inodes@,
        }
    }
}

impl Library {
    /// A library with nothing loaded.
    pub fn new() -> (r: Library)
        ensures
            r@ == LibraryView::fresh(),
            r@.wf(),
    {
        let r: Library = Library {
            recent_initialized: false,
            playlists_initialized: false,
            dyn_playlists_initialized: false,
            albums_and_albumartists_initialized: false,
            artists_initialized: false,
            genres_initialized: false,
            folder_inodes_initialized: false,
            folder_history: Vec::new(),
            folder_curr_idx: 0,
            recent_songs: Vec::new(),
            recent_albums: Vec::new(),
            recent_artists: Vec::new(),
            playlists: Vec::new(),
            dyn_playlists: Vec::new(),
            albums: Vec::new(),
            album_tags: Vec::new(),
            albumartists: Vec::new(),
            artists: Vec::new(),
            artist_tags: Vec::new(),
            genres: Vec::new(),
            folder_inodes: Vec::new(),
        };
        assert(r@.trail =~= Seq::empty());
        r
    }

    /// Forgets everything, as on a new connection.
    pub fn clear(&mut self)
        ensures
            final(self)@ == LibraryView::fresh(),
            final(self)@.wf(),
    {
        *self = Library::new();
    }

    /// The songs that were played last.
    pub fn recent_songs(&self) -> (r: &Vec<SongInfo>)
        ensures
            r@ == self@.recent_songs,
    {
        &self.recent_songs
    }

    /// The albums that were played last.
    pub fn recent_albums(&self) -> (r: &Vec<AlbumInfo>)
        ensures
            r@ == self@.recent_albums,
    {
        &self.recent_albums
    }

    /// The artists that were played last.
    pub fn recent_artists(&self) -> (r: &Vec<ArtistInfo>)
        ensures
            r@ == self@.recent_artists,
    {
        &self.recent_artists
    }

    /// The playlists.
    pub fn playlists(&self) -> (r: &Vec<INode>)
        ensures
            r@ == self@.playlists,
    {
        &self.playlists
    }

    /// The dynamic playlists.
    pub fn dyn_playlists(&self) -> (r: &Vec<INode>)
        ensures
            r@ == self@.dyn_playlists,
    {
        &self.dyn_playlists
    }

    /// The albums.
    pub fn albums(&self) -> (r: &Vec<AlbumInfo>)
        ensures
            r@ == self@.albums,
    {
        &self.albums
    }

    /// The tags of all albums.
    pub fn album_tags(&self) -> (r: &Vec<Tag>)
        ensures
            r@ == self@.album_tags,
    {
        &self.album_tags
    }

    /// The album artists.
    pub fn album_artists(&self) -> (r: &Vec<ArtistInfo>)
        ensures
            r@ == self@.albumartists,
    {
        &self.albumartists
    }

    /// The artists.
    pub fn artists(&self) -> (r: &Vec<ArtistInfo>)
        ensures
            r@ == self@.artists,
    {
        &self.artists
    }

    /// The tags of all artists.
    pub fn artist_tags(&self) -> (r: &Vec<Tag>)
        ensures
            r@ == self@.artist_tags,
    {
        &self.artist_tags
    }

    /// The genres.
    pub fn genres(&self) -> (r: &Vec<Tag>)
        ensures
            r@ == self@.genres,
    {
        &self.genres
    }

    /// What is in the current folder.
    pub fn folder_inodes(&self) -> (r: &Vec<INode>)
        ensures
            r@ == self@.folder_inodes,
    {
        &self.folder_inodes
    }

    /// How many folders lead to the current one.
    pub fn folder_curr_idx(&self) -> (r: u32)
        ensures
            r == self@.depth,
    {
        self.folder_curr_idx
    }

    /// How many folders can be gone through.
    pub fn folder_history_len(&self) -> (r: u32)
        requires
            self@.wf(),
        ensures
            r == self@.trail.len(),
    {
        self.folder_history.len() as u32
    }

    /// The path of the current folder. The root has an empty path.
    pub fn folder_path(&self) -> (r: String)
        requires
            self@.wf(),
        ensures
            r@ == self@.path(),
    {
        if self.folder_history.len() > 0 && self.folder_curr_idx > 0 {
            join(&self.folder_history, self.folder_curr_idx as usize, "/")
        } else {
            String::new()
        }
    }

    /// Goes up one folder. Returns whether there was one, and the contents are
    /// to be loaded.
    pub fn folder_backward(&mut self) -> (r: bool)
        requires
            old(self)@.wf(),
        ensures
            final(self)@.wf(),
            r == (old(self)@.depth > 0),
            final(self)@ == (if r {
                old(self)@.went_back()
            } else {
                old(self)@
            }),
    {
        if self.folder_curr_idx > 0 {
            self.folder_curr_idx = self.folder_curr_idx - 1;
            self.folder_inodes_initialized = false;
            true
        } else {
            false
        }
    }

    /// Goes back down to the folder that was left last. Returns whether there
    /// was one, and the contents are to be loaded.
    pub fn folder_forward(&mut self) -> (r: bool)
        requires
            old(self)@.wf(),
        ensures
            final(self)@.wf(),
            r == (old(self)@.depth < old(self)@.trail.len()),
            final(self)@ == (if r {
                old(self)@.went_forward()
            } else {
                old(self)@
            }),
    {
        if self.folder_curr_idx < self.folder_history.len() as u32 {
            self.folder_curr_idx = self.folder_curr_idx + 1;
            self.folder_inodes_initialized = false;
            true
        } else {
            false
        }
    }

    /// Enters a folder of the current one. Folders that were left behind can no
    /// longer be gone forward to.
    pub fn navigate_to(&mut self, name: &str)
        requires
            old(self)@.wf(),
            old(self)@.depth < u32::MAX,
        ensures
            final(self)@.wf(),
            final(self)@ == old(self)@.entered(name@),
    {
        let curr_idx: u32 = self.folder_curr_idx;
        if curr_idx < self.folder_history.len() as u32 {
            self.folder_history.truncate(curr_idx as usize);
        }
        self.folder_history.push(name.to_owned());
        assert(self@.trail =~= old(self)@.folders().push(name@));
        self.folder_inodes_initialized = false;
        self.folder_forward();
    }

    /// Begins to load the contents of the current folder, unless they are loaded.
    /// Returns the path to load them from.
    pub fn get_folder_contents(&mut self) -> (r: Option<String>)
        requires
            old(self)@.wf(),
        ensures
            final(self)@.wf(),
            final(self)@ == old(self)@.loading_folder(),
            match r {
                Some(path) => !old(self)@.folder_inodes_initialized && path@ == old(self)@.path(),
                None => old(self)@.folder_inodes_initialized,
            },
    {
        if self.folder_inodes_initialized {
            None
        } else {
            self.folder_inodes_initialized = true;
            self.folder_inodes.clear();
            assert(self@.folder_inodes =~= Seq::empty());
            Some(self.folder_path())
        }
    }

    /// The contents of the current folder have come.
    pub fn fill_folder(&mut self, nodes: Vec<INode>)
        ensures
            final(self)@ == old(self)@.with_folder(nodes@),
    {
        self.folder_inodes = nodes;
    }

    /// Begins to load the playlists, unless they are loaded and not to be loaded
    /// again. Returns whether to ask for them.
    pub fn init_playlists(&mut self, refresh: bool) -> (r: bool)
        ensures
            r == (refresh || !old(self)@.playlists_initialized),
            final(self)@ == (if r {
                LibraryView {
                    playlists_initialized: true,
                    playlists: Seq::empty(),
                    ..old(self)@
                }
            } else {
                old(self)@
            }),
    {
        let load: bool = refresh || !self.playlists_initialized;
        if load {
            self.playlists_initialized = true;
            self.playlists.clear();
            assert(self@.playlists =~= Seq::empty());
        }
        load
    }

    /// The playlists have come.
    pub fn fill_playlists(&mut self, nodes: Vec<INode>)
        ensures
            final(self)@ == (LibraryView { playlists: nodes@, ..old(self)@ }),
    {
        self.playlists = nodes;
    }

    /// Begins to load the dynamic playlists.
    pub fn init_dyn_playlists(&mut self, refresh: bool) -> (r: bool)
        ensures
            r == (refresh || !old(self)@.dyn_playlists_initialized),
            final(self)@ == (if r {
                LibraryView {
                    dyn_playlists_initialized: true,
                    dyn_playlists: Seq::empty(),
                    ..old(self)@
                }
            } else {
                old(self)@
            }),
    {
        let load: bool = refresh || !self.dyn_playlists_initialized;
        if load {
            self.dyn_playlists_initialized = true;
            self.dyn_playlists.clear();
            assert(self@.dyn_playlists =~= Seq::empty());
        }
        load
    }

    /// The dynamic playlists have come.
    pub fn fill_dyn_playlists(&mut self, nodes: Vec<INode>)
        ensures
            final(self)@ == (LibraryView { dyn_playlists: nodes@, ..old(self)@ }),
    {
        self.dyn_playlists = nodes;
    }

    /// Begins to load what was played last, songs first.
    pub fn init_recent(&mut self, refresh: bool) -> (r: bool)
        ensures
            r == (refresh || !old(self)@.recent_initialized),
            final(self)@ == (if r {
                LibraryView {
                    recent_initialized: true,
                    recent_songs: Seq::empty(),
                    ..old(self)@
                }
            } else {
                old(self)@
            }),
    {
        let load: bool = refresh || !self.recent_initialized;
        if load {
            self.recent_initialized = true;
            self.recent_songs.clear();
            assert(self@.recent_songs =~= Seq::empty());
        }
        load
    }

    /// The songs that were played last have come, and the albums are next.
    pub fn fill_recent_songs(&mut self, songs: Vec<SongInfo>)
        ensures
            final(self)@ == (LibraryView {
                recent_songs: songs@,
                recent_albums: Seq::empty(),
                ..old(self)@
            }),
    {
        self.recent_songs = songs;
        self.recent_albums.clear();
        assert(self@.recent_albums =~= Seq::empty());
    }

    /// The albums that were played last have come, and the artists are next.
    pub fn fill_recent_albums(&mut self, albums: Vec<AlbumInfo>)
        ensures
            final(self)@ == (LibraryView {
                recent_albums: albums@,
                recent_artists: Seq::empty(),
                ..old(self)@
            }),
    {
        self.recent_albums = albums;
        self.recent_artists.clear();
        assert(self@.recent_artists =~= Seq::empty());
    }

    /// The artists that were played last have come.
    pub fn fill_recent_artists(&mut self, artists: Vec<ArtistInfo>)
        ensures
            final(self)@ == (LibraryView { recent_artists: artists@, ..old(self)@ }),
    {
        self.recent_artists = artists;
    }

    /// Forgets the songs that were played last.
    pub fn clear_recent_songs(&mut self)
        ensures
            final(self)@ == (LibraryView { recent_songs: Seq::empty(), ..old(self)@ }),
    {
        self.recent_songs.clear();
        assert(self@.recent_songs =~= Seq::empty());
    }

    /// Begins to load the genres.
    pub fn init_genres(&mut self) -> (r: bool)
        ensures
            r == !old(self)@.genres_initialized,
            final(self)@ == (if r {
                LibraryView { genres_initialized: true, genres: Seq::empty(), ..old(self)@ }
            } else {
                old(self)@
            }),
    {
        let load: bool = !self.genres_initialized;
        if load {
            self.genres_initialized = true;
            self.genres.clear();
            assert(self@.genres =~= Seq::empty());
        }
        load
    }

    /// Some genres have come, behind those that came before.
    pub fn add_genres(&mut self, genres: Vec<String>)
        ensures
            final(self)@ == (LibraryView {
                genres: old(self)@.genres + genres@.map_values(|genre: String| genre_tag(genre)),
                ..old(self)@
            }),
    {
        let ghost all = genres@;
        let ghost before = self@;
        for genre in rest: genres.into_iter()
            invariant
                rest.seq() == all,
                self@ == (LibraryView {
                    genres: before.genres + all.take(rest.index()).map_values(
                        |genre: String| genre_tag(genre),
                    ),
                    ..before
                }),
        {
            let ghost soon = all.take(rest.index() + 1).map_values(
                |genre: String| genre_tag(genre),
            );
            self.genres.push(Tag::new(genre, None, None, false, false));
            assert(self@.genres =~= before.genres + soon);
        }
        assert(all.take(all.len() as int) =~= all);
    }

    /// Begins to load the albums, and with them the album artists.
    pub fn init_albums_and_albumartists(&mut self) -> (r: bool)
        ensures
            r == !old(self)@.albums_and_albumartists_initialized,
            final(self)@ == old(self)@.loading_albums(),
    {
        let load: bool = !self.albums_and_albumartists_initialized;
        if load {
            self.albums_and_albumartists_initialized = true;
            self.albums.clear();
            self.albumartists.clear();
            assert(self@.albums =~= Seq::empty());
            assert(self@.albumartists =~= Seq::empty());
        }
        load
    }

    /// The albums and the album artists have come.
    pub fn fill_albums_and_albumartists(
        &mut self,
        albums: Vec<AlbumInfo>,
        albumartists: Vec<ArtistInfo>,
    )
        ensures
            final(self)@ == old(self)@.with_albums(albums@, albumartists@),
    {
        self.albums = albums;
        self.albumartists = albumartists;
    }

    /// Whether to load the album artists, which come with the albums, and whether
    /// to load the artists after them.
    pub fn init_artists(&mut self) -> (r: (bool, bool))
        ensures
            r.0 == !old(self)@.albums_and_albumartists_initialized,
            r.1 == !old(self)@.artists_initialized,
            final(self)@ == old(self)@.loading_artists(),
    {
        let load_albums: bool = self.init_albums_and_albumartists();
        let load_artists: bool = !self.artists_initialized;
        if load_artists {
            self.artists_initialized = true;
            self.artists.clear();
            assert(self@.artists =~= Seq::empty());
        }
        (load_albums, load_artists)
    }

    /// The artists have come.
    pub fn fill_artists(&mut self, artists: Vec<ArtistInfo>)
        ensures
            final(self)@ == old(self)@.with_artists(artists@),
    {
        self.artists = artists;
    }

    /// The albums could not be loaded, and so the artists behind them were not
    /// asked for. If they were due, they still are.
    pub fn artists_not_reached(&mut self, were_due: bool)
        ensures
            final(self)@ == (LibraryView {
                artists_initialized: old(self)@.artists_initialized && !were_due,
                ..old(self)@
            }),
    {
        if were_due {
            self.artists_initialized = false;
        }
    }

    /// Loads the tags of all albums anew, as they are stored; `None` if they could
    /// not be read.
    pub fn refresh_album_tags(&mut self, stored: Option<Vec<models::Tag>>)
        ensures
            final(self)@ == (LibraryView { album_tags: tags_shown(stored), ..old(self)@ }),
    {
        self.album_tags = shown_tags(stored);
    }

    /// Loads the tags of all artists anew.
    pub fn refresh_artist_tags(&mut self, stored: Option<Vec<models::Tag>>)
        ensures
            final(self)@ == (LibraryView { artist_tags: tags_shown(stored), ..old(self)@ }),
    {
        self.artist_tags = shown_tags(stored);
    }

    /// The query for the songs of an album.
    pub fn get_album_songs(album: &AlbumInfo) -> (r: Vec<QueryTerm>)
        ensures
            terms(r@) == album_songs_terms(*album),
    {
        let mut query: Vec<QueryTerm> = Vec::new();
        match &album.mbid {
            Some(mbid) => {
                query.push(term(TagName::AlbumMbid, mbid.as_str()));
            },
            None => {
                query.push(term(TagName::Album, album.title.as_str()));
                if let Some(artist) = &album.artist_tag {
                    query.push(term(TagName::AlbumArtist, artist.as_str()));
                }
            },
        }
        assert(terms(query@) =~= album_songs_terms(*album));
        query
    }

    /// Queues songs.
    pub fn queue_songs(uris: &Vec<String>, replace: bool, play: bool) -> (r: Vec<ClientCommand>)
        ensures
            commands(r@) == queueing(
                replace,
                CommandView::AddMulti { uris: views(uris@), recursive: false, at: None },
                start(play),
            ),
    {
        plan(
            replace,
            ClientCommand::AddMulti { uris: copy_all(uris), recursive: false, at: None },
            start_of(play),
        )
    }

    /// Queues songs right behind the current one, or at the head of the queue
    /// if there is none.
    pub fn insert_songs_next(uris: &Vec<String>, queue_pos: Option<u32>) -> (r: ClientCommand)
        requires
            queue_pos matches Some(pos) ==> pos < u32::MAX,
        ensures
            r@ == (CommandView::AddMulti {
                uris: views(uris@),
                recursive: false,
                at: Some(
                    match queue_pos {
                        Some(pos) => (pos + 1) as usize,
                        None => 0usize,
                    },
                ),
            }),
    {
        let position: u32 = match queue_pos {
            Some(current) => current + 1,
            None => 0,
        };
        ClientCommand::AddMulti {
            uris: copy_all(uris),
            recursive: false,
            at: Some(position as usize),
        }
    }

    /// Queues all songs of an album, and may play from one of them on.
    pub fn queue_album(
        album: &AlbumInfo,
        replace: bool,
        play: bool,
        play_from: Option<u32>,
    ) -> (r: Vec<ClientCommand>)
        ensures
            commands(r@) == queueing(
                replace,
                CommandView::FindAdd { query: queue_album_terms(*album) },
                if play {
                    Some(
                        match play_from {
                            Some(from) => from,
                            None => 0u32,
                        },
                    )
                } else {
                    None
                },
            ),
    {
        let mut query: Vec<QueryTerm> = Vec::new();
        query.push(term(TagName::Album, album.title.as_str()));
        if let Some(artist) = &album.artist_tag {
            query.push(term(TagName::AlbumArtist, artist.as_str()));
        }
        if let Some(mbid) = &album.mbid {
            query.push(term(TagName::AlbumMbid, mbid.as_str()));
        }
        assert(terms(query@) =~= queue_album_terms(*album));
        let from: Option<u32> = if play {
            Some(
                match play_from {
                    Some(from) => from,
                    None => 0,
                },
            )
        } else {
            None
        };
        plan(replace, ClientCommand::FindAdd { query }, from)
    }

    /// Sets or clears the rating of the album that a filter stands for.
    pub fn rate_album(filter: &str, score: Option<i8>) -> (r: ClientCommand)
        ensures
            r@ == (match score {
                Some(score) => CommandView::SetAlbumRating {
                    filter: filter@,
                    value: signed_decimal(score as int),
                },
                None => CommandView::DeleteAlbumRating { filter: filter@ },
            }),
    {
        match score {
            Some(score) => ClientCommand::SetAlbumRating {
                filter: filter.to_owned(),
                value: signed_string(score as i64),
            },
            None => ClientCommand::DeleteAlbumRating { filter: filter.to_owned() },
        }
    }

    /// Queues all songs by an artist, or all on albums by that artist.
    pub fn queue_artist(name: &str, use_albumartist: bool, replace: bool, play: bool) -> (r: Vec<
        ClientCommand,
    >)
        ensures
            commands(r@) == queueing(
                replace,
                CommandView::FindAdd {
                    query: seq![
                        holds(
                            if use_albumartist {
                                TagName::AlbumArtist
                            } else {
                                TagName::Artist
                            },
                            name@,
                        ),
                    ],
                },
                start(play),
            ),
    {
        let tag: TagName = if use_albumartist {
            TagName::AlbumArtist
        } else {
            TagName::Artist
        };
        let mut query: Vec<QueryTerm> = Vec::new();
        query.push(QueryTerm { tag, operation: QueryOperation::Contains, value: name.to_owned() });
        assert(terms(query@) =~= seq![holds(tag, name@)]);
        plan(replace, ClientCommand::FindAdd { query }, start_of(play))
    }

    /// Queues a song, or a folder if `recursive`.
    pub fn queue_uri(uri: &str, replace: bool, play: bool, recursive: bool) -> (r: Vec<
        ClientCommand,
    >)
        ensures
            commands(r@) == queueing(
                replace,
                CommandView::AddMulti { uris: seq![uri@], recursive, at: None },
                start(play),
            ),
    {
        let mut uris: Vec<String> = Vec::new();
        uris.push(uri.to_owned());
        assert(views(uris@) =~= seq![uri@]);
        plan(
            replace,
            ClientCommand::AddMulti { uris, recursive, at: None },
            start_of(play),
        )
    }

    /// Queues a playlist.
    pub fn queue_playlist(name: &str, replace: bool, play: bool) -> (r: Vec<ClientCommand>)
        ensures
            commands(r@) == queueing(
                replace,
                CommandView::LoadPlaylist { name: name@ },
                start(play),
            ),
    {
        plan(replace, ClientCommand::LoadPlaylist { name: name.to_owned() }, start_of(play))
    }

    /// Queues the last results of a dynamic playlist.
    pub fn queue_cached_dynamic_playlist(name: &str, replace: bool, play: bool) -> (r: Vec<
        ClientCommand,
    >)
        ensures
            commands(r@) == queueing(
                replace,
                CommandView::QueueCachedDynamicPlaylist { name: name@ },
                start(play),
            ),
    {
        plan(
            replace,
            ClientCommand::QueueCachedDynamicPlaylist { name: name.to_owned() },
            start_of(play),
        )
    }

    /// The command that gives a playlist another name.
    pub fn rename_playlist(old_name: String, new_name: String) -> (r: ClientCommand)
        ensures
            r@ == (CommandView::RenamePlaylist { from: old_name@, to: new_name@ }),
    {
        ClientCommand::RenamePlaylist { from: old_name, to: new_name }
    }

    /// The command that deletes a playlist. Once it has succeeded, the playlists
    /// are to be loaded again.
    pub fn delete_playlist(name: String) -> (r: ClientCommand)
        ensures
            r@ == (CommandView::DeletePlaylist { playlist: name@ }),
    {
        ClientCommand::DeletePlaylist { playlist: name }
    }

    /// Puts songs into a playlist.
    pub fn add_songs_to_playlist(
        playlist_name: &str,
        uris: &Vec<String>,
        mode: SaveMode,
    ) -> (r: Vec<EditAction>)
        ensures
            edits(r@) == playlist_edits(playlist_name@, views(uris@), mode),
    {
        let mut actions: Vec<EditAction> = Vec::new();
        let replace: bool = matches!(mode, SaveMode::Replace);
        if replace {
            actions.push(EditAction::Clear { playlist: playlist_name.to_owned() });
        }
        let ghost head = edits(actions@);
        for i in 0..uris.len()
            invariant
                edits(actions@) == head + views(uris@).take(i as int).map_values(
                    |uri: Seq<char>| EditView::Add { playlist: playlist_name@, uri },
                ),
        {
            let ghost before = actions@;
            actions.push(
                EditAction::Add { playlist: playlist_name.to_owned(), uri: uris[i].clone() },
            );
            assert(edits(actions@) =~= edits(before).push(actions@.last()@));
            assert(views(uris@).take(i + 1) =~= views(uris@).take(i as int).push(uris@[i as int]@));
            assert(edits(actions@) =~= head + views(uris@).take(i + 1).map_values(
                |uri: Seq<char>| EditView::Add { playlist: playlist_name@, uri },
            ));
        }
        assert(views(uris@).take(uris.len() as int) =~= views(uris@));
        actions
    }

    /// Saves the results of a dynamic playlist as a playlist of its own, named
    /// after it and the time. There is nothing to save without results.
    pub fn save_dynamic_playlist_state(dp_name: &str, now: &Timestamp, uris: &Vec<String>) -> (r:
        Option<(String, Vec<EditAction>)>)
        requires
            is_moment(*now),
        ensures
            match r {
                Some(saved) => {
                    &&& uris.len() > 0
                    &&& saved.0@ == dp_name@ + " "@ + moment_text(*now)
                    &&& edits(saved.1@) == playlist_edits(
                        saved.0@,
                        views(uris@),
                        SaveMode::Append,
                    )
                },
                None => uris.len() == 0,
            },
    {
        if uris.len() > 0 {
            let fixed_name: String = join3(dp_name, " ", format_moment(now).as_str());
            let actions: Vec<EditAction> = Self::add_songs_to_playlist(
                fixed_name.as_str(),
                uris,
                SaveMode::Append,
            );
            Some((fixed_name, actions))
        } else {
            None
        }
    }

    /// The queries for the songs of an artist: among song artists, and among
    /// album artists.
    pub fn artist_content_queries(
        name: &str,
        fetch_by_artist_tag: bool,
        fetch_by_albumartist_tag: bool,
    ) -> (r: (Option<QueryTerm>, Option<QueryTerm>))
        ensures
            match r.0 {
                Some(term) => fetch_by_artist_tag && term@ == holds(TagName::Artist, name@),
                None => !fetch_by_artist_tag,
            },
            match r.1 {
                Some(term) => fetch_by_albumartist_tag && term@ == holds(
                    TagName::AlbumArtist,
                    name@,
                ),
                None => !fetch_by_albumartist_tag,
            },
    {
        let by_artist: Option<QueryTerm> = if fetch_by_artist_tag {
            Some(
                QueryTerm {
                    tag: TagName::Artist,
                    operation: QueryOperation::Contains,
                    value: name.to_owned(),
                },
            )
        } else {
            None
        };
        let by_albumartist: Option<QueryTerm> = if fetch_by_albumartist_tag {
            Some(
                QueryTerm {
                    tag: TagName::AlbumArtist,
                    operation: QueryOperation::Contains,
                    value: name.to_owned(),
                },
            )
        } else {
            None
        };
        (by_artist, by_albumartist)
    }

    /// The songs and albums of an artist, out of what the two queries found. A
    /// query that was not made has found nothing.
    pub fn get_artist_content(
        artist: &ArtistInfo,
        artist_songs: Vec<SongInfo>,
        albumartist_songs: Vec<SongInfo>,
    ) -> (r: ArtistContent)
        ensures
            holds_latest(
                found_songs(artist.comp_id@, artist_songs@, albumartist_songs@),
                r.songs@,
            ),
            forall|i: int, j: int|
                0 <= i < j < r.songs.len() ==> song_before(
                    #[trigger] r.songs@[i],
                    #[trigger] r.songs@[j],
                ),
            sectioned(r.songs@, r.years@, r.songs@.len() as int),
    {
        discography::artist_content(artist.comp_id.as_str(), artist_songs, albumartist_songs)
    }

    /// Whether the server can hold a backup of metadata. That takes stickers on
    /// more than songs.
    pub fn metadata_backup_available(level: StickersSupportLevel) -> (r: bool)
        ensures
            r == (level == StickersSupportLevel::All),
    {
        matches!(level, StickersSupportLevel::All)
    }
}

fn term(tag: TagName, value: &str) -> (r: QueryTerm)
    ensures
        r@ == equals(tag, value@),
{
    QueryTerm { tag, operation: QueryOperation::Equals, value: value.to_owned() }
}

/// Going up right after entering a folder leads back to where it was entered.
pub proof fn leaving_reverts_entering(library: LibraryView, name: Seq<char>)
    requires
        library.wf(),
    ensures
        library.entered(name).went_back().folders() == library.folders(),
{
    assert(library.entered(name).went_back().folders() =~= library.folders());
}

/// Going forward right after going back leads to where it was before, and so
/// does going back right after going forward.
pub proof fn back_and_forward_cancel_out(library: LibraryView)
    ensures
        library.went_back().went_forward().folders() == library.folders(),
        library.went_forward().went_back().folders() == library.folders(),
        library.went_back().went_forward().trail == library.trail,
        library.went_forward().went_back().trail == library.trail,
{
}

/// The path of a folder is that of the folder around it, a slash, and its name.
pub proof fn paths_grow_by_name(library: LibraryView, name: Seq<char>)
    requires
        library.wf(),
    ensures
        library.entered(name).path() == (if library.folders().len() == 0 {
            name
        } else {
            library.path() + "/"@ + name
        }),
{
    let folders = library.folders().push(name);
    assert(library.entered(name).folders() =~= folders);
    assert(folders.drop_last() =~= library.folders());
}

/// After a folder was entered, its contents are loaded from its own path, and once
/// they have come the list holds them and nothing else.
pub proof fn entering_shows_the_folder(
    library: LibraryView,
    name: Seq<char>,
    nodes: Seq<INode>,
)
    requires
        library.wf(),
    ensures
        ({
            let entered = library.entered(name);
            let shown = entered.loading_folder().with_folder(nodes);
            &&& !entered.folder_inodes_initialized
            &&& entered.path() == joined(library.folders().push(name), "/"@)
            &&& shown.trail == library.folders().push(name)
            &&& shown.depth == shown.trail.len() == library.depth + 1
            &&& shown.path() == entered.path()
            &&& shown.folder_inodes == nodes
            &&& shown.loading_folder() == shown
        }),
{
    assert(library.entered(name).folders() =~= library.folders().push(name));
}

/// Once the albums with their artists and the artists have come, the lists hold
/// exactly those that were due, and loading them again asks for nothing and
/// changes nothing.
pub proof fn artists_are_loaded_once(
    library: LibraryView,
    albums: Seq<AlbumInfo>,
    albumartists: Seq<ArtistInfo>,
    artists: Seq<ArtistInfo>,
)
    ensures
        ({
            let begun = library.loading_artists();
            let with_albums = if library.albums_and_albumartists_initialized {
                begun
            } else {
                begun.with_albums(albums, albumartists)
            };
            let loaded = if library.artists_initialized {
                with_albums
            } else {
                with_albums.with_artists(artists)
            };
            &&& loaded.albums_and_albumartists_initialized && loaded.artists_initialized
            &&& loaded.loading_artists() == loaded
            &&& if library.albums_and_albumartists_initialized {
                loaded.albums == library.albums && loaded.albumartists == library.albumartists
            } else {
                loaded.albums == albums && loaded.albumartists == albumartists
            }
            &&& loaded.artists == (if library.artists_initialized {
                library.artists
            } else {
                artists
            })
        }),
{
}

/// Songs of an album are looked up by its MusicBrainz ID alone where there is one,
/// else by its title, and by its album artist where there is one.
pub proof fn albums_are_looked_up_by_what_identifies_them(album: &AlbumInfo, r: Vec<QueryTerm>)
    requires
        call_ensures(Library::get_album_songs, (album,), r),
    ensures
        forall|i: int|
            0 <= i < r@.len() ==> (#[trigger] r@[i]).operation == QueryOperation::Equals,
        album.mbid matches Some(mbid) ==> r@.len() == 1 && r@[0].tag == TagName::AlbumMbid
            && r@[0].value@ == mbid@,
        album.mbid is None ==> {
            &&& r@[0].tag == TagName::Album && r@[0].value@ == album.title@
            &&& r@.len() == (if album.artist_tag is Some { 2int } else { 1 })
            &&& album.artist_tag matches Some(artist) ==> r@[1].tag == TagName::AlbumArtist
                && r@[1].value@ == artist@
        },
{
    let told = terms(r@);
    assert(told.len() == r@.len());
    assert forall|i: int| 0 <= i < r@.len() implies (#[trigger] r@[i])@ == told[i] by {}
}

/// What a plan of queueing comes to: the queue is emptied first exactly if it is
/// to be replaced, then something is added, and playing starts exactly if wanted.
proof fn plans_clear_add_and_play(
    r: Seq<ClientCommand>,
    replace: bool,
    addition: CommandView,
    play: Option<u32>,
)
    requires
        commands(r) == queueing(replace, addition, play),
    ensures
        r.len() == (if replace { 1int } else { 0 }) + 1 + (if play is Some { 1int } else { 0 }),
        replace ==> r[0] == ClientCommand::ClearQueue,
        r[if replace { 1int } else { 0 }]@ == addition,
        play matches Some(at) ==> r.last() == (ClientCommand::PlayAt { position: at }),
{
    let told = commands(r);
    assert(told.len() == r.len());
    assert forall|i: int| 0 <= i < r.len() implies (#[trigger] r[i])@ == told[i] by {}
    assert(r[if replace { 1int } else { 0 }]@ == told[if replace { 1int } else { 0 }]);
    if replace {
        assert(r[0]@ == CommandView::ClearQueue);
    }
    if let Some(at) = play {
        assert(told.last() == CommandView::PlayAt { position: at });
        assert(r.last()@ == told.last());
    }
}

/// Songs are queued in their order, as songs and not as folders, behind the queue
/// or in its place, and are played from the first one if they are to be.
pub proof fn songs_are_queued_in_order(
    uris: &Vec<String>,
    replace: bool,
    play: bool,
    r: Vec<ClientCommand>,
    i: int,
)
    requires
        call_ensures(Library::queue_songs, (uris, replace, play), r),
    ensures
        r@.len() == 1 + (if replace { 1int } else { 0 }) + (if play { 1int } else { 0 }),
        replace ==> r@[0] == ClientCommand::ClearQueue,
        play ==> r@.last() == (ClientCommand::PlayAt { position: 0 }),
        r@[if replace { 1int } else { 0 }] matches ClientCommand::AddMulti {
            uris: queued,
            recursive,
            at,
        } && !recursive && at is None && queued@.len() == uris@.len() && (0 <= i < uris@.len()
            ==> queued@[i]@ == uris@[i]@),
{
    plans_clear_add_and_play(
        r@,
        replace,
        CommandView::AddMulti { uris: views(uris@), recursive: false, at: None },
        start(play),
    );
    if let ClientCommand::AddMulti { uris: queued, recursive, at } = r@[if replace {
        1int
    } else {
        0
    }] {
        assert(views(queued@).len() == queued@.len());
        if 0 <= i < uris@.len() {
            assert(views(queued@)[i] == views(uris@)[i]);
        }
    }
}

/// Songs that are to come next go right behind the current song, or to the head of
/// the queue if there is none.
pub proof fn the_next_songs_follow_the_current_one(
    uris: &Vec<String>,
    current: u32,
    behind: ClientCommand,
    first: ClientCommand,
    i: int,
)
    requires
        current < u32::MAX,
        call_ensures(Library::insert_songs_next, (uris, Some(current)), behind),
        call_ensures(Library::insert_songs_next, (uris, None), first),
    ensures
        behind matches ClientCommand::AddMulti { uris: queued, recursive, at } && !recursive && at
            == Some((current + 1) as usize) && queued@.len() == uris@.len() && (0 <= i < uris@.len()
            ==> queued@[i]@ == uris@[i]@),
        first matches ClientCommand::AddMulti { uris: queued, recursive, at } && !recursive && at
            == Some(0usize) && queued@.len() == uris@.len() && (0 <= i < uris@.len()
            ==> queued@[i]@ == uris@[i]@),
{
    if let ClientCommand::AddMulti { uris: queued, recursive, at } = behind {
        assert(views(queued@).len() == queued@.len());
        if 0 <= i < uris@.len() {
            assert(views(queued@)[i] == views(uris@)[i]);
        }
    }
    if let ClientCommand::AddMulti { uris: queued, recursive, at } = first {
        assert(views(queued@).len() == queued@.len());
        if 0 <= i < uris@.len() {
            assert(views(queued@)[i] == views(uris@)[i]);
        }
    }
}

/// An album is queued by its title, and by its album artist and MusicBrainz ID
/// where it has them; it plays from the song that was asked for, or from the
/// first one.
pub proof fn albums_are_queued_by_all_that_is_known(
    album: &AlbumInfo,
    replace: bool,
    play: bool,
    play_from: Option<u32>,
    r: Vec<ClientCommand>,
    addition: int,
)
    requires
        addition == (if replace { 1int } else { 0 }),
        call_ensures(Library::queue_album, (album, replace, play, play_from), r),
    ensures
        r@.len() == 1 + (if replace { 1int } else { 0 }) + (if play { 1int } else { 0 }),
        replace ==> r@[0] == ClientCommand::ClearQueue,
        play && play_from is None ==> r@.last() == (ClientCommand::PlayAt { position: 0 }),
        play && play_from is Some ==> r@.last() == (ClientCommand::PlayAt {
            position: play_from->0,
        }),
        r@[addition] matches ClientCommand::FindAdd { query } && {
            &&& forall|i: int|
                0 <= i < query@.len() ==> (#[trigger] query@[i]).operation
                    == QueryOperation::Equals
            &&& query@[0].tag == TagName::Album && query@[0].value@ == album.title@
            &&& query@.len() == 1 + (if album.artist_tag is Some { 1int } else { 0 }) + (
            if album.mbid is Some { 1int } else { 0 })
            &&& album.artist_tag matches Some(artist) ==> query@[1].tag == TagName::AlbumArtist
                && query@[1].value@ == artist@
            &&& album.mbid matches Some(mbid) ==> query@.last().tag == TagName::AlbumMbid
                && query@.last().value@ == mbid@
        },
{
    let from = if play {
        Some(
            match play_from {
                Some(from) => from,
                None => 0u32,
            },
        )
    } else {
        None
    };
    plans_clear_add_and_play(
        r@,
        replace,
        CommandView::FindAdd { query: queue_album_terms(*album) },
        from,
    );
    if let ClientCommand::FindAdd { query } = r@[addition] {
        let told = terms(query@);
        assert(told.len() == query@.len());
        assert forall|i: int| 0 <= i < query@.len() implies (#[trigger] query@[i])@ == told[i] by {}
        assert(query@.last()@ == told.last());
    }
}

/// An artist is queued by the name, among the artists of songs or, if asked, among
/// those of albums; the name need only be a part of the tag.
pub proof fn artists_are_queued_by_name(
    name: &str,
    use_albumartist: bool,
    replace: bool,
    play: bool,
    r: Vec<ClientCommand>,
)
    requires
        call_ensures(Library::queue_artist, (name, use_albumartist, replace, play), r),
    ensures
        r@.len() == 1 + (if replace { 1int } else { 0 }) + (if play { 1int } else { 0 }),
        replace ==> r@[0] == ClientCommand::ClearQueue,
        play ==> r@.last() == (ClientCommand::PlayAt { position: 0 }),
        r@[if replace { 1int } else { 0 }] matches ClientCommand::FindAdd { query } && {
            &&& query@.len() == 1
            &&& query@[0].operation == QueryOperation::Contains
            &&& query@[0].value@ == name@
            &&& query@[0].tag == TagName::AlbumArtist <==> use_albumartist
            &&& query@[0].tag == TagName::Artist <==> !use_albumartist
        },
{
    let tag = if use_albumartist {
        TagName::AlbumArtist
    } else {
        TagName::Artist
    };
    plans_clear_add_and_play(
        r@,
        replace,
        CommandView::FindAdd { query: seq![holds(tag, name@)] },
        start(play),
    );
    if let ClientCommand::FindAdd { query } = r@[if replace { 1int } else { 0 }] {
        let told = terms(query@);
        assert(told.len() == query@.len());
        assert(query@[0]@ == told[0]);
    }
}

/// A song or a folder is queued by its URI, with all that is in it exactly if
/// that is asked for.
pub proof fn a_uri_is_queued_alone(
    uri: &str,
    replace: bool,
    play: bool,
    recursive: bool,
    r: Vec<ClientCommand>,
)
    requires
        call_ensures(Library::queue_uri, (uri, replace, play, recursive), r),
    ensures
        r@.len() == 1 + (if replace { 1int } else { 0 }) + (if play { 1int } else { 0 }),
        replace ==> r@[0] == ClientCommand::ClearQueue,
        play ==> r@.last() == (ClientCommand::PlayAt { position: 0 }),
        r@[if replace { 1int } else { 0 }] matches ClientCommand::AddMulti {
            uris: queued,
            recursive: deep,
            at,
        } && deep == recursive && at is None && queued@.len() == 1 && queued@[0]@ == uri@,
{
    plans_clear_add_and_play(
        r@,
        replace,
        CommandView::AddMulti { uris: seq![uri@], recursive, at: None },
        start(play),
    );
    if let ClientCommand::AddMulti { uris: queued, recursive: deep, at } = r@[if replace {
        1int
    } else {
        0
    }] {
        assert(views(queued@).len() == queued@.len());
        assert(views(queued@)[0] == queued@[0]@);
    }
}

/// Playlists are queued by name, the dynamic ones as they were resolved last.
pub proof fn playlists_are_queued_by_name(
    name: &str,
    replace: bool,
    play: bool,
    r: Vec<ClientCommand>,
    dynamic: Vec<ClientCommand>,
)
    requires
        call_ensures(Library::queue_playlist, (name, replace, play), r),
        call_ensures(Library::queue_cached_dynamic_playlist, (name, replace, play), dynamic),
    ensures
        r@.len() == 1 + (if replace { 1int } else { 0 }) + (if play { 1int } else { 0 }),
        dynamic@.len() == r@.len(),
        replace ==> r@[0] == ClientCommand::ClearQueue && dynamic@[0]
            == ClientCommand::ClearQueue,
        play ==> r@.last() == (ClientCommand::PlayAt { position: 0 }) && dynamic@.last() == (
        ClientCommand::PlayAt { position: 0 }),
        r@[if replace { 1int } else { 0 }] matches ClientCommand::LoadPlaylist { name: loaded }
            && loaded@ == name@,
        dynamic@[if replace { 1int } else { 0 }] matches ClientCommand::QueueCachedDynamicPlaylist {
            name: loaded,
        } && loaded@ == name@,
{
    plans_clear_add_and_play(
        r@,
        replace,
        CommandView::LoadPlaylist { name: name@ },
        start(play),
    );
    plans_clear_add_and_play(
        dynamic@,
        replace,
        CommandView::QueueCachedDynamicPlaylist { name: name@ },
        start(play),
    );
}

/// A rating is set to its number, and taken off where there is none.
pub proof fn ratings_are_set_or_taken_off(
    filter: &str,
    score: i8,
    set: ClientCommand,
    unset: ClientCommand,
    number: String,
)
    requires
        call_ensures(Library::rate_album, (filter, Some(score)), set),
        call_ensures(Library::rate_album, (filter, None), unset),
        call_ensures(signed_string, (score as i64,), number),
    ensures
        set matches ClientCommand::SetAlbumRating { filter: of, value } && of@ == filter@ && value@
            == number@,
        unset matches ClientCommand::DeleteAlbumRating { filter: of } && of@ == filter@,
{
}

/// A playlist is renamed from its old name to its new one, and deleted by its name.
pub proof fn playlists_are_renamed_and_deleted(
    from: String,
    to: String,
    renamed: ClientCommand,
    deleted: ClientCommand,
)
    requires
        call_ensures(Library::rename_playlist, (from, to), renamed),
        call_ensures(Library::delete_playlist, (from,), deleted),
    ensures
        renamed matches ClientCommand::RenamePlaylist { from: old_name, to: new_name } && old_name@
            == from@ && new_name@ == to@,
        deleted matches ClientCommand::DeletePlaylist { playlist } && playlist@ == from@,
{
}

/// Songs are added to a playlist at its end, all of them and in their order. The
/// playlist is emptied before that exactly if its contents are to be replaced.
pub proof fn songs_are_added_in_order(
    playlist_name: &str,
    uris: &Vec<String>,
    mode: SaveMode,
    r: Vec<EditAction>,
    i: int,
)
    requires
        call_ensures(Library::add_songs_to_playlist, (playlist_name, uris, mode), r),
    ensures
        ({
            let first = if mode == SaveMode::Replace { 1int } else { 0 };
            &&& r@.len() == first + uris@.len()
            &&& mode == SaveMode::Replace ==> (r@[0] matches EditAction::Clear { playlist }
                && playlist@ == playlist_name@)
            &&& 0 <= i < uris@.len() ==> (r@[first + i] matches EditAction::Add { playlist, uri }
                && playlist@ == playlist_name@ && uri@ == uris@[i]@)
        }),
{
    let first = if mode == SaveMode::Replace { 1int } else { 0 };
    let told = edits(r@);
    assert(told.len() == r@.len());
    assert(views(uris@).len() == uris@.len());
    if mode == SaveMode::Replace {
        assert(told[0] == r@[0]@);
    }
    if 0 <= i < uris@.len() {
        assert(told[first + i] == r@[first + i]@);
        assert(views(uris@)[i] == uris@[i]@);
    }
}

/// The results of a dynamic playlist are saved exactly if there are any: each song
/// at the end of a playlist of its own, in their order. Nothing is emptied.
pub proof fn dynamic_playlists_are_saved_in_order(
    dp_name: &str,
    now: &Timestamp,
    uris: &Vec<String>,
    r: Option<(String, Vec<EditAction>)>,
    i: int,
)
    requires
        call_ensures(Library::save_dynamic_playlist_state, (dp_name, now, uris), r),
    ensures
        r is Some <==> uris@.len() > 0,
        r matches Some(saved) ==> {
            &&& saved.1@.len() == uris@.len()
            &&& 0 <= i < uris@.len() ==> (saved.1@[i] matches EditAction::Add { playlist, uri }
                && playlist@ == saved.0@ && uri@ == uris@[i]@)
        },
{
    if let Some(saved) = r {
        let told = edits(saved.1@);
        assert(told.len() == saved.1@.len());
        assert(views(uris@).len() == uris@.len());
        if 0 <= i < uris@.len() {
            assert(told[i] == saved.1@[i]@);
            assert(views(uris@)[i] == uris@[i]@);
        }
    }
}

/// They are saved under the name of the dynamic playlist, a space, and the time:
/// year, month, day, hour, minute and second, from the front.
pub proof fn dynamic_playlists_are_saved_with_the_time(
    dp_name: &str,
    now: &Timestamp,
    uris: &Vec<String>,
    saved: (String, Vec<EditAction>),
)
    requires
        is_moment(*now),
        0 <= now.date.year <= 9999,
        call_ensures(Library::save_dynamic_playlist_state, (dp_name, now, uris), Some(saved)),
    ensures
        saved.0@.len() == dp_name@.len() + 20,
        saved.0@.take(dp_name@.len() as int) == dp_name@,
        saved.0@[dp_name@.len() as int] == ' ',
        ({
            let time = saved.0@.skip(dp_name@.len() as int + 1);
            &&& 1000 * (time[0] as int - 0x30) + 100 * (time[1] as int - 0x30) + 10 * (
            time[2] as int - 0x30) + (time[3] as int - 0x30) == now.date.year
            &&& 10 * (time[5] as int - 0x30) + (time[6] as int - 0x30) == now.date.month
            &&& 10 * (time[8] as int - 0x30) + (time[9] as int - 0x30) == now.date.day
            &&& 10 * (time[11] as int - 0x30) + (time[12] as int - 0x30) == now.hour
            &&& 10 * (time[14] as int - 0x30) + (time[15] as int - 0x30) == now.minute
            &&& 10 * (time[17] as int - 0x30) + (time[18] as int - 0x30) == now.second
        }),
{
    let n = dp_name@.len() as int;
    let moment = moment_text(*now);
    reveal_strlit(" ");
    assert(" "@.len() == 1);
    assert(saved.0@ == dp_name@ + " "@ + moment);
    moments_read_as_numbers(*now);
    assert(saved.0@.take(n) =~= dp_name@);
    assert(saved.0@.skip(n + 1) =~= moment);
}

/// The songs of an artist are asked for by the name, among song artists and among
/// album artists, each exactly if wanted.
pub proof fn an_artists_songs_are_asked_for_by_name(
    name: &str,
    by_artist: bool,
    by_albumartist: bool,
    r: (Option<QueryTerm>, Option<QueryTerm>),
)
    requires
        call_ensures(Library::artist_content_queries, (name, by_artist, by_albumartist), r),
    ensures
        r.0 is Some <==> by_artist,
        r.1 is Some <==> by_albumartist,
        r.0 matches Some(term) ==> term.tag == TagName::Artist && term.operation
            == QueryOperation::Contains && term.value@ == name@,
        r.1 matches Some(term) ==> term.tag == TagName::AlbumArtist && term.operation
            == QueryOperation::Contains && term.value@ == name@,
{
}

/// Metadata is backed up only on servers that hold stickers on more than songs.
pub proof fn backups_take_stickers_on_everything(disabled: bool, songs_only: bool, all: bool)
    requires
        call_ensures(
            Library::metadata_backup_available,
            (StickersSupportLevel::Disabled,),
            disabled,
        ),
        call_ensures(
            Library::metadata_backup_available,
            (StickersSupportLevel::SongsOnly,),
            songs_only,
        ),
        call_ensures(Library::metadata_backup_available, (StickersSupportLevel::All,), all),
    ensures
        !disabled,
        !songs_only,
        all,
{
}

/// Entering a folder leads to the path of the folder around it, a slash and its
/// name, or to the name alone at the root. Its contents are then loaded from that
/// path, and there is nothing to go forward to.
pub proof fn entering_leads_to_the_folder(
    library: &mut Library,
    load: &mut Library,
    name: &str,
    around: String,
    path: String,
    asked: Option<String>,
    depth_before: u32,
    depth: u32,
    len: u32,
)
    requires
        old(library)@.wf(),
        old(library)@.depth < u32::MAX,
        call_ensures(Library::folder_path, (old(library),), around),
        call_ensures(Library::folder_curr_idx, (old(library),), depth_before),
        call_ensures(Library::navigate_to, (library, name), ()),
        call_ensures(Library::folder_path, (final(library),), path),
        call_ensures(Library::folder_curr_idx, (final(library),), depth),
        call_ensures(Library::folder_history_len, (final(library),), len),
        *old(load) == *final(library),
        call_ensures(Library::get_folder_contents, (load,), asked),
    ensures
        path@ == (if depth_before == 0 { name@ } else { around@ + "/"@ + name@ }),
        depth == depth_before + 1,
        len == depth,
        asked is Some && asked->0@ == path@,
{
    paths_grow_by_name(old(library)@, name@);
}

/// Going up from a folder that was just entered leads back to the folder around
/// it, going forward from there leads to the folder again, and each time the
/// contents are loaded from the path that is shown.
pub proof fn up_and_down_retrace_the_way(
    enter: &mut Library,
    up: &mut Library,
    load: &mut Library,
    down: &mut Library,
    name: &str,
    around: String,
    inside: String,
    left: bool,
    above: String,
    asked: Option<String>,
    returned: bool,
    again: String,
)
    requires
        old(enter)@.wf(),
        old(enter)@.depth < u32::MAX,
        call_ensures(Library::folder_path, (old(enter),), around),
        call_ensures(Library::navigate_to, (enter, name), ()),
        call_ensures(Library::folder_path, (final(enter),), inside),
        *old(up) == *final(enter),
        call_ensures(Library::folder_backward, (up,), left),
        call_ensures(Library::folder_path, (final(up),), above),
        *old(load) == *final(up),
        call_ensures(Library::get_folder_contents, (load,), asked),
        *old(down) == *final(up),
        call_ensures(Library::folder_forward, (down,), returned),
        call_ensures(Library::folder_path, (final(down),), again),
    ensures
        left,
        above@ == around@,
        asked is Some && asked->0@ == above@,
        returned,
        again@ == inside@,
{
    leaving_reverts_entering(old(enter)@, name@);
    assert(final(down)@.folders() =~= final(enter)@.folders());
}

/// At the root there is no way up, and at the end of the way no way forward; the
/// library then stays as it is.
pub proof fn there_is_an_end_to_every_way(
    up: &mut Library,
    down: &mut Library,
    depth: u32,
    len: u32,
    moved_up: bool,
    moved_down: bool,
)
    requires
        old(up)@.wf(),
        *old(down) == *old(up),
        call_ensures(Library::folder_curr_idx, (old(up),), depth),
        call_ensures(Library::folder_history_len, (old(up),), len),
        call_ensures(Library::folder_backward, (up,), moved_up),
        call_ensures(Library::folder_forward, (down,), moved_down),
    ensures
        moved_up <==> depth > 0,
        moved_down <==> depth < len,
        !moved_up ==> final(up)@ == old(up)@,
        !moved_down ==> final(down)@ == old(down)@,
{
}

/// The contents of a folder are asked for once: after they were asked for, the list
/// is empty until they have come, holds exactly what came, and is not asked for
/// again.
pub proof fn folders_are_loaded_once(
    load: &mut Library,
    fill: &mut Library,
    reload: &mut Library,
    asked: Option<String>,
    nodes: Vec<INode>,
    meanwhile: &Vec<INode>,
    shown: &Vec<INode>,
    asked_again: Option<String>,
    still: &Vec<INode>,
)
    requires
        call_ensures(Library::get_folder_contents, (load,), asked),
        asked is Some,
        call_ensures(Library::folder_inodes, (final(load),), meanwhile),
        *old(fill) == *final(load),
        call_ensures(Library::fill_folder, (fill, nodes), ()),
        call_ensures(Library::folder_inodes, (final(fill),), shown),
        *old(reload) == *final(fill),
        call_ensures(Library::get_folder_contents, (reload,), asked_again),
        call_ensures(Library::folder_inodes, (final(reload),), still),
    ensures
        meanwhile@.len() == 0,
        shown@ == nodes@,
        asked_again is None,
        still@ == nodes@,
{
}

/// The playlists are asked for once, and again whenever that is wanted; the list
/// is empty until they have come, and holds exactly what came.
pub proof fn playlists_are_loaded_on_demand(
    load: &mut Library,
    fill: &mut Library,
    reload: &mut Library,
    refresh: &mut Library,
    ignored: bool,
    nodes: Vec<INode>,
    meanwhile: &Vec<INode>,
    shown: &Vec<INode>,
    asked_again: bool,
    still: &Vec<INode>,
    asked_anew: bool,
    emptied: &Vec<INode>,
)
    requires
        call_ensures(Library::init_playlists, (load, true), ignored),
        call_ensures(Library::playlists, (final(load),), meanwhile),
        *old(fill) == *final(load),
        call_ensures(Library::fill_playlists, (fill, nodes), ()),
        call_ensures(Library::playlists, (final(fill),), shown),
        *old(reload) == *final(fill),
        call_ensures(Library::init_playlists, (reload, false), asked_again),
        call_ensures(Library::playlists, (final(reload),), still),
        *old(refresh) == *final(fill),
        call_ensures(Library::init_playlists, (refresh, true), asked_anew),
        call_ensures(Library::playlists, (final(refresh),), emptied),
    ensures
        ignored,
        meanwhile@.len() == 0,
        shown@ == nodes@,
        !asked_again,
        still@ == nodes@,
        asked_anew,
        emptied@.len() == 0,
{
}

/// So are the dynamic playlists.
pub proof fn dynamic_playlists_are_loaded_on_demand(
    load: &mut Library,
    fill: &mut Library,
    reload: &mut Library,
    refresh: &mut Library,
    ignored: bool,
    nodes: Vec<INode>,
    meanwhile: &Vec<INode>,
    shown: &Vec<INode>,
    asked_again: bool,
    still: &Vec<INode>,
    asked_anew: bool,
    emptied: &Vec<INode>,
)
    requires
        call_ensures(Library::init_dyn_playlists, (load, true), ignored),
        call_ensures(Library::dyn_playlists, (final(load),), meanwhile),
        *old(fill) == *final(load),
        call_ensures(Library::fill_dyn_playlists, (fill, nodes), ()),
        call_ensures(Library::dyn_playlists, (final(fill),), shown),
        *old(reload) == *final(fill),
        call_ensures(Library::init_dyn_playlists, (reload, false), asked_again),
        call_ensures(Library::dyn_playlists, (final(reload),), still),
        *old(refresh) == *final(fill),
        call_ensures(Library::init_dyn_playlists, (refresh, true), asked_anew),
        call_ensures(Library::dyn_playlists, (final(refresh),), emptied),
    ensures
        ignored,
        meanwhile@.len() == 0,
        shown@ == nodes@,
        !asked_again,
        still@ == nodes@,
        asked_anew,
        emptied@.len() == 0,
{
}

/// What was played last comes song by album by artist: each list holds what came,
/// and it is asked for again only if that is wanted. Clearing the history empties
/// the songs.
pub proof fn recent_music_is_loaded_on_demand(
    load: &mut Library,
    songs: &mut Library,
    albums: &mut Library,
    artists: &mut Library,
    reload: &mut Library,
    forget: &mut Library,
    asked: bool,
    new_songs: Vec<SongInfo>,
    new_albums: Vec<AlbumInfo>,
    new_artists: Vec<ArtistInfo>,
    asked_again: bool,
    shown_songs: &Vec<SongInfo>,
    shown_albums: &Vec<AlbumInfo>,
    shown_artists: &Vec<ArtistInfo>,
    left: &Vec<SongInfo>,
)
    requires
        call_ensures(Library::init_recent, (load, true), asked),
        *old(songs) == *final(load),
        call_ensures(Library::fill_recent_songs, (songs, new_songs), ()),
        *old(albums) == *final(songs),
        call_ensures(Library::fill_recent_albums, (albums, new_albums), ()),
        *old(artists) == *final(albums),
        call_ensures(Library::fill_recent_artists, (artists, new_artists), ()),
        *old(reload) == *final(artists),
        call_ensures(Library::init_recent, (reload, false), asked_again),
        call_ensures(Library::recent_songs, (final(reload),), shown_songs),
        call_ensures(Library::recent_albums, (final(reload),), shown_albums),
        call_ensures(Library::recent_artists, (final(reload),), shown_artists),
        *old(forget) == *final(reload),
        call_ensures(Library::clear_recent_songs, (forget,), ()),
        call_ensures(Library::recent_songs, (final(forget),), left),
    ensures
        asked,
        !asked_again,
        shown_songs@ == new_songs@,
        shown_albums@ == new_albums@,
        shown_artists@ == new_artists@,
        left@.len() == 0,
{
}

/// Albums and their artists are asked for once, and artists after them; the lists
/// hold exactly what came. If the artists were not reached they are still due.
pub proof fn albums_and_artists_are_loaded_once(
    clear: &mut Library,
    load: &mut Library,
    albums: &mut Library,
    artists: &mut Library,
    reload: &mut Library,
    only_albums: &mut Library,
    missed: &mut Library,
    retry: &mut Library,
    asked: (bool, bool),
    new_albums: Vec<AlbumInfo>,
    new_albumartists: Vec<ArtistInfo>,
    new_artists: Vec<ArtistInfo>,
    asked_again: (bool, bool),
    albums_again: bool,
    asked_after_miss: (bool, bool),
    shown_albums: &Vec<AlbumInfo>,
    shown_albumartists: &Vec<ArtistInfo>,
    shown_artists: &Vec<ArtistInfo>,
)
    requires
        call_ensures(Library::clear, (clear,), ()),
        *old(load) == *final(clear),
        call_ensures(Library::init_artists, (load,), asked),
        *old(albums) == *final(load),
        call_ensures(
            Library::fill_albums_and_albumartists,
            (albums, new_albums, new_albumartists),
            (),
        ),
        *old(artists) == *final(albums),
        call_ensures(Library::fill_artists, (artists, new_artists), ()),
        *old(reload) == *final(artists),
        call_ensures(Library::init_artists, (reload,), asked_again),
        call_ensures(Library::albums, (final(reload),), shown_albums),
        call_ensures(Library::album_artists, (final(reload),), shown_albumartists),
        call_ensures(Library::artists, (final(reload),), shown_artists),
        *old(only_albums) == *final(artists),
        call_ensures(Library::init_albums_and_albumartists, (only_albums,), albums_again),
        *old(missed) == *final(albums),
        call_ensures(Library::artists_not_reached, (missed, true), ()),
        *old(retry) == *final(missed),
        call_ensures(Library::init_artists, (retry,), asked_after_miss),
    ensures
        asked == (true, true),
        asked_again == (false, false),
        !albums_again,
        asked_after_miss == (false, true),
        shown_albums@ == new_albums@,
        shown_albumartists@ == new_albumartists@,
        shown_artists@ == new_artists@,
{
}

/// Genres are asked for once, and come bit by bit: each comes behind those before
/// it, as a tag of that name that cannot be taken off.
pub proof fn genres_come_bit_by_bit(
    clear: &mut Library,
    load: &mut Library,
    more: &mut Library,
    reload: &mut Library,
    asked: bool,
    genres: Vec<String>,
    before: &Vec<Tag>,
    after: &Vec<Tag>,
    asked_again: bool,
    i: int,
)
    requires
        call_ensures(Library::clear, (clear,), ()),
        *old(load) == *final(clear),
        call_ensures(Library::init_genres, (load,), asked),
        old(more)@.genres_initialized,
        call_ensures(Library::genres, (old(more),), before),
        call_ensures(Library::add_genres, (more, genres), ()),
        call_ensures(Library::genres, (final(more),), after),
        *old(reload) == *final(load),
        call_ensures(Library::init_genres, (reload,), asked_again),
    ensures
        asked,
        !asked_again,
        after@.len() == before@.len() + genres@.len(),
        0 <= i < before@.len() ==> after@[i] == before@[i],
        0 <= i < genres@.len() ==> after@[before@.len() + i].name == genres@[i]
            && !after@[before@.len() + i].removable && !after@[before@.len() + i].set_by_user
            && after@[before@.len() + i].link is None,
{
}

/// Clearing the library empties every list, leads to the root, and makes
/// everything due again.
pub proof fn clearing_forgets_everything(
    clear: &mut Library,
    playlists: &mut Library,
    dynamic: &mut Library,
    recent: &mut Library,
    albums: &mut Library,
    genres: &mut Library,
    folder: &mut Library,
    asked: (bool, bool, bool, bool, bool),
    path: Option<String>,
    lists: (&Vec<INode>, &Vec<INode>, &Vec<AlbumInfo>, &Vec<ArtistInfo>, &Vec<INode>),
    tags: (&Vec<Tag>, &Vec<Tag>, &Vec<Tag>),
)
    requires
        call_ensures(Library::clear, (clear,), ()),
        *old(playlists) == *final(clear),
        call_ensures(Library::init_playlists, (playlists, false), asked.0),
        *old(dynamic) == *final(clear),
        call_ensures(Library::init_dyn_playlists, (dynamic, false), asked.1),
        *old(recent) == *final(clear),
        call_ensures(Library::init_recent, (recent, false), asked.2),
        *old(albums) == *final(clear),
        call_ensures(Library::init_albums_and_albumartists, (albums,), asked.3),
        *old(genres) == *final(clear),
        call_ensures(Library::init_genres, (genres,), asked.4),
        *old(folder) == *final(clear),
        call_ensures(Library::get_folder_contents, (folder,), path),
        call_ensures(Library::playlists, (final(clear),), lists.0),
        call_ensures(Library::dyn_playlists, (final(clear),), lists.1),
        call_ensures(Library::albums, (final(clear),), lists.2),
        call_ensures(Library::artists, (final(clear),), lists.3),
        call_ensures(Library::folder_inodes, (final(clear),), lists.4),
        call_ensures(Library::album_tags, (final(clear),), tags.0),
        call_ensures(Library::artist_tags, (final(clear),), tags.1),
        call_ensures(Library::genres, (final(clear),), tags.2),
    ensures
        asked.0 && asked.1 && asked.2 && asked.3 && asked.4,
        path is Some && path->0@.len() == 0,
        lists.0@.len() == 0 && lists.1@.len() == 0 && lists.2@.len() == 0 && lists.3@.len() == 0
            && lists.4@.len() == 0,
        tags.0@.len() == 0 && tags.1@.len() == 0 && tags.2@.len() == 0,
{
}

/// The tags of all albums and of all artists are those that are stored, in their
/// order, and can be taken off; none are shown if they could not be read. Neither
/// list touches the other.
pub proof fn stored_tags_are_shown(
    albums: &mut Library,
    artists: &mut Library,
    failed: &mut Library,
    stored: Vec<models::Tag>,
    album_tags: &Vec<Tag>,
    artist_tags: &Vec<Tag>,
    artist_tags_before: &Vec<Tag>,
    artist_tags_beside: &Vec<Tag>,
    none: &Vec<Tag>,
    i: int,
)
    requires
        call_ensures(Library::artist_tags, (old(albums),), artist_tags_before),
        call_ensures(Library::refresh_album_tags, (albums, Some(stored)), ()),
        call_ensures(Library::album_tags, (final(albums),), album_tags),
        call_ensures(Library::artist_tags, (final(albums),), artist_tags_beside),
        call_ensures(Library::refresh_artist_tags, (artists, Some(stored)), ()),
        call_ensures(Library::artist_tags, (final(artists),), artist_tags),
        call_ensures(Library::refresh_album_tags, (failed, None), ()),
        call_ensures(Library::album_tags, (final(failed),), none),
    ensures
        album_tags@.len() == stored@.len(),
        artist_tags@ == album_tags@,
        0 <= i < stored@.len() ==> album_tags@[i].name == stored@[i].name && album_tags@[i].link
            == stored@[i].url && album_tags@[i].set_by_user == stored@[i].set_by_user
            && album_tags@[i].removable && (stored@[i].count matches Some(n)
            ==> album_tags@[i].count == n),
        artist_tags_beside@ == artist_tags_before@,
        none@.len() == 0,
{
}

/// Each reply fills the list that it is for, and leaves everything else as it was.
pub proof fn each_reply_fills_its_own_list(
    folder: &mut Library,
    playlists: &mut Library,
    dynamic: &mut Library,
    artists: &mut Library,
    albums: &mut Library,
    nodes: Vec<INode>,
    new_albums: Vec<AlbumInfo>,
    new_artists: Vec<ArtistInfo>,
)
    requires
        call_ensures(Library::fill_folder, (folder, nodes), ()),
        call_ensures(Library::fill_playlists, (playlists, nodes), ()),
        call_ensures(Library::fill_dyn_playlists, (dynamic, nodes), ()),
        call_ensures(Library::fill_artists, (artists, new_artists), ()),
        call_ensures(
            Library::fill_albums_and_albumartists,
            (albums, new_albums, new_artists),
            (),
        ),
    ensures
        final(folder)@ == (LibraryView { folder_inodes: nodes@, ..old(folder)@ }),
        final(playlists)@ == (LibraryView { playlists: nodes@, ..old(playlists)@ }),
        final(dynamic)@ == (LibraryView { dyn_playlists: nodes@, ..old(dynamic)@ }),
        final(artists)@ == (LibraryView { artists: new_artists@, ..old(artists)@ }),
        final(albums)@ == (LibraryView {
            albums: new_albums@,
            albumartists: new_artists@,
            ..old(albums)@
        }),
{
}

/// Beginning to load one thing empties its own list, and leaves everything else as it
/// was; what is loaded and not asked for anew is not touched at all.
pub proof fn loading_touches_its_own_list(
    playlists: &mut Library,
    dynamic: &mut Library,
    recent: &mut Library,
    genres: &mut Library,
    albums: &mut Library,
    artists: &mut Library,
    folder: &mut Library,
    refresh: bool,
    asked: (bool, bool, bool, bool, bool),
    asked_artists: (bool, bool),
    path: Option<String>,
)
    requires
        call_ensures(Library::init_playlists, (playlists, refresh), asked.0),
        call_ensures(Library::init_dyn_playlists, (dynamic, refresh), asked.1),
        call_ensures(Library::init_recent, (recent, refresh), asked.2),
        call_ensures(Library::init_genres, (genres,), asked.3),
        call_ensures(Library::init_albums_and_albumartists, (albums,), asked.4),
        call_ensures(Library::init_artists, (artists,), asked_artists),
        call_ensures(Library::get_folder_contents, (folder,), path),
    ensures
        !asked.0 ==> final(playlists)@ == old(playlists)@ && !refresh,
        asked.0 ==> final(playlists)@ == (LibraryView {
            playlists: final(playlists)@.playlists,
            playlists_initialized: true,
            ..old(playlists)@
        }),
        !asked.1 ==> final(dynamic)@ == old(dynamic)@ && !refresh,
        asked.1 ==> final(dynamic)@ == (LibraryView {
            dyn_playlists: final(dynamic)@.dyn_playlists,
            dyn_playlists_initialized: true,
            ..old(dynamic)@
        }),
        !asked.2 ==> final(recent)@ == old(recent)@ && !refresh,
        asked.2 ==> final(recent)@ == (LibraryView {
            recent_songs: final(recent)@.recent_songs,
            recent_initialized: true,
            ..old(recent)@
        }),
        !asked.3 ==> final(genres)@ == old(genres)@,
        asked.3 ==> final(genres)@ == (LibraryView {
            genres: final(genres)@.genres,
            genres_initialized: true,
            ..old(genres)@
        }) && final(genres)@.genres.len() == 0,
        !asked.4 ==> final(albums)@ == old(albums)@,
        asked.4 ==> final(albums)@ == (LibraryView {
            albums: final(albums)@.albums,
            albumartists: final(albums)@.albumartists,
            albums_and_albumartists_initialized: true,
            ..old(albums)@
        }) && final(albums)@.albums.len() == 0 && final(albums)@.albumartists.len() == 0,
        asked_artists == (false, false) ==> final(artists)@ == old(artists)@,
        asked_artists.1 ==> final(artists)@.artists.len() == 0,
        !asked_artists.1 ==> final(artists)@.artists == old(artists)@.artists,
        !asked_artists.0 ==> final(artists)@.albums == old(artists)@.albums
            && final(artists)@.albumartists == old(artists)@.albumartists,
        path is None ==> final(folder)@ == old(folder)@,
        path is Some ==> final(folder)@ == (LibraryView {
            folder_inodes: Seq::empty(),
            folder_inodes_initialized: true,
            ..old(folder)@
        }),
{
}

/// Songs, albums and artists that were played last, genres and tags have lists of
/// their own, and what changes one of them leaves everything else as it was, except
/// that new songs empty the list of albums, and new albums that of artists.
pub proof fn played_genres_and_tags_stand_apart(
    songs: &mut Library,
    albums: &mut Library,
    artists: &mut Library,
    forget: &mut Library,
    genres: &mut Library,
    album_tags: &mut Library,
    artist_tags: &mut Library,
    missed: &mut Library,
    were_due: bool,
    new_songs: Vec<SongInfo>,
    new_albums: Vec<AlbumInfo>,
    new_artists: Vec<ArtistInfo>,
    new_genres: Vec<String>,
    stored: Option<Vec<models::Tag>>,
)
    requires
        call_ensures(Library::fill_recent_songs, (songs, new_songs), ()),
        call_ensures(Library::fill_recent_albums, (albums, new_albums), ()),
        call_ensures(Library::fill_recent_artists, (artists, new_artists), ()),
        call_ensures(Library::clear_recent_songs, (forget,), ()),
        call_ensures(Library::add_genres, (genres, new_genres), ()),
        call_ensures(Library::refresh_album_tags, (album_tags, stored), ()),
        call_ensures(Library::refresh_artist_tags, (artist_tags, stored), ()),
        call_ensures(Library::artists_not_reached, (missed, were_due), ()),
    ensures
        final(songs)@ == (LibraryView {
            recent_songs: new_songs@,
            recent_albums: Seq::empty(),
            ..old(songs)@
        }),
        final(albums)@ == (LibraryView {
            recent_albums: new_albums@,
            recent_artists: Seq::empty(),
            ..old(albums)@
        }),
        final(artists)@ == (LibraryView { recent_artists: new_artists@, ..old(artists)@ }),
        final(forget)@ == (LibraryView { recent_songs: Seq::empty(), ..old(forget)@ }),
        final(genres)@ == (LibraryView { genres: final(genres)@.genres, ..old(genres)@ }),
        final(album_tags)@ == (LibraryView {
            album_tags: final(album_tags)@.album_tags,
            ..old(album_tags)@
        }),
        final(artist_tags)@ == (LibraryView {
            artist_tags: final(artist_tags)@.artist_tags,
            ..old(artist_tags)@
        }),
        !were_due ==> final(missed)@.artists == old(missed)@.artists,
        final(missed)@ == (LibraryView {
            artists_initialized: final(missed)@.artists_initialized,
            ..old(missed)@
        }),
{
}

/// Browsing to another folder changes where the library stands, marks the folder as
/// not loaded, and leaves everything else as it was.
pub proof fn browsing_changes_the_folder_only(
    back: &mut Library,
    forward: &mut Library,
    enter: &mut Library,
    went_back: bool,
    went_forward: bool,
    name: &str,
)
    requires
        old(back)@.wf(),
        old(forward)@.wf(),
        old(enter)@.wf(),
        call_ensures(Library::folder_backward, (back,), went_back),
        call_ensures(Library::folder_forward, (forward,), went_forward),
        call_ensures(Library::navigate_to, (enter, name), ()),
    ensures
        !went_back ==> final(back)@ == old(back)@,
        went_back ==> final(back)@ == (LibraryView {
            depth: old(back)@.depth - 1,
            folder_inodes_initialized: false,
            ..old(back)@
        }),
        !went_forward ==> final(forward)@ == old(forward)@,
        went_forward ==> final(forward)@ == (LibraryView {
            depth: old(forward)@.depth + 1,
            folder_inodes_initialized: false,
            ..old(forward)@
        }),
        final(enter)@ == (LibraryView {
            trail: final(enter)@.trail,
            depth: old(enter)@.depth + 1,
            folder_inodes_initialized: false,
            ..old(enter)@
        }),
        final(enter)@.trail.len() == old(enter)@.depth + 1,
        final(enter)@.trail.last() == name@,
        final(enter)@.trail.drop_last() == old(enter)@.trail.take(old(enter)@.depth),
{
    assert(final(enter)@.trail.drop_last() =~= old(enter)@.trail.take(old(enter)@.depth));
}

/// Nothing has been loaded into a new library, it stands at the root, and it is what
/// clearing leaves.
pub proof fn a_new_library_is_empty(library: Library, clear: &mut Library)
    requires
        call_ensures(Library::new, (), library),
        call_ensures(Library::clear, (clear,), ()),
    ensures
        final(clear)@ == library@,
        library@.trail.len() == 0 && library@.depth == 0,
        !library@.recent_initialized && !library@.playlists_initialized
            && !library@.dyn_playlists_initialized && !library@.genres_initialized,
        !library@.albums_and_albumartists_initialized && !library@.artists_initialized
            && !library@.folder_inodes_initialized,
        library@.recent_songs.len() == 0 && library@.recent_albums.len() == 0
            && library@.recent_artists.len() == 0,
        library@.playlists.len() == 0 && library@.dyn_playlists.len() == 0
            && library@.folder_inodes.len() == 0,
        library@.albums.len() == 0 && library@.albumartists.len() == 0 && library@.artists.len()
            == 0,
        library@.album_tags.len() == 0 && library@.artist_tags.len() == 0 && library@.genres.len()
            == 0,
{
}

} // verus!
