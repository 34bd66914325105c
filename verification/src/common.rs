//! Songs, albums and artists as the library reads them.
use vstd::prelude::*;

verus! {

/// A calendar date.
#[derive(Clone, Copy, Debug, PartialEq, Eq, Structural)]
pub struct Date {
    pub year: i32,
    pub month: u8,
    pub day: u8,
}

/// An artist, as tagged.
#[derive(Clone, Debug)]
pub struct ArtistInfo {
    pub name: String,
    pub mbid: Option<String>,
    /// What tells this artist from others: equal for the same artist.
    pub comp_id: String,
}

/// An album, as tagged.
#[derive(Clone, Debug)]
pub struct AlbumInfo {
    pub title: String,
    pub mbid: Option<String>,
    /// The album artist tag as it stands, before it is split into artists.
    pub artist_tag: Option<String>,
    pub artists: Vec<ArtistInfo>,
    /// What tells this album from others: equal for the same album.
    pub comp_id: String,
}

/// A song, as tagged.
#[derive(Clone, Debug)]
pub struct SongInfo {
    pub uri: String,
    pub title: String,
    pub artist_tag: Option<String>,
    pub artists: Vec<ArtistInfo>,
    pub album: Option<AlbumInfo>,
    pub release_date: Option<Date>,
    pub track: Option<i64>,
}

/// What kind of thing an entry of a folder is.
#[derive(Clone, Copy, Debug, PartialEq, Eq, Structural)]
pub enum INodeType {
    Folder,
    Song,
    Playlist,
    Unknown,
}

/// An entry of a folder, or a playlist in a list of them.
#[derive(Clone, Debug)]
pub struct INode {
    pub uri: String,
    pub inode_type: INodeType,
    pub last_modified: Option<String>,
}

} // verus!
