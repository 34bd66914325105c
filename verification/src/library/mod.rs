//! The music library: its controller and the views that browse it.
pub mod album_cell;
pub mod album_content_view;
pub mod album_view;
pub mod artist_cell;
pub mod artist_content_view;
pub mod controller;
pub mod discography;
pub mod discography_album;
pub mod discography_year;
pub mod dynamic_playlist_content_view;
pub mod folder_view;
pub mod new_tag;
pub mod playlist_content_view;
pub mod playlist_row;
pub mod playlist_song_row;
pub mod selection;
pub mod sorting;
pub mod tag;
pub mod tag_button;
pub mod tags_filter;
pub mod tags_section;
