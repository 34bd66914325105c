//! A song of a playlist in a list.
use crate::library::controller::{
    commands, queueing, start, ClientCommand, CommandView, Library,
};
use crate::text::{decimal, decimal_string, same};
use vstd::prelude::*;

verus! {

/// Which buttons a row has.
#[derive(Clone, Copy, Debug, PartialEq, Eq, Structural)]
pub struct PlaylistSongRow {
    pub queue_controls_visible: bool,
    pub edit_controls_visible: bool,
}

impl PlaylistSongRow {
    /// Whether the queue buttons are shown.
    pub fn get_queue_controls_visible(&self) -> (r: bool)
        ensures
            r == self.queue_controls_visible,
    {
        self.queue_controls_visible
    }

    /// Shows or hides the queue buttons. Returns whether that is news.
    pub fn set_queue_controls_visible(&mut self, new: bool) -> (r: bool)
        ensures
            final(self).queue_controls_visible == new,
            final(self).edit_controls_visible == old(self).edit_controls_visible,
            r == (old(self).queue_controls_visible != new),
    {
        let changed: bool = self.queue_controls_visible != new;
        self.queue_controls_visible = new;
        changed
    }

    /// Whether the edit buttons are shown.
    pub fn get_edit_controls_visible(&self) -> (r: bool)
        ensures
            r == self.edit_controls_visible,
    {
        self.edit_controls_visible
    }

    /// Shows or hides the edit buttons. Returns whether that is news.
    pub fn set_edit_controls_visible(&mut self, new: bool) -> (r: bool)
        ensures
            final(self).edit_controls_visible == new,
            final(self).queue_controls_visible == old(self).queue_controls_visible,
            r == (old(self).edit_controls_visible != new),
    {
        let changed: bool = self.edit_controls_visible != new;
        self.edit_controls_visible = new;
        changed
    }
}

/// The text on the position of a song.
pub fn order_label(position: u32) -> (r: String)
    ensures
        r@ == decimal(position as nat),
{
    decimal_string(position as u64)
}

/// Whether news about the cover in a folder concerns the song's album.
pub fn concerns_song(album_uri: Option<&str>, folder_uri: &str) -> (r: bool)
    ensures
        r == (album_uri is Some && album_uri->0@ == folder_uri@),
{
    match album_uri {
        Some(uri) => same(uri, folder_uri),
        None => false,
    }
}

/// What the play button of a row asks for.
pub fn replace_queue(uri: &str) -> (r: Vec<ClientCommand>)
    ensures
        commands(r@) == queueing(
            true,
            CommandView::AddMulti { uris: seq![uri@], recursive: false, at: None },
            start(true),
        ),
{
    Library::queue_uri(uri, true, true, false)
}

/// What the queue button of a row asks for.
pub fn append_queue(uri: &str) -> (r: Vec<ClientCommand>)
    ensures
        commands(r@) == queueing(
            false,
            CommandView::AddMulti { uris: seq![uri@], recursive: false, at: None },
            start(false),
        ),
{
    Library::queue_uri(uri, false, false, false)
}

/// A row plays its song in place of the queue, or queues it behind the queue, as
/// queueing its URI does, and nothing but the song.
pub proof fn rows_queue_their_song(
    uri: &str,
    play: Vec<ClientCommand>,
    queue: Vec<ClientCommand>,
)
    requires
        call_ensures(replace_queue, (uri,), play),
        call_ensures(append_queue, (uri,), queue),
    ensures
        play@.len() == 3,
        play@[0] == ClientCommand::ClearQueue,
        play@[1] matches ClientCommand::AddMulti { uris, recursive, at } && uris@.len() == 1
            && uris@[0]@ == uri@ && !recursive && at is None,
        play@[2] == (ClientCommand::PlayAt { position: 0 }),
        queue@.len() == 1,
        queue@[0] matches ClientCommand::AddMulti { uris, recursive, at } && uris@.len() == 1
            && uris@[0]@ == uri@ && !recursive && at is None,
{
    let (now, later) = (commands(play@), commands(queue@));
    assert(now.len() == play@.len());
    assert(later.len() == queue@.len());
    assert(now[0] == play@[0]@ && now[1] == play@[1]@ && now[2] == play@[2]@);
    assert(later[0] == queue@[0]@);
    if let ClientCommand::AddMulti { uris, recursive, at } = play@[1] {
        assert(crate::text::views(uris@).len() == uris@.len());
        assert(crate::text::views(uris@)[0] == uris@[0]@);
    }
    if let ClientCommand::AddMulti { uris, recursive, at } = queue@[0] {
        assert(crate::text::views(uris@).len() == uris@.len());
        assert(crate::text::views(uris@)[0] == uris@[0]@);
    }
}

/// The two kinds of buttons are shown independently, and a row tells when that
/// changes.
pub proof fn rows_show_the_buttons_they_are_told_to(
    queue: &mut PlaylistSongRow,
    edit: &mut PlaylistSongRow,
    queue_visible: bool,
    edit_visible: bool,
    queue_news: bool,
    edit_news: bool,
    queue_now: bool,
    edit_now: bool,
)
    requires
        call_ensures(
            PlaylistSongRow::set_queue_controls_visible,
            (queue, queue_visible),
            queue_news,
        ),
        *old(edit) == *final(queue),
        call_ensures(PlaylistSongRow::set_edit_controls_visible, (edit, edit_visible), edit_news),
        call_ensures(PlaylistSongRow::get_queue_controls_visible, (final(edit),), queue_now),
        call_ensures(PlaylistSongRow::get_edit_controls_visible, (final(edit),), edit_now),
    ensures
        queue_now == queue_visible,
        edit_now == edit_visible,
        queue_news <==> old(queue).queue_controls_visible != queue_visible,
        edit_news <==> old(queue).edit_controls_visible != edit_visible,
{
}

/// A song is numbered by its position; news about a folder concerns the songs of
/// that folder only.
pub proof fn songs_are_numbered_by_position(
    position: u32,
    label: String,
    number: String,
    album: &str,
    folder: &str,
    concerned: bool,
    nobody: bool,
)
    requires
        call_ensures(order_label, (position,), label),
        call_ensures(decimal_string, (position as u64,), number),
        call_ensures(concerns_song, (Some(album), folder), concerned),
        call_ensures(concerns_song, (None, folder), nobody),
    ensures
        label@ == number@,
        concerned <==> album@ == folder@,
        !nobody,
{
}

} // verus!
