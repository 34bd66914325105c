//! The large view of the current song, with its lyrics.
use crate::library::controller::StickersSupportLevel;
use crate::paths::{file_path, percent_decoded, without_scheme};
use crate::player::animation::PlaybackState;
use crate::player::bar::song_shown;
use crate::text::{as_opt_str, opt_view, or_placeholder, same, shown_text};
use vstd::prelude::*;
use vstd::utf8::*;

verus! {

/// What the player and the server say, as far as the pane shows it.
#[derive(Debug)]
pub struct PaneInput {
    pub playback: PlaybackState,
    pub title: String,
    pub album: Option<String>,
    pub artist: Option<String>,
    /// The rating of the current song.
    pub rating: i8,
    /// How the server supports stickers.
    pub level: StickersSupportLevel,
}

/// A change of what the player or the server says.
#[derive(Debug)]
pub enum PaneEvent {
    Playback(PlaybackState),
    Title(String),
    Album(Option<String>),
    Artist(Option<String>),
    Rating(i8),
    Level(StickersSupportLevel),
}

impl PaneInput {
    /// What is said after a change.
    pub open spec fn after(self, event: PaneEvent) -> PaneInput {
        match event {
            PaneEvent::Playback(playback) => PaneInput { playback, ..self },
            PaneEvent::Title(title) => PaneInput { title, ..self },
            PaneEvent::Album(album) => PaneInput { album, ..self },
            PaneEvent::Artist(artist) => PaneInput { artist, ..self },
            PaneEvent::Rating(rating) => PaneInput { rating, ..self },
            PaneEvent::Level(level) => PaneInput { level, ..self },
        }
    }
}

/// What the pane shows of the current song.
#[derive(Debug)]
pub struct PaneParts {
    pub info_box: bool,
    pub seekbar: bool,
    pub title: String,
    pub album: String,
    pub artist: String,
    pub stars: i8,
    pub stars_visible: bool,
}

/// What [`PaneParts`] say.
pub struct PartsView {
    pub info_box: bool,
    pub seekbar: bool,
    pub title: Seq<char>,
    pub album: Seq<char>,
    pub artist: Seq<char>,
    pub stars: i8,
    pub stars_visible: bool,
}

impl View for PaneParts {
    type V = PartsView;

    open spec fn view(&self) -> PartsView {
        PartsView {
            info_box: self.info_box,
            seekbar: self.seekbar,
            title: self.title@,
            album: self.album@,
            artist: self.artist@,
            stars: self.stars,
            stars_visible: self.stars_visible,
        }
    }
}

/// What the pane is to show: the song unless the player has stopped, the stars if
/// the server keeps stickers on songs, and a placeholder for a tag that is missing
/// or empty.
pub open spec fn parts_of(
    input: PaneInput,
    empty_album: Seq<char>,
    empty_artist: Seq<char>,
) -> PartsView {
    PartsView {
        info_box: input.playback != PlaybackState::Stopped,
        seekbar: input.playback != PlaybackState::Stopped,
        title: input.title@,
        album: or_placeholder(opt_view(input.album), empty_album),
        artist: or_placeholder(opt_view(input.artist), empty_artist),
        stars: input.rating,
        stars_visible: input.level !is Disabled,
    }
}

/// What is said after the first `n` changes.
pub open spec fn said(input: PaneInput, events: Seq<PaneEvent>, n: int) -> PaneInput
    decreases n,
{
    if n <= 0 {
        input
    } else {
        said(input, events, n - 1).after(events[n - 1])
    }
}

/// The state of the pane.
#[derive(Debug)]
pub struct PlayerPane {
    pub input: PaneInput,
    /// The words for a missing album.
    pub empty_album: String,
    /// The words for a missing artist.
    pub empty_artist: String,
    pub parts: PaneParts,
}

impl PlayerPane {
    /// The pane shows what it is to show.
    pub open spec fn up_to_date(self) -> bool {
        self.parts@ == parts_of(self.input, self.empty_album@, self.empty_artist@)
    }

    /// `self` is `before` after a change.
    pub open spec fn follows(self, before: Self, event: PaneEvent) -> bool {
        &&& self.input == before.input.after(event)
        &&& self.empty_album == before.empty_album
        &&& self.empty_artist == before.empty_artist
        &&& self.up_to_date()
    }

    /// A pane that shows this.
    pub fn bind_state(input: PaneInput, empty_album: String, empty_artist: String) -> (r: PlayerPane)
        ensures
            r.input == input,
            r.empty_album == empty_album,
            r.empty_artist == empty_artist,
            r.up_to_date(),
    {
        let parts: PaneParts = PaneParts {
            info_box: song_shown(input.playback),
            seekbar: song_shown(input.playback),
            title: input.title.clone(),
            album: shown_text(as_opt_str(&input.album), empty_album.as_str()),
            artist: shown_text(as_opt_str(&input.artist), empty_artist.as_str()),
            stars: input.rating,
            stars_visible: rating_visible(input.level),
        };
        PlayerPane { input, empty_album, empty_artist, parts }
    }

    /// Something has changed, and what depends on it is shown anew.
    pub fn on_event(&mut self, event: PaneEvent)
        requires
            old(self).up_to_date(),
        ensures
            final(self).follows(*old(self), event),
    {
        match event {
            PaneEvent::Playback(playback) => {
                self.input.playback = playback;
                self.parts.info_box = song_shown(playback);
                self.parts.seekbar = song_shown(playback);
            },
            PaneEvent::Title(title) => {
                self.parts.title = title.clone();
                self.input.title = title;
            },
            PaneEvent::Album(album) => {
                self.parts.album = shown_text(as_opt_str(&album), self.empty_album.as_str());
                self.input.album = album;
            },
            PaneEvent::Artist(artist) => {
                self.parts.artist = shown_text(as_opt_str(&artist), self.empty_artist.as_str());
                self.input.artist = artist;
            },
            PaneEvent::Rating(rating) => {
                self.input.rating = rating;
                self.parts.stars = rating;
            },
            PaneEvent::Level(level) => {
                self.input.level = level;
                self.parts.stars_visible = rating_visible(level);
            },
        }
    }
}

/// At once and after every change, the pane shows what the player and the server
/// said last.
pub proof fn the_pane_keeps_up(panes: Seq<PlayerPane>, events: Seq<PaneEvent>, i: int)
    requires
        panes.len() == events.len() + 1,
        panes[0].up_to_date(),
        forall|k: int, l: int|
            0 <= k && l == k + 1 && l < panes.len() ==> (#[trigger] panes[l]).follows(
                #[trigger] panes[k],
                events[k],
            ),
        0 <= i < panes.len(),
    ensures
        panes[i].input == said(panes[0].input, events, i),
        panes[i].empty_album == panes[0].empty_album,
        panes[i].empty_artist == panes[0].empty_artist,
        panes[i].parts@ == parts_of(
            said(panes[0].input, events, i),
            panes[0].empty_album@,
            panes[0].empty_artist@,
        ),
    decreases i,
{
    if i > 0 {
        the_pane_keeps_up(panes, events, i - 1);
        assert(panes[i].follows(panes[i - 1], events[i - 1]));
    }
}

/// Which of the lyrics' controls are there.
#[derive(Clone, Copy, Debug, PartialEq, Eq, Structural)]
pub struct LyricsControls {
    pub window_visible: bool,
    pub export_sensitive: bool,
    pub clear_sensitive: bool,
    pub refetch_visible: bool,
}

/// Which of the lyrics' controls are there: without lyrics they can only be
/// fetched.
pub fn update_lyrics_availability(n_lines: u32, show: bool) -> (r: LyricsControls)
    ensures
        r == (LyricsControls {
            window_visible: n_lines > 0 && show,
            export_sensitive: n_lines > 0,
            clear_sensitive: n_lines > 0,
            refetch_visible: n_lines == 0,
        }),
{
    let has_lyrics: bool = n_lines > 0;
    LyricsControls {
        window_visible: has_lyrics && show,
        export_sensitive: has_lyrics,
        clear_sensitive: has_lyrics,
        refetch_visible: !has_lyrics,
    }
}

/// How strongly a line is drawn.
#[derive(Clone, Copy, Debug, PartialEq, Eq, Structural)]
pub enum Opacity {
    Full,
    /// At a fifth of the full strength.
    Dimmed,
}

/// How strongly a line is drawn: with lyrics that follow the song, only the
/// current one stands out.
pub open spec fn opacity_of(line: int, current: int, following: bool) -> Opacity {
    if following && line != current {
        Opacity::Dimmed
    } else {
        Opacity::Full
    }
}

/// How the lyrics are drawn.
#[derive(Debug)]
pub struct LyricsState {
    pub opacities: Vec<Opacity>,
    /// The line to bring to the middle, if the lyrics follow the song.
    pub centred: Option<u32>,
}

/// How the lyrics are drawn. They follow the song if they have time stamps and
/// the user wants it so.
pub fn update_lyrics_state(n_lines: u32, current: u32, synced: bool, use_synced: bool) -> (r:
    LyricsState)
    ensures
        r.opacities.len() == n_lines,
        forall|i: int|
            0 <= i < n_lines ==> #[trigger] r.opacities@[i] == opacity_of(
                i,
                current as int,
                synced && use_synced,
            ),
        r.centred == (if synced && use_synced && current < n_lines {
            Some(current)
        } else {
            None
        }),
{
    let following: bool = synced && use_synced;
    let mut opacities: Vec<Opacity> = Vec::new();
    for i in 0..n_lines
        invariant
            opacities.len() == i,
            forall|j: int|
                0 <= j < i ==> #[trigger] opacities@[j] == opacity_of(
                    j,
                    current as int,
                    following,
                ),
    {
        opacities.push(
            if following && i != current {
                Opacity::Dimmed
            } else {
                Opacity::Full
            },
        );
    }
    LyricsState {
        opacities,
        centred: if following && current < n_lines {
            Some(current)
        } else {
            None
        },
    }
}

/// Of lyrics that follow the song, one line at most stands out, and it is the
/// current one; of others, all do.
pub proof fn only_the_current_line_stands_out(line: int, current: int, following: bool)
    ensures
        opacity_of(line, current, following) is Full <==> (!following || line == current),
{
}

/// How strongly a new line is drawn until the lyrics are drawn as a whole.
pub fn new_line_opacity(synced: bool) -> (r: Opacity)
    ensures
        r == (if synced {
            Opacity::Dimmed
        } else {
            Opacity::Full
        }),
{
    if synced {
        Opacity::Dimmed
    } else {
        Opacity::Full
    }
}

/// The icon of the lyrics' menu.
pub fn lyrics_icon(show: bool) -> (r: &'static str)
    ensures
        r@ == (if show {
            "lyrics-on-symbolic"@
        } else {
            "lyrics-off-symbolic"@
        }),
{
    if show {
        "lyrics-on-symbolic"
    } else {
        "lyrics-off-symbolic"
    }
}

/// The words for an icon of the ReplayGain modes.
pub open spec fn replaygain_words(icon: Seq<char>) -> Option<Seq<char>> {
    if icon == "rg-off-symbolic"@ {
        Some("ReplayGain: off"@)
    } else if icon == "rg-auto-symbolic"@ {
        Some("ReplayGain: auto-select between track & album"@)
    } else if icon == "rg-track-symbolic"@ {
        Some("ReplayGain: track"@)
    } else if icon == "rg-album-symbolic"@ {
        Some("ReplayGain: album"@)
    } else {
        None
    }
}

/// The tooltip of the ReplayGain button, which shows an icon for each mode.
pub fn replaygain_tooltip(icon: &str) -> (r: Option<&'static str>)
    ensures
        match replaygain_words(icon@) {
            Some(words) => r is Some && r->0@ == words,
            None => r is None,
        },
{
    if same(icon, "rg-off-symbolic") {
        Some("ReplayGain: off")
    } else if same(icon, "rg-auto-symbolic") {
        Some("ReplayGain: auto-select between track & album")
    } else if same(icon, "rg-track-symbolic") {
        Some("ReplayGain: track")
    } else if same(icon, "rg-album-symbolic") {
        Some("ReplayGain: album")
    } else {
        None
    }
}

/// The icon of the crossfade button. Songs are faded over a positive time.
pub fn crossfade_icon(positive: bool) -> (r: &'static str)
    ensures
        r@ == (if positive {
            "crossfade-symbolic"@
        } else {
            "crossfade-off-symbolic"@
        }),
{
    if positive {
        "crossfade-symbolic"
    } else {
        "crossfade-off-symbolic"
    }
}

/// The icon of the MixRamp button. Songs are mixed over a positive time.
pub fn mixramp_icon(positive: bool) -> (r: &'static str)
    ensures
        r@ == (if positive {
            "mixramp-symbolic"@
        } else {
            "mixramp-off-symbolic"@
        }),
{
    if positive {
        "mixramp-symbolic"
    } else {
        "mixramp-off-symbolic"
    }
}

/// Whether the volume is shown in decibels.
pub fn uses_decibels(unit: &str) -> (r: bool)
    ensures
        r == (unit@ == "decibels"@),
{
    same(unit, "decibels")
}

/// Whether the stars are there: the server has to keep stickers on songs.
pub fn rating_visible(level: StickersSupportLevel) -> (r: bool)
    ensures
        r == (level !is Disabled),
{
    !matches!(level, StickersSupportLevel::Disabled)
}

/// What fetching lyrics came to.
#[derive(Clone, Copy, Debug, PartialEq, Eq, Structural)]
pub enum LyricsReply {
    Found,
    Missing,
    Failed,
}

/// What to do when lyrics were fetched.
#[derive(Clone, Copy, Debug)]
pub enum LyricsAction {
    /// Take them as if the user had imported them.
    Import,
    Toast(&'static str),
}

/// What to do when lyrics were fetched.
pub fn lyrics_received(reply: LyricsReply) -> (r: LyricsAction)
    ensures
        match reply {
            LyricsReply::Found => r is Import,
            LyricsReply::Missing => r is Toast && r->Toast_0@ == "No lyrics found"@,
            LyricsReply::Failed => r is Toast && r->Toast_0@
                == "Could not fetch lyrics (internal error)"@,
        },
{
    match reply {
        LyricsReply::Found => LyricsAction::Import,
        LyricsReply::Missing => LyricsAction::Toast("No lyrics found"),
        LyricsReply::Failed => LyricsAction::Toast("Could not fetch lyrics (internal error)"),
    }
}

/// What became of picking a file.
#[derive(Debug)]
pub enum PickedFile {
    /// The user picked none.
    Nothing,
    Path(String),
    /// The path is not UTF-8.
    Unreadable,
}

/// The file that lyrics are read from or written to: the first of those picked.
pub fn picked_file(uris: &Vec<String>) -> (r: PickedFile)
    ensures
        uris.len() == 0 <==> r is Nothing,
        uris.len() > 0 ==> ({
            let bytes = percent_decoded(encode_utf8(without_scheme(uris@[0]@)));
            match r {
                PickedFile::Nothing => false,
                PickedFile::Path(path) => encode_utf8(path@) == bytes,
                PickedFile::Unreadable => !valid_utf8(bytes),
            }
        }),
{
    if uris.len() == 0 {
        PickedFile::Nothing
    } else {
        match file_path(uris[0].as_str()) {
            Some(path) => PickedFile::Path(path),
            None => PickedFile::Unreadable,
        }
    }
}

/// How the cover turns on when the next song begins.
#[derive(Clone, Copy, Debug, PartialEq, Eq, Structural)]
pub enum Turn {
    /// From the angle that it has. The player may change songs before the last
    /// frame of one is drawn, and the cover would jump.
    FromCurrentAngle,
    /// From upright, without regard to fractions of a second.
    FromUpright,
}

/// How the cover turns on when the next song begins: only the same cover, after
/// a song that came to its end, turns on from where it is.
pub fn on_song_changed(cover_changed: bool, automatic_transition: bool) -> (r: Turn)
    ensures
        r == (if !cover_changed && automatic_transition {
            Turn::FromCurrentAngle
        } else {
            Turn::FromUpright
        }),
{
    if !cover_changed && automatic_transition {
        Turn::FromCurrentAngle
    } else {
        Turn::FromUpright
    }
}

/// How the angle of the cover is brought up to date.
#[derive(Clone, Copy, Debug, PartialEq, Eq, Structural)]
pub enum Resync {
    /// Set the angle for the position in the song.
    ToPosition,
    /// Only start or stop the animation.
    AnimationOnly,
}

/// How the angle of the cover is brought up to date: there is one if the cover is
/// round and there is a player.
pub fn resync_album_art_rotation(circular: bool, has_player: bool) -> (r: Resync)
    ensures
        r == (if circular && has_player {
            Resync::ToPosition
        } else {
            Resync::AnimationOnly
        }),
{
    if circular && has_player {
        Resync::ToPosition
    } else {
        Resync::AnimationOnly
    }
}

/// Whether the cover turns: if it is round and a song is playing.
pub fn should_rotate(circular: bool, state: Option<PlaybackState>) -> (r: bool)
    ensures
        r == (circular && state == Some(PlaybackState::Playing)),
{
    circular && crate::player::animation::player_is_playing(state)
}

/// A pane shows the song unless the player has stopped, its title, its album and
/// artist or the words for missing ones, and its rating if the server keeps one.
pub proof fn the_pane_shows_the_song(
    input: PaneInput,
    empty_album: String,
    empty_artist: String,
    pane: PlayerPane,
)
    requires
        call_ensures(PlayerPane::bind_state, (input, empty_album, empty_artist), pane),
    ensures
        pane.parts.info_box <==> input.playback != PlaybackState::Stopped,
        pane.parts.seekbar == pane.parts.info_box,
        pane.parts.title@ == input.title@,
        input.album is Some && input.album->0@.len() > 0 ==> pane.parts.album@ == input.album->0@,
        input.album is None || input.album->0@.len() == 0 ==> pane.parts.album@ == empty_album@,
        input.artist is Some && input.artist->0@.len() > 0 ==> pane.parts.artist@ == input.artist->0@,
        input.artist is None || input.artist->0@.len() == 0 ==> pane.parts.artist@ == empty_artist@,
        pane.parts.stars == input.rating,
        pane.parts.stars_visible <==> input.level != StickersSupportLevel::Disabled,
{
    let parts = pane.parts@;
    assert(parts == parts_of(input, empty_album@, empty_artist@));
    assert(parts.title == pane.parts.title@);
    assert(parts.album == pane.parts.album@);
    assert(parts.artist == pane.parts.artist@);
    assert(parts.info_box == pane.parts.info_box && parts.seekbar == pane.parts.seekbar);
    assert(parts.stars == pane.parts.stars && parts.stars_visible == pane.parts.stars_visible);
}

/// After a change a pane shows what one that is bound anew to the changed song
/// would show.
pub proof fn a_change_shows_like_a_new_pane(
    pane: &mut PlayerPane,
    event: PaneEvent,
    changed: PaneInput,
    fresh: PlayerPane,
)
    requires
        old(pane).up_to_date(),
        call_ensures(PlayerPane::on_event, (pane, event), ()),
        match event {
            PaneEvent::Playback(playback) => changed == (PaneInput {
                playback,
                ..old(pane).input
            }),
            PaneEvent::Title(title) => changed == (PaneInput { title, ..old(pane).input }),
            PaneEvent::Album(album) => changed == (PaneInput { album, ..old(pane).input }),
            PaneEvent::Artist(artist) => changed == (PaneInput { artist, ..old(pane).input }),
            PaneEvent::Rating(rating) => changed == (PaneInput { rating, ..old(pane).input }),
            PaneEvent::Level(level) => changed == (PaneInput { level, ..old(pane).input }),
        },
        call_ensures(
            PlayerPane::bind_state,
            (changed, old(pane).empty_album, old(pane).empty_artist),
            fresh,
        ),
    ensures
        final(pane).parts.title@ == fresh.parts.title@,
        final(pane).parts.album@ == fresh.parts.album@,
        final(pane).parts.artist@ == fresh.parts.artist@,
        final(pane).parts.stars == fresh.parts.stars,
        final(pane).parts.stars_visible == fresh.parts.stars_visible,
        final(pane).parts.info_box == fresh.parts.info_box,
        final(pane).parts.seekbar == fresh.parts.seekbar,
        final(pane).input == changed,
{
    assert(final(pane).input == changed);
    assert(final(pane).parts@ == fresh.parts@);
    let (now, new) = (final(pane).parts@, fresh.parts@);
    assert(now.title == final(pane).parts.title@ && new.title == fresh.parts.title@);
    assert(now.album == final(pane).parts.album@ && new.album == fresh.parts.album@);
    assert(now.artist == final(pane).parts.artist@ && new.artist == fresh.parts.artist@);
    assert(now.stars == final(pane).parts.stars && new.stars == fresh.parts.stars);
    assert(now.stars_visible == new.stars_visible);
    assert(now.info_box == new.info_box && now.seekbar == new.seekbar);
}

/// Lyrics are shown if there are any and they are wanted; without lyrics there is
/// nothing to export or to clear, and they can be fetched.
pub proof fn missing_lyrics_can_be_fetched(n_lines: u32, show: bool, controls: LyricsControls)
    requires
        call_ensures(update_lyrics_availability, (n_lines, show), controls),
    ensures
        controls.window_visible <==> n_lines > 0 && show,
        controls.export_sensitive <==> n_lines > 0,
        controls.clear_sensitive <==> n_lines > 0,
        controls.refetch_visible <==> n_lines == 0,
{
}

/// Lyrics that follow the song have one line that stands out, the current one, and
/// it stands in the middle; of others every line stands out and none is moved.
pub proof fn synced_lyrics_follow_the_song(
    n_lines: u32,
    current: u32,
    synced: bool,
    use_synced: bool,
    state: LyricsState,
    i: int,
)
    requires
        call_ensures(update_lyrics_state, (n_lines, current, synced, use_synced), state),
        0 <= i < n_lines,
    ensures
        state.opacities@.len() == n_lines,
        synced && use_synced ==> (state.opacities@[i] == Opacity::Full <==> i == current),
        synced && use_synced ==> (state.opacities@[i] == Opacity::Dimmed <==> i != current),
        !(synced && use_synced) ==> state.opacities@[i] == Opacity::Full && state.centred is None,
        synced && use_synced && current < n_lines ==> state.centred == Some(current),
        current >= n_lines ==> state.centred is None,
{
}

/// A new line is dimmed if it may follow the song; the icon tells whether lyrics
/// are shown.
pub proof fn new_lines_are_dimmed_if_synced(
    synced: Opacity,
    plain: Opacity,
    shown: &'static str,
    hidden: &'static str,
)
    requires
        call_ensures(new_line_opacity, (true,), synced),
        call_ensures(new_line_opacity, (false,), plain),
        call_ensures(lyrics_icon, (true,), shown),
        call_ensures(lyrics_icon, (false,), hidden),
    ensures
        synced == Opacity::Dimmed,
        plain == Opacity::Full,
        shown@ == "lyrics-on-symbolic"@,
        hidden@ == "lyrics-off-symbolic"@,
{
}

/// Each mode of ReplayGain has its words, and no other icon has any.
pub proof fn replaygain_modes_have_words(icon: &str, words: Option<&'static str>)
    requires
        call_ensures(replaygain_tooltip, (icon,), words),
    ensures
        words is Some <==> icon@ == "rg-off-symbolic"@ || icon@ == "rg-auto-symbolic"@ || icon@
            == "rg-track-symbolic"@ || icon@ == "rg-album-symbolic"@,
        icon@ == "rg-off-symbolic"@ ==> words->0@ == "ReplayGain: off"@,
        icon@ == "rg-auto-symbolic"@ ==> words->0@
            == "ReplayGain: auto-select between track & album"@,
        icon@ == "rg-track-symbolic"@ ==> words->0@ == "ReplayGain: track"@,
        icon@ == "rg-album-symbolic"@ ==> words->0@ == "ReplayGain: album"@,
{
    reveal_strlit("rg-off-symbolic");
    reveal_strlit("rg-auto-symbolic");
    reveal_strlit("rg-track-symbolic");
    reveal_strlit("rg-album-symbolic");
    assert("rg-off-symbolic"@.len() == 15);
    assert("rg-auto-symbolic"@.len() == 16);
    assert("rg-track-symbolic"@.len() == 17);
    assert("rg-album-symbolic"@.len() == 17);
    assert("rg-track-symbolic"@[3] == 't');
    assert("rg-album-symbolic"@[3] == 'a');
}

/// Crossfading and mixing are shown as on over a positive time, and only decibels
/// count as decibels.
pub proof fn fading_takes_time(
    fade: &'static str,
    cut: &'static str,
    mix: &'static str,
    no_mix: &'static str,
    unit: &str,
    decibels: bool,
)
    requires
        call_ensures(crossfade_icon, (true,), fade),
        call_ensures(crossfade_icon, (false,), cut),
        call_ensures(mixramp_icon, (true,), mix),
        call_ensures(mixramp_icon, (false,), no_mix),
        call_ensures(uses_decibels, (unit,), decibels),
    ensures
        fade@ == "crossfade-symbolic"@,
        cut@ == "crossfade-off-symbolic"@,
        mix@ == "mixramp-symbolic"@,
        no_mix@ == "mixramp-off-symbolic"@,
        decibels <==> unit@ == "decibels"@,
{
}

/// Songs can be rated where the server keeps any stickers at all.
pub proof fn song_ratings_take_stickers(disabled: bool, songs_only: bool, all: bool)
    requires
        call_ensures(rating_visible, (StickersSupportLevel::Disabled,), disabled),
        call_ensures(rating_visible, (StickersSupportLevel::SongsOnly,), songs_only),
        call_ensures(rating_visible, (StickersSupportLevel::All,), all),
    ensures
        !disabled && songs_only && all,
{
}

/// Lyrics that were found are taken; else the user is told why there are none.
pub proof fn found_lyrics_are_taken(
    found: LyricsAction,
    missing: LyricsAction,
    failed: LyricsAction,
)
    requires
        call_ensures(lyrics_received, (LyricsReply::Found,), found),
        call_ensures(lyrics_received, (LyricsReply::Missing,), missing),
        call_ensures(lyrics_received, (LyricsReply::Failed,), failed),
    ensures
        found is Import,
        missing matches LyricsAction::Toast(text) && text@ == "No lyrics found"@,
        failed matches LyricsAction::Toast(text) && text@
            == "Could not fetch lyrics (internal error)"@,
{
}

/// The first file that was picked is taken, by its path.
pub proof fn the_first_picked_file_is_taken(
    uris: &Vec<String>,
    first: &str,
    picked: PickedFile,
    path: Option<String>,
)
    requires
        call_ensures(picked_file, (uris,), picked),
        uris@.len() > 0 ==> first@ == uris@[0]@,
        uris@.len() > 0 ==> call_ensures(file_path, (first,), path),
    ensures
        picked is Nothing <==> uris@.len() == 0,
        uris@.len() > 0 ==> (path matches Some(p) ==> (picked matches PickedFile::Path(q) && q@
            == p@)),
        uris@.len() > 0 ==> (path is None ==> picked is Unreadable),
{
    if uris@.len() > 0 {
        if let PickedFile::Path(q) = picked {
            encode_utf8_valid_utf8(q@);
            encode_utf8_decode_utf8(q@);
        }
        if let Some(p) = path {
            encode_utf8_valid_utf8(p@);
            encode_utf8_decode_utf8(p@);
        }
    }
}

/// The cover turns on from its angle only if it stays and the song came to its
/// end; it turns only if it is round and a song is playing.
pub proof fn covers_turn_on_with_the_song(
    changed: bool,
    automatic: bool,
    turn: Turn,
    circular: bool,
    has_player: bool,
    resync: Resync,
    state: Option<PlaybackState>,
    rotating: bool,
)
    requires
        call_ensures(on_song_changed, (changed, automatic), turn),
        call_ensures(resync_album_art_rotation, (circular, has_player), resync),
        call_ensures(should_rotate, (circular, state), rotating),
    ensures
        turn == Turn::FromCurrentAngle <==> automatic && !changed,
        turn == Turn::FromUpright <==> changed || !automatic,
        resync == Resync::ToPosition <==> circular && has_player,
        rotating <==> circular && state == Some(PlaybackState::Playing),
{
}

} // verus!
