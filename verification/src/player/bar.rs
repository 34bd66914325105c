//! The bar at the bottom of the window.
use crate::player::animation::PlaybackState;
use vstd::prelude::*;

verus! {

/// How much the bar shows.
#[derive(Clone, Copy, Debug, PartialEq, Eq, Structural)]
pub enum BarLayout {
    Micro,
    Mini,
    Full,
}

/// The layout with a number. There are three.
pub fn layout_numbered(layout: u32) -> (r: Option<BarLayout>)
    ensures
        r == (match layout {
            0 => Some(BarLayout::Micro),
            1 => Some(BarLayout::Mini),
            2 => Some(BarLayout::Full),
            _ => None,
        }),
{
    match layout {
        0 => Some(BarLayout::Micro),
        1 => Some(BarLayout::Mini),
        2 => Some(BarLayout::Full),
        _ => None,
    }
}

/// What a layout looks like.
#[derive(Clone, Copy, Debug)]
pub struct BarParts {
    pub layout_name: &'static str,
    pub seekbar: bool,
    pub album: bool,
    pub output_section: bool,
    pub vol_knob: bool,
}

/// Which parts of the bar are shown: the seek bar from the middle layout on, the
/// rest in the full one only.
pub fn parts(layout: BarLayout) -> (r: BarParts)
    ensures
        r.layout_name@ == (match layout {
            BarLayout::Micro => "micro"@,
            BarLayout::Mini => "mini"@,
            BarLayout::Full => "full"@,
        }),
        r.seekbar == (layout !is Micro),
        r.album == (layout is Full),
        r.output_section == (layout is Full),
        r.vol_knob == (layout is Full),
{
    let full: bool = matches!(layout, BarLayout::Full);
    BarParts {
        layout_name: match layout {
            BarLayout::Micro => "micro",
            BarLayout::Mini => "mini",
            BarLayout::Full => "full",
        },
        seekbar: !matches!(layout, BarLayout::Micro),
        album: full,
        output_section: full,
        vol_knob: full,
    }
}

/// Whether what belongs to the current song is shown.
pub fn song_shown(state: PlaybackState) -> (r: bool)
    ensures
        r == (state != PlaybackState::Stopped),
{
    !matches!(state, PlaybackState::Stopped)
}

/// What looking up the cover of a song came to.
#[derive(Clone, Copy, Debug, PartialEq, Eq, Structural)]
pub enum ArtReply {
    Found,
    Missing,
    Failed,
}

/// What the cover's place shows.
#[derive(Clone, Copy, Debug, PartialEq, Eq, Structural)]
pub enum ArtAction {
    Spinner,
    Show,
    Clear,
}

/// What the cover's place shows while there is no reply yet: there is nothing to
/// look up without a song.
pub fn art_requested(has_song: bool) -> (r: ArtAction)
    ensures
        r == (if has_song {
            ArtAction::Spinner
        } else {
            ArtAction::Clear
        }),
{
    if has_song {
        ArtAction::Spinner
    } else {
        ArtAction::Clear
    }
}

/// What the cover's place shows once there is a reply.
pub fn art_received(reply: ArtReply) -> (r: ArtAction)
    ensures
        r == (if reply is Found {
            ArtAction::Show
        } else {
            ArtAction::Clear
        }),
{
    match reply {
        ArtReply::Found => ArtAction::Show,
        ArtReply::Missing | ArtReply::Failed => ArtAction::Clear,
    }
}

/// The layouts are numbered from the smallest to the largest, and a larger one shows
/// all that a smaller one shows.
pub proof fn larger_layouts_show_more(
    number: u32,
    layout: Option<BarLayout>,
    micro: BarParts,
    mini: BarParts,
    full: BarParts,
)
    requires
        call_ensures(layout_numbered, (number,), layout),
        call_ensures(parts, (BarLayout::Micro,), micro),
        call_ensures(parts, (BarLayout::Mini,), mini),
        call_ensures(parts, (BarLayout::Full,), full),
    ensures
        layout is None <==> number > 2,
        number == 0 ==> layout == Some(BarLayout::Micro),
        number == 1 ==> layout == Some(BarLayout::Mini),
        number == 2 ==> layout == Some(BarLayout::Full),
        !micro.seekbar && !micro.album && !micro.output_section && !micro.vol_knob,
        mini.seekbar && !mini.album && !mini.output_section && !mini.vol_knob,
        full.seekbar && full.album && full.output_section && full.vol_knob,
        micro.layout_name@ == "micro"@,
        mini.layout_name@ == "mini"@,
        full.layout_name@ == "full"@,
{
}

/// The song is shown unless the player has stopped. Its cover is looked up if there
/// is a song, and shown if it was found.
pub proof fn covers_are_shown_if_found(
    playing: bool,
    paused: bool,
    stopped: bool,
    with_song: ArtAction,
    without: ArtAction,
    found: ArtAction,
    missing: ArtAction,
    failed: ArtAction,
)
    requires
        call_ensures(song_shown, (PlaybackState::Playing,), playing),
        call_ensures(song_shown, (PlaybackState::Paused,), paused),
        call_ensures(song_shown, (PlaybackState::Stopped,), stopped),
        call_ensures(art_requested, (true,), with_song),
        call_ensures(art_requested, (false,), without),
        call_ensures(art_received, (ArtReply::Found,), found),
        call_ensures(art_received, (ArtReply::Missing,), missing),
        call_ensures(art_received, (ArtReply::Failed,), failed),
    ensures
        playing && paused && !stopped,
        with_song == ArtAction::Spinner,
        without == ArtAction::Clear,
        found == ArtAction::Show,
        missing == ArtAction::Clear,
        failed == ArtAction::Clear,
{
}

} // verus!
