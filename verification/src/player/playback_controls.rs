//! The buttons that play, pause and skip.
use crate::player::animation::PlaybackState;
use crate::text::join2;
use vstd::prelude::*;

verus! {

/// Which of its two symbols the button in the middle shows.
pub fn play_pause_symbol(state: PlaybackState) -> (r: &'static str)
    ensures
        r@ == (if state == PlaybackState::Playing {
            "play"@
        } else {
            "pause"@
        }),
{
    match state {
        PlaybackState::Playing => "play",
        PlaybackState::Paused | PlaybackState::Stopped => "pause",
    }
}

/// The tooltip of the button that switches the playback mode.
pub fn flow_tooltip(description: &str) -> (r: String)
    ensures
        r@ == "Playback Mode: "@ + description@,
{
    join2("Playback Mode: ", description)
}

/// Whether there is room for the seek bar.
pub fn seekbar_visible(collapsed: bool) -> (r: bool)
    ensures
        r == !collapsed,
{
    !collapsed
}

/// What the seek bar asks of the player.
#[derive(Clone, Copy, Debug, PartialEq, Eq, Structural)]
pub enum PollingCommand {
    BlockPolling,
    StopPolling,
    UnblockPolling,
    SendSeek,
}

/// What to ask when the seek bar is pressed: the position is not to move under
/// the user's hand.
pub fn on_pressed() -> (r: Vec<PollingCommand>)
    ensures
        r@ == seq![PollingCommand::BlockPolling, PollingCommand::StopPolling],
{
    let mut commands: Vec<PollingCommand> = Vec::new();
    commands.push(PollingCommand::BlockPolling);
    commands.push(PollingCommand::StopPolling);
    commands
}

/// What to ask when the seek bar is let go. The player polls again at its next
/// change of status, which the seek brings about.
pub fn on_released() -> (r: Vec<PollingCommand>)
    ensures
        r@ == seq![PollingCommand::UnblockPolling, PollingCommand::SendSeek],
{
    let mut commands: Vec<PollingCommand> = Vec::new();
    commands.push(PollingCommand::UnblockPolling);
    commands.push(PollingCommand::SendSeek);
    commands
}

/// The button shows one symbol while a song is playing, and another one else.
pub proof fn the_symbol_goes_with_the_state(
    playing: &'static str,
    paused: &'static str,
    stopped: &'static str,
)
    requires
        call_ensures(play_pause_symbol, (PlaybackState::Playing,), playing),
        call_ensures(play_pause_symbol, (PlaybackState::Paused,), paused),
        call_ensures(play_pause_symbol, (PlaybackState::Stopped,), stopped),
    ensures
        playing@ == "play"@,
        paused@ == "pause"@,
        stopped@ == "pause"@,
{
}

/// While the seek bar is held the player does not move it: polling is blocked and
/// stopped when it is pressed, and unblocked before the seek when it is let go.
pub proof fn polling_pauses_while_seeking(
    pressed: Vec<PollingCommand>,
    released: Vec<PollingCommand>,
    room: bool,
    no_room: bool,
    description: &str,
    tooltip: String,
)
    requires
        call_ensures(on_pressed, (), pressed),
        call_ensures(on_released, (), released),
        call_ensures(seekbar_visible, (false,), room),
        call_ensures(seekbar_visible, (true,), no_room),
        call_ensures(flow_tooltip, (description,), tooltip),
    ensures
        pressed@.len() == 2,
        pressed@[0] == PollingCommand::BlockPolling,
        pressed@[1] == PollingCommand::StopPolling,
        released@.len() == 2,
        released@[0] == PollingCommand::UnblockPolling,
        released@[1] == PollingCommand::SendSeek,
        room && !no_room,
        tooltip@ == "Playback Mode: "@ + description@,
{
}

} // verus!
