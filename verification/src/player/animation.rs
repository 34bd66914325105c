//! Animations that run while a song is playing.
use vstd::prelude::*;

verus! {

/// What the player is doing.
#[derive(Clone, Copy, Debug, PartialEq, Eq, Structural)]
pub enum PlaybackState {
    Stopped,
    Playing,
    Paused,
}

/// What an animation is doing.
#[derive(Clone, Copy, Debug, PartialEq, Eq, Structural)]
pub enum AnimationState {
    Idle,
    Paused,
    Playing,
    Finished,
}

/// What to tell an animation.
#[derive(Clone, Copy, Debug, PartialEq, Eq, Structural)]
pub enum AnimationCommand {
    Play,
    Resume,
    Pause,
    /// It does what it should.
    Keep,
}

impl AnimationCommand {
    /// What an animation is doing once it was told.
    pub open spec fn applied(self, state: AnimationState) -> AnimationState {
        match self {
            AnimationCommand::Play | AnimationCommand::Resume => AnimationState::Playing,
            AnimationCommand::Pause => AnimationState::Paused,
            AnimationCommand::Keep => state,
        }
    }
}

/// How an animation is brought to run, or not to run.
pub open spec fn synced(state: AnimationState, should_run: bool) -> AnimationCommand {
    if should_run {
        match state {
            AnimationState::Idle | AnimationState::Finished => AnimationCommand::Play,
            AnimationState::Paused => AnimationCommand::Resume,
            AnimationState::Playing => AnimationCommand::Keep,
        }
    } else if state is Playing {
        AnimationCommand::Pause
    } else {
        AnimationCommand::Keep
    }
}

/// Whether there is a player and a song is playing.
pub fn player_is_playing(state: Option<PlaybackState>) -> (r: bool)
    ensures
        r == (state == Some(PlaybackState::Playing)),
{
    match state {
        Some(s) => matches!(s, PlaybackState::Playing),
        None => false,
    }
}

/// What to tell an animation so that it runs, or does not.
pub fn sync_animation(state: AnimationState, should_run: bool) -> (r: AnimationCommand)
    ensures
        r == synced(state, should_run),
{
    if should_run {
        match state {
            AnimationState::Idle | AnimationState::Finished => AnimationCommand::Play,
            AnimationState::Paused => AnimationCommand::Resume,
            AnimationState::Playing => AnimationCommand::Keep,
        }
    } else if matches!(state, AnimationState::Playing) {
        AnimationCommand::Pause
    } else {
        AnimationCommand::Keep
    }
}

/// An animation that was synced runs if it should and not otherwise, and syncing
/// it once more changes nothing.
pub proof fn a_synced_animation_does_as_it_should(state: AnimationState, should_run: bool)
    ensures
        ({
            let after = synced(state, should_run).applied(state);
            (after is Playing <==> should_run) && synced(after, should_run) is Keep
        }),
{
}

/// An animation that should run is started, or resumed where it was paused; one that
/// should not is paused if it runs. One that does as it should is left alone.
pub proof fn animations_are_told_what_they_lack(
    state: AnimationState,
    run: AnimationCommand,
    rest: AnimationCommand,
)
    requires
        call_ensures(sync_animation, (state, true), run),
        call_ensures(sync_animation, (state, false), rest),
    ensures
        run == AnimationCommand::Play <==> state == AnimationState::Idle || state
            == AnimationState::Finished,
        run == AnimationCommand::Resume <==> state == AnimationState::Paused,
        run == AnimationCommand::Keep <==> state == AnimationState::Playing,
        rest == AnimationCommand::Pause <==> state == AnimationState::Playing,
        rest == AnimationCommand::Keep <==> state != AnimationState::Playing,
{
}

/// A song is playing if there is a player and it plays.
pub proof fn only_a_playing_player_plays(
    playing: bool,
    paused: bool,
    stopped: bool,
    nothing: bool,
)
    requires
        call_ensures(player_is_playing, (Some(PlaybackState::Playing),), playing),
        call_ensures(player_is_playing, (Some(PlaybackState::Paused),), paused),
        call_ensures(player_is_playing, (Some(PlaybackState::Stopped),), stopped),
        call_ensures(player_is_playing, (None,), nothing),
    ensures
        playing && !paused && !stopped && !nothing,
{
}

} // verus!
