use euphonica::library::controller::StickersSupportLevel;
use euphonica::onboarding::window::{library_mode_illustration, Onboarding};
use euphonica::player::animation::{
    player_is_playing, sync_animation, AnimationCommand, AnimationState, PlaybackState,
};
use euphonica::player::bar::{
    art_received, art_requested, layout_numbered, parts, song_shown, ArtAction, ArtReply,
    BarLayout,
};
use euphonica::player::fft_backends::backend::FftStatus;
use euphonica::player::fft_backends::pipewire::{
    format_known, frame_millis, has_param, output_outdated, ParamChange, ParamValue, PipeWireFftBackend,
    SampleBuffers,
};
use euphonica::player::knob::{
    sync_value, KnobTurn, Loudness, OverflowSide, PointerSide, ToggleAction, VolumeKnob,
};
use euphonica::player::output_controls::{OutputControls, WidgetChanges};
use euphonica::player::pane;
use euphonica::player::pane::{
    LyricsAction, LyricsReply, Opacity, PaneEvent, PaneInput, PickedFile, PlayerPane, Resync, Turn,
};
use euphonica::player::playback_controls::{
    flow_tooltip, on_pressed, on_released, play_pause_symbol, seekbar_visible, PollingCommand,
};
use euphonica::player::queue_row::{
    quality_grade_visible, CoverSource, QueueRow, ThumbnailAction,
};
use euphonica::player::seekbar2::{duration_label, Seekbar};

fn s(text: &str) -> String {
    text.to_string()
}

#[test]
fn animations_run_while_a_song_plays() {
    assert!(player_is_playing(Some(PlaybackState::Playing)));
    assert!(!player_is_playing(Some(PlaybackState::Paused)));
    assert!(!player_is_playing(Some(PlaybackState::Stopped)));
    assert!(!player_is_playing(None));
    assert_eq!(sync_animation(AnimationState::Idle, true), AnimationCommand::Play);
    assert_eq!(sync_animation(AnimationState::Finished, true), AnimationCommand::Play);
    assert_eq!(sync_animation(AnimationState::Paused, true), AnimationCommand::Resume);
    assert_eq!(sync_animation(AnimationState::Playing, true), AnimationCommand::Keep);
    assert_eq!(sync_animation(AnimationState::Playing, false), AnimationCommand::Pause);
    assert_eq!(sync_animation(AnimationState::Paused, false), AnimationCommand::Keep);
    assert_eq!(sync_animation(AnimationState::Idle, false), AnimationCommand::Keep);
    assert_eq!(sync_animation(AnimationState::Finished, false), AnimationCommand::Keep);
}

#[test]
fn the_bar_has_layouts() {
    assert_eq!(layout_numbered(0), Some(BarLayout::Micro));
    assert_eq!(layout_numbered(1), Some(BarLayout::Mini));
    assert_eq!(layout_numbered(2), Some(BarLayout::Full));
    assert_eq!(layout_numbered(3), None);
    let micro = parts(BarLayout::Micro);
    assert_eq!(micro.layout_name, "micro");
    assert!(!micro.seekbar && !micro.album && !micro.output_section && !micro.vol_knob);
    let mini = parts(BarLayout::Mini);
    assert_eq!(mini.layout_name, "mini");
    assert!(mini.seekbar && !mini.album && !mini.output_section && !mini.vol_knob);
    let full = parts(BarLayout::Full);
    assert_eq!(full.layout_name, "full");
    assert!(full.seekbar && full.album && full.output_section && full.vol_knob);
    assert!(!song_shown(PlaybackState::Stopped));
    assert!(song_shown(PlaybackState::Paused));
}

#[test]
fn the_bar_shows_the_cover() {
    assert_eq!(art_requested(true), ArtAction::Spinner);
    assert_eq!(art_requested(false), ArtAction::Clear);
    assert_eq!(art_received(ArtReply::Found), ArtAction::Show);
    assert_eq!(art_received(ArtReply::Missing), ArtAction::Clear);
    assert_eq!(art_received(ArtReply::Failed), ArtAction::Clear);
}

#[test]
fn lyrics_have_controls() {
    let controls = pane::update_lyrics_availability(3, true);
    assert!(controls.window_visible && controls.export_sensitive && controls.clear_sensitive);
    assert!(!controls.refetch_visible);
    let controls = pane::update_lyrics_availability(3, false);
    assert!(!controls.window_visible && controls.export_sensitive);
    let controls = pane::update_lyrics_availability(0, true);
    assert!(!controls.window_visible && !controls.export_sensitive && !controls.clear_sensitive);
    assert!(controls.refetch_visible);
}

#[test]
fn only_the_current_line_of_synced_lyrics_stands_out() {
    let state = pane::update_lyrics_state(3, 1, true, true);
    assert_eq!(state.opacities, vec![Opacity::Dimmed, Opacity::Full, Opacity::Dimmed]);
    assert_eq!(state.centred, Some(1));
    for (synced, wanted) in [(false, true), (true, false), (false, false)] {
        let state = pane::update_lyrics_state(3, 1, synced, wanted);
        assert_eq!(state.opacities, vec![Opacity::Full; 3]);
        assert_eq!(state.centred, None);
    }
    let state = pane::update_lyrics_state(0, 0, true, true);
    assert!(state.opacities.is_empty());
    assert_eq!(state.centred, None);
    assert_eq!(pane::new_line_opacity(true), Opacity::Dimmed);
    assert_eq!(pane::new_line_opacity(false), Opacity::Full);
}

#[test]
fn the_pane_has_icons_and_tooltips() {
    assert_eq!(pane::lyrics_icon(true), "lyrics-on-symbolic");
    assert_eq!(pane::lyrics_icon(false), "lyrics-off-symbolic");
    assert_eq!(pane::replaygain_tooltip("rg-off-symbolic"), Some("ReplayGain: off"));
    assert_eq!(
        pane::replaygain_tooltip("rg-auto-symbolic"),
        Some("ReplayGain: auto-select between track & album")
    );
    assert_eq!(pane::replaygain_tooltip("rg-track-symbolic"), Some("ReplayGain: track"));
    assert_eq!(pane::replaygain_tooltip("rg-album-symbolic"), Some("ReplayGain: album"));
    assert_eq!(pane::replaygain_tooltip("other"), None);
    assert_eq!(pane::crossfade_icon(true), "crossfade-symbolic");
    assert_eq!(pane::crossfade_icon(false), "crossfade-off-symbolic");
    assert_eq!(pane::mixramp_icon(true), "mixramp-symbolic");
    assert_eq!(pane::mixramp_icon(false), "mixramp-off-symbolic");
    assert!(pane::uses_decibels("decibels"));
    assert!(!pane::uses_decibels("percents"));
    assert!(pane::rating_visible(StickersSupportLevel::All));
    assert!(pane::rating_visible(StickersSupportLevel::SongsOnly));
    assert!(!pane::rating_visible(StickersSupportLevel::Disabled));
}

#[test]
fn lyrics_are_fetched_and_read_from_files() {
    assert!(matches!(pane::lyrics_received(LyricsReply::Found), LyricsAction::Import));
    assert!(matches!(
        pane::lyrics_received(LyricsReply::Missing),
        LyricsAction::Toast("No lyrics found")
    ));
    assert!(matches!(
        pane::lyrics_received(LyricsReply::Failed),
        LyricsAction::Toast("Could not fetch lyrics (internal error)")
    ));
    assert!(matches!(pane::picked_file(&vec![]), PickedFile::Nothing));
    assert!(matches!(
        pane::picked_file(&vec![s("file:///a%20b.lrc"), s("x")]),
        PickedFile::Path(path) if path == "/a b.lrc"
    ));
    assert!(matches!(pane::picked_file(&vec![s("%ff")]), PickedFile::Unreadable));
}

#[test]
fn the_cover_turns_with_the_song() {
    assert_eq!(pane::on_song_changed(false, true), Turn::FromCurrentAngle);
    assert_eq!(pane::on_song_changed(true, true), Turn::FromUpright);
    assert_eq!(pane::on_song_changed(false, false), Turn::FromUpright);
    assert_eq!(pane::resync_album_art_rotation(true, true), Resync::ToPosition);
    assert_eq!(pane::resync_album_art_rotation(false, true), Resync::AnimationOnly);
    assert_eq!(pane::resync_album_art_rotation(true, false), Resync::AnimationOnly);
    assert!(pane::should_rotate(true, Some(PlaybackState::Playing)));
    assert!(!pane::should_rotate(false, Some(PlaybackState::Playing)));
    assert!(!pane::should_rotate(true, Some(PlaybackState::Paused)));
    assert!(!pane::should_rotate(true, None));
}

const LOWER_LEFT: PointerSide = PointerSide { below: true, left: true, right: false };
const LOWER_RIGHT: PointerSide = PointerSide { below: true, left: false, right: true };
const UPPER_LEFT: PointerSide = PointerSide { below: false, left: true, right: false };
const UPPER_RIGHT: PointerSide = PointerSide { below: false, left: false, right: true };

#[test]
fn the_volume_does_not_jump_past_zero() {
    let mut knob = VolumeKnob::new();
    knob.drag_begin(LOWER_LEFT);
    assert_eq!(knob.drag_update(false, LOWER_RIGHT), None);
    assert_eq!(knob.drag_update(true, LOWER_RIGHT), Some(KnobTurn::ToZero));
    assert_eq!(knob.overflow_side, OverflowSide::CCW);
    assert_eq!(knob.drag_update(true, UPPER_RIGHT), Some(KnobTurn::ToZero));
    assert_eq!(knob.drag_update(true, UPPER_LEFT), Some(KnobTurn::ToZero));
    assert_eq!(knob.drag_update(true, UPPER_RIGHT), Some(KnobTurn::ToZero));
    assert_eq!(knob.drag_update(true, LOWER_RIGHT), Some(KnobTurn::ToZero));
    assert_eq!(knob.drag_update(true, LOWER_LEFT), Some(KnobTurn::ToPointer));
    assert_eq!(knob.overflow_side, OverflowSide::Normal);
}

#[test]
fn the_volume_does_not_jump_past_full() {
    let mut knob = VolumeKnob::new();
    knob.drag_begin(UPPER_LEFT);
    assert_eq!(knob.drag_update(true, UPPER_RIGHT), Some(KnobTurn::ToPointer));
    assert_eq!(knob.drag_update(true, LOWER_RIGHT), Some(KnobTurn::ToPointer));
    assert_eq!(knob.drag_update(true, LOWER_LEFT), Some(KnobTurn::ToFull));
    assert_eq!(knob.overflow_side, OverflowSide::CW);
    assert_eq!(knob.drag_update(true, LOWER_RIGHT), Some(KnobTurn::ToPointer));
    knob.drag_update(true, LOWER_LEFT);
    knob.drag_begin(LOWER_LEFT);
    assert_eq!(knob.overflow_side, OverflowSide::default());
}

#[test]
fn a_drag_does_not_mute() {
    let mut knob = VolumeKnob::new();
    assert_eq!(knob.on_active_changed(true), ToggleAction::Mute(true));
    assert_eq!(knob.on_active_changed(false), ToggleAction::Mute(false));
    knob.drag_begin(UPPER_LEFT);
    knob.drag_update(true, UPPER_LEFT);
    assert_eq!(knob.on_active_changed(true), ToggleAction::SetActive(false));
    assert_eq!(knob.on_active_changed(false), ToggleAction::Mute(false));
}

#[test]
fn the_knob_shows_the_volume() {
    let mut knob = VolumeKnob::new();
    assert_eq!(knob.update_readout(false, Loudness::Full, "100"), "100");
    assert_eq!(knob.update_readout(false, Loudness::Silent, "0"), "0");
    assert_eq!(knob.update_readout(true, Loudness::Full, "100"), "—");
    assert!(knob.set_use_dbfs(true));
    assert!(!knob.set_use_dbfs(true));
    assert!(knob.use_dbfs());
    assert_eq!(knob.update_readout(false, Loudness::Between, "-3"), "-3");
    assert_eq!(knob.update_readout(false, Loudness::Full, "x"), "0");
    assert_eq!(knob.update_readout(false, Loudness::Silent, "x"), "-∞");
    assert_eq!(knob.update_readout(true, Loudness::Between, "-3"), "—");
    assert_eq!(sync_value(40, 41), Some(41));
    assert_eq!(sync_value(41, 41), None);
}

#[test]
fn a_held_seekbar_does_not_move() {
    let mut bar = Seekbar::new();
    bar.set_duration(200);
    assert!(bar.set_position(10));
    bar.drag_begin(50);
    assert!(!bar.set_position(11));
    assert_eq!(bar.position(), 50);
    bar.drag_update(60);
    assert_eq!(bar.old_pos, 50);
    assert_eq!(bar.drag_end(70), Some(70));
    assert_eq!(bar.drag_end(80), None);
    assert_eq!(bar.position(), 70);
    assert!(bar.set_position(71));
    bar.set_duration(300);
    assert_eq!(bar.duration(), 300);
    assert_eq!(duration_label(true, "3:20"), "3:20");
    assert_eq!(duration_label(false, "0:00"), "--:--");
}

#[test]
fn the_seekbar_stays_in_the_song() {
    let mut bar = Seekbar::new();
    assert!(bar.set_position(5));
    assert_eq!(bar.position(), 0);
    bar.set_duration(100);
    bar.set_position(250);
    assert_eq!(bar.position(), 100);
    bar.set_position(-3);
    assert_eq!(bar.position(), 0);
    bar.drag_begin(120);
    assert_eq!((bar.position(), bar.old_pos), (100, 100));
    bar.drag_update(-1);
    assert_eq!(bar.position(), 0);
    assert_eq!(bar.drag_end(101), Some(100));
    bar.set_duration(50);
    assert_eq!(bar.position(), 100);
    bar.set_position(60);
    assert_eq!(bar.position(), 50);
    bar.set_duration(-1);
    bar.set_position(7);
    assert_eq!(bar.position(), 0);
}

#[test]
fn outputs_that_are_gone_are_not_shown() {
    let mut controls = OutputControls::new();
    controls.update_outputs(3, 2);
    assert_eq!(controls.visible, Some(2));
    controls.update_outputs(4, -1);
    assert_eq!(controls.visible, Some(2));
    controls.update_outputs(2, -1);
    assert_eq!(controls.visible, None);
    controls.update_outputs(3, 2);
    controls.update_outputs(0, 2);
    assert_eq!((controls.count, controls.visible), (0, None));
}

#[test]
fn outputs_get_widgets() {
    let mut controls = OutputControls::new();
    assert_eq!(
        controls.update_outputs(3, 0),
        WidgetChanges { kept: 0, removed: 0, added: 3 }
    );
    assert!(controls.section_visible && controls.buttons_visible);
    assert!(controls.next_sensitive && !controls.prev_sensitive);
    controls.set_visible_output(1);
    assert!(controls.next_sensitive && controls.prev_sensitive);
    controls.set_visible_output(2);
    assert!(!controls.next_sensitive && controls.prev_sensitive);
    assert_eq!(controls.visible, Some(2));
    controls.set_visible_output(-1);
    assert_eq!(controls.visible, Some(2));
    assert_eq!(
        controls.update_outputs(1, 0),
        WidgetChanges { kept: 1, removed: 2, added: 0 }
    );
    assert!(!controls.buttons_visible);
    assert!(!controls.next_sensitive && controls.prev_sensitive);
    assert_eq!(
        controls.update_outputs(0, 0),
        WidgetChanges { kept: 0, removed: 1, added: 0 }
    );
    assert!(!controls.section_visible && !controls.buttons_visible);
}

#[test]
fn playback_has_controls() {
    assert_eq!(play_pause_symbol(PlaybackState::Playing), "play");
    assert_eq!(play_pause_symbol(PlaybackState::Paused), "pause");
    assert_eq!(play_pause_symbol(PlaybackState::Stopped), "pause");
    assert_eq!(flow_tooltip("Repeat"), "Playback Mode: Repeat");
    assert!(seekbar_visible(false));
    assert!(!seekbar_visible(true));
    assert_eq!(on_pressed(), vec![PollingCommand::BlockPolling, PollingCommand::StopPolling]);
    assert_eq!(on_released(), vec![PollingCommand::UnblockPolling, PollingCommand::SendSeek]);
}

#[test]
fn queue_rows_show_thumbnails() {
    let mut row = QueueRow::new();
    assert!(!row.concerns("d/a", "d"));
    assert_eq!(row.unbind(), ThumbnailAction::Keep);
    assert_eq!(row.bind(s("d/a"), None), ThumbnailAction::ShowPlaceholder);
    assert_eq!(row.thumbnail_source, CoverSource::Unknown);
    assert!(row.concerns("d/a", "d") && row.concerns("d", "d"));
    assert!(!row.concerns("e", "d"));
    assert_eq!(row.update_thumbnail(None), ThumbnailAction::Keep);
    assert_eq!(row.update_thumbnail(Some(false)), ThumbnailAction::ShowCover);
    assert_eq!(row.thumbnail_source, CoverSource::Folder);
    assert_eq!(row.on_art_cleared("d/a", "d"), ThumbnailAction::Keep);
    assert_eq!(row.update_thumbnail(Some(true)), ThumbnailAction::ShowCover);
    assert_eq!(row.thumbnail_source, CoverSource::Embedded);
    assert!(!row.concerns("d", "d"));
    assert_eq!(row.update_thumbnail(Some(false)), ThumbnailAction::Keep);
    assert_eq!(row.on_art_cleared("d", "d"), ThumbnailAction::Keep);
    assert_eq!(row.on_art_cleared("d/a", "d"), ThumbnailAction::ShowPlaceholder);
    assert_eq!(row.thumbnail_source, CoverSource::Placeholder);
    assert_eq!(row.bind(s("d/b"), Some(false)), ThumbnailAction::ShowCover);
    assert_eq!(row.on_art_cleared("d", "d"), ThumbnailAction::ShowPlaceholder);
    assert_eq!(row.unbind(), ThumbnailAction::ShowPlaceholder);
    assert!(quality_grade_visible(Some("cd-symbolic")));
    assert!(!quality_grade_visible(None));
}

#[test]
fn sample_sources_have_devices() {
    let mut backend = PipeWireFftBackend::new(FftStatus::default());
    assert!(has_param("devices") && has_param("current-device") && !has_param("fps"));
    assert_eq!(
        backend.set_param("devices", ParamValue::Devices(vec![s("a"), s("b")])),
        vec![ParamChange::Devices]
    );
    assert_eq!(backend.curr_device, 0);
    assert_eq!(
        backend.set_param("current-device", ParamValue::CurrentDevice(7)),
        vec![ParamChange::CurrentDevice(1)]
    );
    assert!(matches!(
        backend.get_param("current-device"),
        ParamValue::CurrentDevice(1)
    ));
    assert!(matches!(
        backend.get_param("devices"),
        ParamValue::Devices(devices) if devices == vec!["a", "b"]
    ));
    assert_eq!(backend.set_param("devices", ParamValue::CurrentDevice(0)), vec![]);
    assert_eq!(
        backend.set_param("devices", ParamValue::Devices(vec![])),
        vec![ParamChange::Devices, ParamChange::CurrentDevice(-1)]
    );
}

#[test]
fn sample_sources_start_and_stop() {
    let backend = PipeWireFftBackend::new(FftStatus::ValidNotReading);
    assert_eq!(backend.status, FftStatus::ValidNotReading);
    let mut backend = PipeWireFftBackend::new(FftStatus::default());
    assert_eq!(backend.status, FftStatus::Invalid);
    assert_eq!(backend.start(), Ok(()));
    assert_eq!(backend.status, FftStatus::Reading);
    assert_eq!(backend.start(), Err(()));
    backend.stop(true);
    assert!(backend.stop_flag && !backend.pw_running && !backend.fft_running);
    assert_eq!(backend.status, FftStatus::ValidNotReading);
    assert_eq!(backend.start(), Ok(()));
    backend.stop(false);
    assert!(backend.pw_running && backend.fft_running);
    assert_eq!(backend.start(), Err(()));
}

fn frames(samples: &[f32]) -> Vec<u8> {
    samples.iter().flat_map(|sample| sample.to_le_bytes()).collect()
}

fn window(buffers: &SampleBuffers) -> (Vec<f32>, Vec<f32>) {
    let (left, right) = buffers.window();
    (
        left.into_iter().map(f32::from_bits).collect(),
        right.into_iter().map(f32::from_bits).collect(),
    )
}

#[test]
fn the_latest_samples_are_kept() {
    let mut buffers = SampleBuffers::new(3);
    assert_eq!(window(&buffers), (vec![0.0; 3], vec![0.0; 3]));
    let chunk = frames(&[1.0, -1.0, 2.0, -2.0]);
    buffers.push_chunk(&chunk, 16, 2);
    assert_eq!(window(&buffers), (vec![0.0, 1.0, 2.0], vec![0.0, -1.0, -2.0]));
    let chunk = frames(&[3.0, -3.0, 4.0, -4.0, 5.0, -5.0, 6.0, -6.0]);
    buffers.push_chunk(&chunk, 32, 2);
    assert_eq!(window(&buffers), (vec![4.0, 5.0, 6.0], vec![-4.0, -5.0, -6.0]));
    let chunk = frames(&[7.0, -7.0, 9.0]);
    buffers.push_chunk(&chunk, 12, 3);
    assert_eq!(window(&buffers), (vec![5.0, 6.0, 7.0], vec![-5.0, -6.0, -7.0]));
    buffers.push_chunk(&[], 0, 2);
    assert_eq!(window(&buffers).0, vec![5.0, 6.0, 7.0]);
}

#[test]
fn chunks_of_samples_add_up() {
    let all: Vec<f32> = (0..12).map(|n| n as f32).collect();
    let mut whole = SampleBuffers::new(4);
    whole.push_chunk(&frames(&all), 48, 2);
    let mut parts = SampleBuffers::new(4);
    parts.push_chunk(&frames(&all[..8]), 32, 2);
    parts.push_chunk(&frames(&all[8..]), 16, 2);
    assert_eq!(window(&whole), window(&parts));
}

#[test]
fn analysis_waits_for_a_format() {
    assert!(format_known(44100, 2));
    assert!(!format_known(0, 2));
    assert!(!format_known(44100, 0));
    assert!(output_outdated(4, 4, 8));
    assert!(output_outdated(8, 4, 8));
    assert!(!output_outdated(8, 8, 8));
    assert_eq!(frame_millis(60), 16);
    assert_eq!(frame_millis(1), 1000);
    assert_eq!(frame_millis(2000), 0);
    assert_eq!(frame_millis(0), u64::MAX);
    for fps in 1..3000u32 {
        assert_eq!(frame_millis(fps), (1000.0 / fps as f32).floor() as u64);
    }
}

#[test]
fn the_first_start_is_concluded() {
    assert_eq!(library_mode_illustration(true), "albums-in-folders-symbolic");
    assert_eq!(library_mode_illustration(false), "freeform-folders-symbolic");
    let mut onboarding = Onboarding::new();
    assert!(!onboarding.close());
    onboarding.finish();
    assert!(onboarding.close());
}

#[test]
fn the_pane_shows_what_was_said_last() {
    let input = PaneInput {
        playback: PlaybackState::Stopped,
        title: s(""),
        album: None,
        artist: Some(s("")),
        rating: 0,
        level: StickersSupportLevel::Disabled,
    };
    let mut pane = PlayerPane::bind_state(input, s("no album"), s("no artist"));
    assert!(!pane.parts.info_box && !pane.parts.seekbar && !pane.parts.stars_visible);
    assert_eq!((pane.parts.album.as_str(), pane.parts.artist.as_str()), ("no album", "no artist"));
    pane.on_event(PaneEvent::Playback(PlaybackState::Paused));
    assert!(pane.parts.info_box && pane.parts.seekbar);
    pane.on_event(PaneEvent::Title(s("Sons of the Silent Age")));
    pane.on_event(PaneEvent::Album(Some(s("Heroes"))));
    pane.on_event(PaneEvent::Artist(Some(s("David Bowie"))));
    pane.on_event(PaneEvent::Rating(8));
    pane.on_event(PaneEvent::Level(StickersSupportLevel::SongsOnly));
    assert_eq!(pane.parts.title, "Sons of the Silent Age");
    assert_eq!(pane.parts.album, "Heroes");
    assert_eq!(pane.parts.artist, "David Bowie");
    assert_eq!(pane.parts.stars, 8);
    assert!(pane.parts.stars_visible);
    pane.on_event(PaneEvent::Album(Some(s(""))));
    pane.on_event(PaneEvent::Playback(PlaybackState::Stopped));
    pane.on_event(PaneEvent::Level(StickersSupportLevel::Disabled));
    assert_eq!(pane.parts.album, "no album");
    assert!(!pane.parts.info_box && !pane.parts.seekbar && !pane.parts.stars_visible);
}
