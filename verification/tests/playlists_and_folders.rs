use euphonica::common::{AlbumInfo, ArtistInfo, Date, INode, INodeType, SongInfo};
use euphonica::dates::Timestamp;
use euphonica::library::controller::{
    ClientCommand, EditAction, Library, QueryOperation, QueryTerm, SaveMode, StickersSupportLevel,
    TagName,
};
use euphonica::library::dynamic_playlist_content_view::{
    bind_plan, delete_chosen, export_name, export_wanted, rule_count_label, save_next, AutoRefresh,
    BindPlan, SaveNext,
};
use euphonica::library::folder_view::{
    compare_rows, folder_sort_label, folder_sort_numbered, row_matches, FolderSort, FolderView,
    INodeKeys, NavButtons,
};
use euphonica::library::new_tag::add_sensitive;
use euphonica::library::playlist_content_view::{
    cover_action, cover_editable, drop_position, infobox_icon, rename_message, shift_on_leave,
    shift_on_motion, CoverAction, CoverReply, EditButtons, HistoryStep, InternalEditAction,
    PlaylistContentView, PlaylistNode, QueueRequest, RenameReply, RowShift, ScrollGuard,
};
use euphonica::library::playlist_row::{last_modified_label, on_cover};
use euphonica::library::playlist_song_row::{
    append_queue, concerns_song, order_label, replace_queue, PlaylistSongRow,
};
use euphonica::library::sorting::{FilterChange, Place, SortOptions};
use euphonica::library::tag::Tag;
use euphonica::library::tag_button::TagButton;
use euphonica::library::tags_filter::{search_term, TagsFilter};
use euphonica::library::tags_section::{AddOutcome, TagsSection, TagsStack};
use euphonica::meta_providers::models;

fn s(text: &str) -> String {
    text.to_string()
}

fn some(text: &str) -> Option<String> {
    Some(text.to_string())
}

fn view(songs: &[char]) -> PlaylistContentView<char> {
    let mut view = PlaylistContentView::new();
    let playlist = PlaylistNode { uri: s("mix"), name: some("mix") };
    assert_eq!(view.bind(playlist, songs.to_vec()), !songs.is_empty());
    view
}

fn album(title: &str) -> AlbumInfo {
    AlbumInfo { title: s(title), mbid: None, artist_tag: None, artists: vec![], comp_id: s(title) }
}

fn artist(name: &str) -> ArtistInfo {
    ArtistInfo { name: s(name), mbid: None, comp_id: s(name) }
}

fn song(uri: &str) -> SongInfo {
    SongInfo {
        uri: s(uri),
        title: s(uri),
        artist_tag: None,
        artists: vec![],
        album: None,
        release_date: None,
        track: None,
    }
}

fn node(uri: &str, inode_type: INodeType) -> INode {
    INode { uri: s(uri), inode_type, last_modified: None }
}

fn text(list: &[char]) -> String {
    list.iter().collect()
}

#[test]
fn steps_change_a_list_and_back() {
    let step = |action, song| HistoryStep { action, song };
    for (step, before, after) in [
        (step(InternalEditAction::ShiftBackward(2), None), "abcd", "acbd"),
        (step(InternalEditAction::ShiftForward(2), None), "abcd", "abdc"),
        (step(InternalEditAction::MovePos(0, 3), None), "abcd", "bcad"),
        (step(InternalEditAction::MovePos(0, 4), None), "abcd", "bcda"),
        (step(InternalEditAction::MovePos(3, 1), None), "abcd", "adbc"),
        (step(InternalEditAction::MovePos(1, 1), None), "abcd", "abcd"),
        (step(InternalEditAction::MovePos(1, 2), None), "abcd", "abcd"),
        (step(InternalEditAction::Remove(1), Some('b')), "abcd", "acd"),
    ] {
        let mut list: Vec<char> = before.chars().collect();
        step.forward(&mut list);
        assert_eq!(text(&list), after);
        step.backward(&mut list);
        assert_eq!(text(&list), before);
        step.forward(&mut list);
        assert_eq!(text(&list), after);
    }
}

#[test]
fn a_session_can_be_undone_and_redone() {
    let mut view = view(&['a', 'b', 'c', 'd']);
    assert_eq!(
        view.enter_edit_mode(),
        EditButtons { undo: None, redo: None, apply: Some(false) }
    );
    assert!(view.is_editing());
    assert_eq!(view.shift_backward(0), None);
    assert_eq!(view.shift_forward(3), None);
    view.shift_backward(1).unwrap();
    view.remove(2);
    view.move_pos(0, 3);
    view.shift_forward(0).unwrap();
    assert_eq!(text(view.editing_song_list()), "dab");
    assert_eq!(text(view.song_list()), "abcd");
    let lists = ["adb", "bad", "bacd", "abcd"];
    for (i, expected) in lists.iter().enumerate() {
        let buttons = view.undo().unwrap();
        assert_eq!(text(view.editing_song_list()), *expected);
        assert_eq!(buttons.undo, Some(i < 3));
        assert_eq!(buttons.redo, Some(true));
        assert_eq!(buttons.apply, Some(i < 3));
    }
    assert_eq!(view.undo(), None);
    for expected in ["bacd", "bad", "adb", "dab"] {
        view.redo().unwrap();
        assert_eq!(text(view.editing_song_list()), expected);
    }
    assert_eq!(view.redo(), None);
}

#[test]
fn steps_of_a_cancelled_session_may_not_fit() {
    let mut view = view(&['a', 'b', 'c']);
    view.enter_edit_mode();
    assert!(view.can_undo() && view.can_redo() && view.can_exit(true));
    view.remove(2);
    view.shift_forward(0).unwrap();
    assert!(view.can_undo() && view.can_redo());
    let again = |view: &mut PlaylistContentView<char>| {
        view.exit_edit_mode(false);
        view.bind(PlaylistNode { uri: s("mix"), name: some("mix") }, vec!['a']);
        view.enter_edit_mode();
    };
    again(&mut view);
    assert!(!view.can_undo() && view.can_redo());
    assert!(view.has_song(0) && !view.has_song(1));

    let mut undone = self::view(&['a', 'b', 'c']);
    undone.enter_edit_mode();
    undone.remove(2);
    undone.undo();
    again(&mut undone);
    assert!(undone.can_undo() && !undone.can_redo());

    let mut unbound = PlaylistContentView::<char>::new();
    assert!(unbound.can_exit(true) && unbound.can_exit(false));
    unbound.push_history(HistoryStep { action: InternalEditAction::Remove(0), song: Some('a') });
    assert!(!unbound.can_exit(true) && unbound.can_exit(false));
}

#[test]
fn an_edited_playlist_replaces_the_old_one() {
    let mut view = PlaylistContentView::<usize>::new();
    view.bind(PlaylistNode { uri: s("mix"), name: some("mix") }, vec![0, 1, 2]);
    view.enter_edit_mode();
    let uris = vec![s("a"), s("b"), s("c")];
    assert!(view.exit_edit_mode(true).save_edits(&uris).is_none());
    view.enter_edit_mode();
    view.remove(0);
    view.shift_forward(0).unwrap();
    let saved = view.exit_edit_mode(true).save_edits(&uris).unwrap();
    assert_eq!(edits(&saved), vec!["clear mix", "mix+c", "mix+b"]);
    view.enter_edit_mode();
    view.remove(0);
    assert!(view.exit_edit_mode(false).save_edits(&uris).is_none());
}

#[test]
fn a_new_step_replaces_the_undone_ones() {
    let mut view = view(&['a', 'b', 'c']);
    view.enter_edit_mode();
    view.remove(0);
    view.remove(0);
    view.undo();
    let buttons = view.shift_forward(0).unwrap();
    assert_eq!(text(view.editing_song_list()), "cb");
    assert_eq!(view.redo(), None);
    assert_eq!(buttons.redo, Some(false));
    let step = HistoryStep { action: InternalEditAction::ShiftForward(0), song: None };
    view.undo();
    let buttons = view.push_history(step);
    assert_eq!(buttons, EditButtons { undo: Some(true), redo: Some(false), apply: Some(true) });
}

#[test]
fn a_session_is_saved_or_thrown_away() {
    let mut edited = view(&['a', 'b']);
    edited.enter_edit_mode();
    edited.remove(0);
    let exit = edited.exit_edit_mode(true);
    assert_eq!(exit.save, Some((s("mix"), vec!['b'])));
    assert_eq!(exit.buttons, EditButtons { undo: Some(false), redo: Some(false), apply: None });
    assert!(!edited.is_editing());
    assert_eq!((edited.undo(), edited.redo()), (None, None));

    let mut untouched = view(&['a', 'b']);
    untouched.enter_edit_mode();
    assert_eq!(untouched.exit_edit_mode(true).save, None);

    let mut cancelled = view(&['a', 'b']);
    cancelled.enter_edit_mode();
    cancelled.remove(0);
    let exit = cancelled.exit_edit_mode(false);
    assert_eq!(exit.save, None);
    assert_eq!(text(cancelled.song_list()), "ab");
    cancelled.unbind(false);
    assert!(cancelled.editing_song_list().is_empty());
    assert_eq!(text(cancelled.song_list()), "ab");
    cancelled.unbind(true);
    assert!(cancelled.song_list().is_empty());
}

#[test]
fn queue_buttons_act_on_the_selection() {
    let mut view = view(&['a', 'b', 'c']);
    assert!(matches!(
        view.replace_queue(&vec![]),
        QueueRequest::Playlist { name, replace: true, play: true } if name == "mix"
    ));
    assert!(matches!(
        view.append_queue(&vec![]),
        QueueRequest::Playlist { name, replace: false, play: false } if name == "mix"
    ));
    assert_eq!(view.on_selection_changed(2), (s("Play 2"), s("Queue 2")));
    assert!(matches!(
        view.replace_queue(&vec![2, 0]),
        QueueRequest::Songs { songs, replace: true, play: true } if songs == vec!['c', 'a']
    ));
    assert!(matches!(
        view.append_queue(&vec![1]),
        QueueRequest::Songs { songs, replace: false, play: false } if songs == vec!['b']
    ));
    assert_eq!(view.on_selection_changed(3), (s("Play all"), s("Queue all")));
    assert!(matches!(view.replace_queue(&vec![1]), QueueRequest::Playlist { .. }));
    assert!(view.can_queue(&vec![]) && view.can_queue(&vec![2]) && !view.can_queue(&vec![3]));
    view.on_selection_changed(1);
    assert!(!view.can_queue(&vec![]) && view.can_queue(&vec![0]));
    view.bind(PlaylistNode { uri: s("x"), name: None }, vec!['a', 'b']);
    assert!(view.can_queue(&vec![0]));
    view.on_selection_changed(0);
    assert!(!view.can_queue(&vec![]));
    let unbound = PlaylistContentView::<char>::new();
    assert!(matches!(unbound.replace_queue(&vec![]), QueueRequest::Nothing));
}

#[test]
fn playlists_are_renamed_and_deleted() {
    let view = view(&[]);
    assert!(view.rename_sensitive("other"));
    assert!(!view.rename_sensitive("mix"));
    assert!(!view.rename_sensitive(""));
    assert_eq!(view.rename_request("other"), Some((s("mix"), s("other"))));
    assert_eq!(view.delete_request(), some("mix"));
    let unbound = PlaylistContentView::<char>::new();
    assert!(!unbound.rename_sensitive("x"));
    assert_eq!(unbound.rename_request("x"), None);
    assert_eq!(unbound.delete_request(), None);
    assert!(matches!(
        Library::rename_playlist(s("a"), s("b")),
        ClientCommand::RenamePlaylist { from, to } if from == "a" && to == "b"
    ));
    assert!(matches!(
        Library::delete_playlist(s("a")),
        ClientCommand::DeletePlaylist { playlist } if playlist == "a"
    ));
}

#[test]
fn failed_renames_are_explained() {
    assert_eq!(rename_message(&RenameReply::Done, "x"), None);
    assert_eq!(rename_message(&RenameReply::Connection, "x"), None);
    assert_eq!(
        rename_message(&RenameReply::Exist, "x"),
        some("There is already another playlist named \"x\". Please pick another name.")
    );
    assert_eq!(
        rename_message(&RenameReply::NoExist, "x"),
        some("Internal error: tried to rename a nonexistent playlist")
    );
    assert_eq!(
        rename_message(&RenameReply::OtherCode(s("Password")), "x"),
        some("Internal error (Password)")
    );
    assert_eq!(rename_message(&RenameReply::Client(s("Queued")), "x"), some("Queued"));
}

#[test]
fn covers_are_shown_or_cleared() {
    assert_eq!(cover_action(CoverReply::Found), CoverAction::Show);
    assert_eq!(cover_action(CoverReply::Missing), CoverAction::Clear);
    assert_eq!(cover_action(CoverReply::Failed), CoverAction::Keep);
    assert!(cover_editable("mix", true));
    assert!(!cover_editable("", true));
    assert!(!cover_editable("mix", false));
    assert_eq!(infobox_icon(true), "up-symbolic");
    assert_eq!(infobox_icon(false), "down-symbolic");
    assert_eq!(on_cover(Some("a"), "a", CoverReply::Found), CoverAction::Show);
    assert_eq!(on_cover(Some("a"), "a", CoverReply::Missing), CoverAction::Clear);
    assert_eq!(on_cover(Some("a"), "a", CoverReply::Failed), CoverAction::Keep);
    assert_eq!(on_cover(Some("b"), "a", CoverReply::Found), CoverAction::Keep);
    assert_eq!(on_cover(None, "a", CoverReply::Found), CoverAction::Keep);
    assert_eq!(last_modified_label(&None), "");
    assert_eq!(last_modified_label(&some("today")), "today");
}

#[test]
fn rows_make_room_for_dragged_songs() {
    let none = RowShift { up: false, down: false };
    let up = RowShift { up: true, down: false };
    let down = RowShift { up: false, down: true };
    assert_eq!(shift_on_motion(none, false, true), up);
    assert_eq!(shift_on_motion(up, false, false), down);
    assert_eq!(shift_on_motion(none, true, true), none);
    assert_eq!(shift_on_leave(up, false), none);
    assert_eq!(shift_on_leave(up, true), up);
    assert_eq!(drop_position(4, false), 4);
    assert_eq!(drop_position(4, true), 5);
}

#[test]
fn the_scroll_position_is_guarded() {
    let mut guard = ScrollGuard { checks_left: 0 };
    assert!(!guard.on_scrolled(true));
    guard.arm();
    assert!(guard.on_scrolled(true));
    assert!(!guard.on_scrolled(false));
    assert!(guard.on_scrolled(true));
    assert!(!guard.on_scrolled(false));
    assert!(!guard.on_scrolled(true));
}

#[test]
fn song_rows_have_controls() {
    let mut row = PlaylistSongRow { queue_controls_visible: true, edit_controls_visible: false };
    assert!(row.get_queue_controls_visible());
    assert!(row.set_queue_controls_visible(false));
    assert!(!row.set_queue_controls_visible(false));
    assert!(row.set_edit_controls_visible(true));
    assert!(!row.set_edit_controls_visible(true));
    assert!(row.get_edit_controls_visible());
    assert_eq!(order_label(7), "7");
    assert!(concerns_song(Some("a"), "a"));
    assert!(!concerns_song(Some("a"), "b"));
    assert!(!concerns_song(None, "b"));
    assert_eq!(summary(&replace_queue("u")), vec!["clear", "add u", "play 0"]);
    assert_eq!(summary(&append_queue("u")), vec!["add u"]);
}

fn condition(term: &QueryTerm) -> String {
    let tag = match term.tag {
        TagName::Album => "album",
        TagName::AlbumArtist => "albumartist",
        TagName::Artist => "artist",
        TagName::AlbumMbid => "mbid",
    };
    let operation = match term.operation {
        QueryOperation::Equals => "=",
        QueryOperation::Contains => "~",
    };
    format!("{tag}{operation}{}", term.value)
}

fn summary(commands: &[ClientCommand]) -> Vec<String> {
    commands
        .iter()
        .map(|command| match command {
            ClientCommand::ClearQueue => s("clear"),
            ClientCommand::AddMulti { uris, recursive, at } => {
                let mut line = format!("add {}", uris.join(","));
                if *recursive {
                    line.push_str(" recursively");
                }
                if let Some(position) = at {
                    line.push_str(&format!(" at {position}"));
                }
                line
            }
            ClientCommand::FindAdd { query } => {
                let terms: Vec<String> = query.iter().map(condition).collect();
                format!("find {}", terms.join(" "))
            }
            ClientCommand::LoadPlaylist { name } => format!("load {name}"),
            ClientCommand::QueueCachedDynamicPlaylist { name } => format!("cached {name}"),
            ClientCommand::PlayAt { position } => format!("play {position}"),
            other => format!("{other:?}"),
        })
        .collect()
}

fn low(mbid: Option<&str>, artist: Option<&str>) -> AlbumInfo {
    AlbumInfo {
        title: s("Low"),
        mbid: mbid.map(s),
        artist_tag: artist.map(s),
        artists: vec![],
        comp_id: s(""),
    }
}

#[test]
fn requests_become_commands() {
    let uris = vec![s("a"), s("b")];
    assert_eq!(summary(&Library::queue_songs(&uris, true, true)), vec!["clear", "add a,b", "play 0"]);
    assert_eq!(summary(&Library::queue_songs(&uris, false, false)), vec!["add a,b"]);
    assert_eq!(summary(&[Library::insert_songs_next(&uris, Some(4))]), vec!["add a,b at 5"]);
    assert_eq!(summary(&[Library::insert_songs_next(&uris, None)]), vec!["add a,b at 0"]);
    assert_eq!(
        summary(&Library::queue_uri("d", false, true, true)),
        vec!["add d recursively", "play 0"]
    );
    assert_eq!(
        summary(&Library::queue_album(&low(Some("id"), Some("B")), false, true, Some(3))),
        vec!["find album=Low albumartist=B mbid=id", "play 3"]
    );
    assert_eq!(
        summary(&Library::queue_album(&low(None, None), true, true, None)),
        vec!["clear", "find album=Low", "play 0"]
    );
    assert_eq!(
        summary(&Library::queue_album(&low(None, None), true, false, Some(3))),
        vec!["clear", "find album=Low"]
    );
    assert_eq!(
        summary(&Library::queue_artist("B", true, false, false)),
        vec!["find albumartist~B"]
    );
    assert_eq!(
        summary(&Library::queue_artist("B", false, true, true)),
        vec!["clear", "find artist~B", "play 0"]
    );
    assert_eq!(summary(&Library::queue_playlist("mix", true, false)), vec!["clear", "load mix"]);
    assert_eq!(
        summary(&Library::queue_cached_dynamic_playlist("dp", false, true)),
        vec!["cached dp", "play 0"]
    );
}

#[test]
fn album_songs_are_found_by_id_or_by_title() {
    let terms = |album: &AlbumInfo| -> Vec<String> {
        Library::get_album_songs(album).iter().map(condition).collect()
    };
    assert_eq!(terms(&low(Some("id"), Some("B"))), vec!["mbid=id"]);
    assert_eq!(terms(&low(None, Some("B"))), vec!["album=Low", "albumartist=B"]);
    assert_eq!(terms(&low(None, None)), vec!["album=Low"]);
}

#[test]
fn artist_songs_are_found_by_two_queries() {
    let (by_artist, by_albumartist) = Library::artist_content_queries("B", true, true);
    assert_eq!(condition(&by_artist.unwrap()), "artist~B");
    assert_eq!(condition(&by_albumartist.unwrap()), "albumartist~B");
    let (by_artist, by_albumartist) = Library::artist_content_queries("B", false, true);
    assert!(by_artist.is_none() && by_albumartist.is_some());
}

#[test]
fn albums_are_rated() {
    assert!(matches!(
        Library::rate_album("f", Some(7)),
        ClientCommand::SetAlbumRating { filter, value } if filter == "f" && value == "7"
    ));
    assert!(matches!(
        Library::rate_album("f", None),
        ClientCommand::DeleteAlbumRating { filter } if filter == "f"
    ));
    assert!(Library::metadata_backup_available(StickersSupportLevel::All));
    assert!(!Library::metadata_backup_available(StickersSupportLevel::SongsOnly));
}

fn edits(actions: &[EditAction]) -> Vec<String> {
    actions
        .iter()
        .map(|action| match action {
            EditAction::Clear { playlist } => format!("clear {playlist}"),
            EditAction::Add { playlist, uri } => format!("{playlist}+{uri}"),
        })
        .collect()
}

#[test]
fn songs_are_saved_to_playlists() {
    let uris = vec![s("a"), s("b")];
    let save = |mode| edits(&Library::add_songs_to_playlist("p", &uris, mode));
    assert_eq!(save(SaveMode::Append), vec!["p+a", "p+b"]);
    assert_eq!(save(SaveMode::Create), vec!["p+a", "p+b"]);
    assert_eq!(save(SaveMode::Replace), vec!["clear p", "p+a", "p+b"]);
}

#[test]
fn dynamic_playlists_are_saved_under_the_time() {
    let now = Timestamp {
        date: Date { year: 2024, month: 2, day: 29 },
        hour: 7,
        minute: 5,
        second: 9,
    };
    let (name, actions) =
        Library::save_dynamic_playlist_state("Mix", &now, &vec![s("a")]).unwrap();
    assert_eq!(name, "Mix 2024-02-29 07:05:09");
    assert_eq!(edits(&actions), vec!["Mix 2024-02-29 07:05:09+a"]);
    assert!(Library::save_dynamic_playlist_state("Mix", &now, &vec![]).is_none());
}

#[test]
fn lists_are_loaded_once() {
    let mut library = Library::new();
    assert!(library.init_playlists(false));
    assert!(!library.init_playlists(false));
    assert!(library.init_playlists(true));
    assert!(library.init_dyn_playlists(false));
    assert!(!library.init_dyn_playlists(false));
    assert!(library.init_recent(false));
    assert!(library.init_recent(true));
    assert!(library.init_genres());
    assert!(!library.init_genres());
    assert!(library.init_albums_and_albumartists());
    assert!(!library.init_albums_and_albumartists());
    assert_eq!(library.init_artists(), (false, true));
    assert_eq!(library.init_artists(), (false, false));
    library.navigate_to("a");
    library.clear();
    assert_eq!(library.folder_path(), "");
    assert!(library.init_genres() && library.init_recent(false));
    assert_eq!(library.init_artists(), (true, true));
}

#[test]
fn album_artists_are_loaded_with_the_artists() {
    let mut library = Library::new();
    assert_eq!(library.init_artists(), (true, true));
    assert!(!library.init_albums_and_albumartists());
    library.artists_not_reached(false);
    assert_eq!(library.init_artists(), (false, false));
    library.artists_not_reached(true);
    assert_eq!(library.init_artists(), (false, true));
    library.fill_albums_and_albumartists(vec![album("Low")], vec![artist("David Bowie")]);
    library.fill_artists(vec![artist("Brian Eno"), artist("David Bowie")]);
    assert_eq!(library.init_artists(), (false, false));
    assert_eq!(library.albums()[0].title, "Low");
    assert_eq!(library.album_artists().len(), 1);
    let names: Vec<&str> = library.artists().iter().map(|a| a.name.as_str()).collect();
    assert_eq!(names, vec!["Brian Eno", "David Bowie"]);
}

#[test]
fn lists_hold_what_has_come_until_they_are_cleared() {
    let mut library = Library::new();
    assert!(library.init_playlists(false));
    library.fill_playlists(vec![node("mix", INodeType::Playlist)]);
    assert_eq!(library.playlists().len(), 1);
    assert!(library.init_playlists(true));
    assert!(library.playlists().is_empty());
    library.fill_playlists(vec![node("x", INodeType::Playlist), node("y", INodeType::Playlist)]);
    assert_eq!(library.playlists()[1].uri, "y");
    library.init_dyn_playlists(false);
    library.fill_dyn_playlists(vec![node("dyn", INodeType::Playlist)]);
    assert_eq!(library.dyn_playlists()[0].uri, "dyn");
    library.init_recent(false);
    library.fill_recent_songs(vec![song("a.flac")]);
    library.fill_recent_albums(vec![album("Low")]);
    library.fill_recent_artists(vec![artist("David Bowie")]);
    assert!(!library.init_recent(false));
    assert_eq!(library.recent_songs()[0].uri, "a.flac");
    assert!(library.init_recent(true));
    assert!(library.recent_songs().is_empty() && library.recent_albums().len() == 1);
    library.fill_recent_songs(vec![song("b.flac")]);
    assert!(library.recent_albums().is_empty() && library.recent_artists().len() == 1);
    library.fill_recent_albums(vec![album("Lodger")]);
    assert!(library.recent_artists().is_empty());
    library.fill_recent_artists(vec![artist("Brian Eno")]);
    assert_eq!(library.recent_artists()[0].name, "Brian Eno");
    library.init_genres();
    library.add_genres(vec![s("rock"), s("art rock")]);
    library.add_genres(vec![s("ambient")]);
    let genres: Vec<&str> = library.genres().iter().map(|tag| tag.name()).collect();
    assert_eq!(genres, vec!["rock", "art rock", "ambient"]);
    assert!(!library.genres()[0].removable() && library.genres()[0].count() == 1);
    library.clear_recent_songs();
    assert!(library.recent_songs().is_empty() && library.recent_albums().len() == 1);
    library.init_artists();
    library.fill_albums_and_albumartists(vec![album("Low")], vec![artist("David Bowie")]);
    library.fill_artists(vec![artist("David Bowie")]);
    let stored = || models::Tag { name: s("t"), url: None, count: None, set_by_user: false };
    library.refresh_album_tags(Some(vec![stored()]));
    library.refresh_artist_tags(Some(vec![stored()]));
    library.navigate_to("a");
    library.get_folder_contents();
    library.fill_folder(vec![node("a/b", INodeType::Folder), node("a/c", INodeType::Song)]);
    assert_eq!(library.folder_inodes().len(), 2);
    library.navigate_to("b");
    assert_eq!(library.get_folder_contents(), some("a/b"));
    assert!(library.folder_inodes().is_empty());
    library.fill_folder(vec![node("a/b/d", INodeType::Song)]);
    assert_eq!(library.folder_inodes()[0].uri, "a/b/d");
    assert_eq!(library.get_folder_contents(), None);
    assert_eq!(library.folder_inodes().len(), 1);
    library.clear();
    assert!(library.playlists().is_empty() && library.dyn_playlists().is_empty());
    assert!(library.recent_songs().is_empty() && library.recent_albums().is_empty());
    assert!(library.recent_artists().is_empty() && library.genres().is_empty());
    assert!(library.albums().is_empty() && library.album_artists().is_empty());
    assert!(library.artists().is_empty() && library.folder_inodes().is_empty());
    assert!(library.album_tags().is_empty() && library.artist_tags().is_empty());
    assert_eq!((library.folder_curr_idx(), library.folder_history_len()), (0, 0));
    assert_eq!(library.get_folder_contents(), some(""));
    assert!(library.init_playlists(false) && library.init_dyn_playlists(false));
}

#[test]
fn the_library_walks_through_folders() {
    let mut library = Library::new();
    assert_eq!(library.get_folder_contents(), some(""));
    assert_eq!(library.get_folder_contents(), None);
    library.navigate_to("a");
    library.navigate_to("b");
    assert_eq!(library.folder_path(), "a/b");
    assert_eq!(library.get_folder_contents(), some("a/b"));
    assert!(library.folder_backward());
    assert_eq!(library.folder_path(), "a");
    assert!(library.folder_forward());
    assert_eq!(library.folder_path(), "a/b");
    assert!(!library.folder_forward());
    assert!(library.folder_backward() && library.folder_backward());
    assert!(!library.folder_backward());
    assert_eq!(library.folder_curr_idx(), 0);
    assert_eq!(library.folder_history_len(), 2);
    library.navigate_to("c");
    assert_eq!(library.folder_path(), "c");
    assert_eq!(library.folder_history_len(), 1);
}

#[test]
fn stored_tags_are_shown() {
    let stored = |count| models::Tag { name: s("rock"), url: some("u"), count, set_by_user: true };
    let mut library = Library::new();
    library.refresh_album_tags(Some(vec![stored(None), stored(Some(4))]));
    library.refresh_artist_tags(Some(vec![stored(None), stored(Some(4))]));
    for tags in [library.album_tags(), library.artist_tags()] {
        assert_eq!(tags.len(), 2);
        assert_eq!((tags[0].name(), tags[0].count(), tags[0].link()), ("rock", 1, Some("u")));
        assert_eq!(tags[1].count(), 4);
        assert!(tags[0].removable() && tags[0].set_by_user());
        assert_eq!(format!("{:?}", tags[1].to_meta()), format!("{:?}", stored(Some(4))));
        assert_eq!(format!("{:?}", Tag::from(tags[1].to_meta())), format!("{:?}", tags[1]));
    }
    library.refresh_album_tags(None);
    assert!(library.album_tags().is_empty() && library.artist_tags().len() == 2);
}

#[test]
fn tags_have_buttons() {
    let button = TagButton::new(&Tag::new(s("rock"), some("u"), Some(3), false, false));
    assert_eq!(button.label, "rock");
    assert_eq!(button.count, some("3"));
    assert!(!button.remove_visible);
    assert_eq!(button.link, some("u"));
    let button = TagButton::new(&Tag::new(s("rock"), None, Some(1), true, false));
    assert_eq!(button.count, None);
    assert!(button.remove_visible);
    assert!(add_sensitive("x"));
    assert!(!add_sensitive(""));
}

#[test]
fn tags_are_added_once() {
    let mut section = TagsSection::new();
    assert_eq!(section.stack, TagsStack::Placeholder);
    assert_eq!(section.add_tag("rock", None, Some(2), false), AddOutcome::Announced);
    assert_eq!(section.add_tag("rock", None, None, true), AddOutcome::Skipped);
    assert_eq!(section.add_from_entry(), AddOutcome::Skipped);
    section.entry = s("rock");
    assert_eq!(section.add_from_entry(), AddOutcome::Skipped);
    assert_eq!(section.entry, "rock");
    section.entry = s("art");
    assert_eq!(section.add_from_entry(), AddOutcome::Announced);
    assert_eq!(section.entry, "");
    assert_eq!(section.stack, TagsStack::Content);
    let names: Vec<String> = section.get_tags().into_iter().map(|tag| tag.name).collect();
    assert_eq!(names, vec!["rock", "art"]);
    section.remove_tag(0);
    assert_eq!(section.tags.len(), 1);
    assert_eq!(section.tags[0].name(), "art");
    section.remove_all(true);
    assert_eq!(section.stack, TagsStack::Spinner);
    section.show_content();
    assert_eq!(section.stack, TagsStack::Content);
    section.show_placeholder();
    assert_eq!(section.stack, TagsStack::Placeholder);
    section.remove_all(false);
    assert_eq!(section.stack, TagsStack::Placeholder);
    assert!(section.tags.is_empty());
}

#[test]
fn tags_can_be_filtered_by() {
    let mut filter = TagsFilter::new();
    assert!(!filter.is_selected("R&B"));
    assert!(filter.lists("R&B"));
    filter.toggle("R&B", true);
    filter.toggle("rock", true);
    filter.toggle("rock", true);
    filter.only_selected = true;
    assert!(filter.is_selected("R&B") && filter.lists("R&B"));
    assert!(!filter.lists("art"));
    let row = filter.row("R&B", 2);
    assert_eq!(row.title, "R&amp;B");
    assert_eq!(row.subtitle, some("2 occurrences"));
    assert!(row.active);
    let row = filter.row("<\"'>", 1);
    assert_eq!(row.title, "&lt;&quot;&apos;&gt;");
    assert_eq!(row.subtitle, None);
    assert!(!row.active);
    let mut applied = filter.apply();
    applied.selected.sort();
    assert_eq!(applied.selected, vec!["R&B", "rock"]);
    assert_eq!(applied.count_label, "2");
    assert!(applied.count_visible);
    filter.toggle("rock", false);
    assert_eq!(filter.apply().selected, vec!["R&B"]);
    filter.reset();
    let applied = filter.apply();
    assert!(applied.selected.is_empty() && !applied.count_visible);
    assert_eq!(applied.count_label, "0");
    assert_eq!(search_term(""), None);
    assert_eq!(search_term("ro"), some("ro"));
}

#[test]
fn folders_are_browsed() {
    let mut view = FolderView::new();
    assert_eq!(view.get_path(), "Library Root");
    assert_eq!(view.navigate(), "");
    assert_eq!(view.update_nav_btn_sensitivity(), NavButtons { back: false, forward: false });
    assert_eq!(view.on_inode_clicked(Some("a"), INodeType::Folder), some("a"));
    assert_eq!(view.on_inode_clicked(Some("b"), INodeType::Folder), some("a/b"));
    assert_eq!(view.on_inode_clicked(Some("x.flac"), INodeType::Song), None);
    assert_eq!(view.on_inode_clicked(None, INodeType::Folder), None);
    assert_eq!(view.get_path(), "a/b");
    assert_eq!(view.move_forward(), None);
    assert_eq!(view.move_back(), some("a"));
    assert_eq!(view.update_nav_btn_sensitivity(), NavButtons { back: true, forward: true });
    assert_eq!(view.move_back(), some(""));
    assert_eq!(view.move_back(), None);
    assert_eq!(view.move_forward(), some("a"));
    assert_eq!(view.on_inode_clicked(Some("c"), INodeType::Folder), some("a/c"));
    assert_eq!((view.navigate(), view.move_forward()), (s("a/c"), None));
    assert_eq!(view.on_search_changed(4), FilterChange::MoreStrict);
    assert_eq!(view.reset(), "");
    assert_eq!(view.update_nav_btn_sensitivity(), NavButtons { back: false, forward: false });
}

#[test]
fn going_back_reverts_a_click() {
    let mut view = FolderView::new();
    for name in ["a", "b", "c"] {
        let before = view.navigate();
        view.on_inode_clicked(Some(name), INodeType::Folder);
        assert_eq!(view.move_back(), Some(before));
        assert!(view.update_nav_btn_sensitivity().forward);
        view.move_forward();
    }
}

#[test]
fn folders_are_sorted_and_searched() {
    let options = SortOptions { nulls_first: false, asc: true };
    let row = |uri: &str, date: Option<&str>| INodeKeys { uri: s(uri), last_modified: date.map(s) };
    let (a, b) = (row("A", Some("2024-01-02")), row("b", Some("2024-01-01")));
    assert_eq!(compare_rows(&a, &b, FolderSort::Filename, options, false), Place::Smaller);
    assert_eq!(compare_rows(&a, &b, FolderSort::LastModified, options, false), Place::Larger);
    assert_eq!(folder_sort_numbered(6), FolderSort::Filename);
    assert_eq!(folder_sort_numbered(7), FolderSort::LastModified);
    assert_eq!(folder_sort_label("filename"), "Name");
    assert_eq!(folder_sort_label("last-modified"), "Last modified");
    assert!(row_matches("Some/Path", "path", false));
    assert!(!row_matches("Some/Path", "path", true));
    assert!(row_matches("x", "", true));
}

#[test]
fn dynamic_playlists_refresh_themselves() {
    assert_eq!(bind_plan(None, AutoRefresh::Never, 0), BindPlan::Refresh);
    assert_eq!(bind_plan(Some(0), AutoRefresh::Never, i64::MAX), BindPlan::Cached);
    for (interval, seconds) in [
        (AutoRefresh::Hourly, 3600),
        (AutoRefresh::Daily, 86400),
        (AutoRefresh::Weekly, 604800),
        (AutoRefresh::Monthly, 2592000),
        (AutoRefresh::Yearly, 31536000),
    ] {
        assert_eq!(interval.seconds(), seconds);
        assert_eq!(bind_plan(Some(100), interval, 100 + seconds), BindPlan::Cached);
        assert_eq!(bind_plan(Some(100), interval, 101 + seconds), BindPlan::AutoRefresh);
        assert_eq!(bind_plan(Some(100), interval, 1000 + seconds), BindPlan::AutoRefresh);
    }
    assert_eq!(AutoRefresh::Never.seconds(), i64::MAX);
}

#[test]
fn dynamic_playlists_are_exported_and_saved() {
    assert_eq!(rule_count_label(3, 2), "5");
    assert_eq!(export_name("Mix"), "Mix.edp.json");
    assert!(export_wanted(Some("/tmp/x")));
    assert!(!export_wanted(Some("")));
    assert!(!export_wanted(None));
    assert!(delete_chosen("delete"));
    assert!(!delete_chosen("cancel"));
    assert!(matches!(save_next(Some(some("p"))), SaveNext::GoToPlaylist(name) if name == "p"));
    assert!(matches!(
        save_next(Some(None)),
        SaveNext::Toast(text) if text == "No songs to save as fixed playlist"
    ));
    assert!(matches!(save_next(None), SaveNext::Nothing));
}
