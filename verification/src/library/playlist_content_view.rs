//! One playlist: its songs, the queue actions, and the edit mode.
//!
//! All changes of an editing session are made on a separate copy of the list,
//! so that they can be undone, redone, thrown away, or saved in one go.
use crate::library::controller::{edits, playlist_edits, EditAction, Library, SaveMode};
use crate::library::selection::{self, action_label, covers_all, picked};
use crate::text::{join3, same, views};
use vstd::prelude::*;

verus! {

/// One change of the list being edited.
#[derive(Clone, Copy, Debug, PartialEq, Eq, Structural)]
pub enum InternalEditAction {
    /// Swap the song with the one before it.
    ShiftBackward(u32),
    /// Swap the song with the one after it.
    ShiftForward(u32),
    /// Move the song at the first position in front of the one at the second.
    MovePos(u32, u32),
    /// Take the song out.
    Remove(u32),
}

/// A change that was made, with what undoing it needs.
#[derive(Debug)]
pub struct HistoryStep<T> {
    pub action: InternalEditAction,
    /// The song that a removal took out.
    pub song: Option<T>,
}

/// `list` with the items at `src` and `src + 1` swapped.
pub open spec fn swapped<T>(list: Seq<T>, src: int) -> Seq<T> {
    list.update(src, list[src + 1]).update(src + 1, list[src])
}

/// Where a moved song ends up: once it is taken out, the positions behind it
/// are one lower.
pub open spec fn landing(from: int, to: int) -> int {
    if from < to {
        to - 1
    } else {
        to
    }
}

/// `list` with the item at `from` taken out and put back at `to`.
pub open spec fn moved<T>(list: Seq<T>, from: int, to: int) -> Seq<T> {
    list.remove(from).insert(to, list[from])
}

impl<T> HistoryStep<T> {
    /// The step can be carried out on `list`.
    pub open spec fn applies(self, list: Seq<T>) -> bool {
        match self.action {
            InternalEditAction::ShiftBackward(idx) => 0 < idx < list.len(),
            InternalEditAction::ShiftForward(idx) => idx + 1 < list.len(),
            InternalEditAction::Remove(idx) => idx < list.len(),
            InternalEditAction::MovePos(from, to) => from < list.len() && to <= list.len(),
        }
    }

    /// `list` after the step.
    pub open spec fn after(self, list: Seq<T>) -> Seq<T> {
        match self.action {
            InternalEditAction::ShiftBackward(idx) => swapped(list, idx - 1),
            InternalEditAction::ShiftForward(idx) => swapped(list, idx as int),
            InternalEditAction::Remove(idx) => list.remove(idx as int),
            InternalEditAction::MovePos(from, to) => moved(
                list,
                from as int,
                landing(from as int, to as int),
            ),
        }
    }

    /// The step can be undone on `list`.
    pub open spec fn reverses(self, list: Seq<T>) -> bool {
        match self.action {
            InternalEditAction::ShiftBackward(idx) => 0 < idx < list.len(),
            InternalEditAction::ShiftForward(idx) => idx + 1 < list.len(),
            InternalEditAction::Remove(idx) => idx <= list.len() && self.song is Some,
            InternalEditAction::MovePos(from, to) => from < list.len() && to <= list.len(),
        }
    }

    /// `list` with the step undone.
    pub open spec fn before(self, list: Seq<T>) -> Seq<T> {
        match self.action {
            InternalEditAction::ShiftBackward(idx) => swapped(list, idx - 1),
            InternalEditAction::ShiftForward(idx) => swapped(list, idx as int),
            InternalEditAction::Remove(idx) => list.insert(idx as int, self.song->0),
            InternalEditAction::MovePos(from, to) => moved(
                list,
                landing(from as int, to as int),
                from as int,
            ),
        }
    }

    /// The step can be carried out on `list`, and keeps the song it removes.
    pub open spec fn records(self, list: Seq<T>) -> bool {
        &&& self.applies(list)
        &&& self.action matches InternalEditAction::Remove(idx) ==> self.song == Some(
            list[idx as int],
        )
    }
}

impl<T: Copy> HistoryStep<T> {
    fn shift(&self, list: &mut Vec<T>, pos: usize, backward: bool)
        requires
            backward ==> 0 < pos < old(list).len(),
            !backward ==> pos + 1 < old(list).len(),
        ensures
            final(list)@ == swapped(old(list)@, if backward { pos - 1 } else { pos as int }),
    {
        let src: usize = if backward { pos - 1 } else { pos };
        let des: usize = src + 1;
        let src_song: T = list[src];
        let des_song: T = list[des];
        list.set(src, des_song);
        list.set(des, src_song);
    }

    fn can_apply(&self, list: &Vec<T>) -> (r: bool)
        ensures
            r == self.applies(list@),
    {
        let len: usize = list.len();
        match self.action {
            InternalEditAction::ShiftBackward(idx) => 0 < idx && (idx as usize) < len,
            InternalEditAction::ShiftForward(idx) => (idx as usize) < len && len - idx as usize > 1,
            InternalEditAction::Remove(idx) => (idx as usize) < len,
            InternalEditAction::MovePos(from, to) => (from as usize) < len && to as usize <= len,
        }
    }

    fn can_reverse(&self, list: &Vec<T>) -> (r: bool)
        ensures
            r == self.reverses(list@),
    {
        match self.action {
            InternalEditAction::Remove(idx) => idx as usize <= list.len() && self.song.is_some(),
            _ => self.can_apply(list),
        }
    }

    /// Carries the step out.
    pub fn forward(&self, list: &mut Vec<T>)
        requires
            self.applies(old(list)@),
        ensures
            final(list)@ == self.after(old(list)@),
    {
        match self.action {
            InternalEditAction::ShiftBackward(idx) => {
                self.shift(list, idx as usize, true);
            },
            InternalEditAction::ShiftForward(idx) => {
                self.shift(list, idx as usize, false);
            },
            InternalEditAction::Remove(idx) => {
                list.remove(idx as usize);
            },
            InternalEditAction::MovePos(from_pos, to_pos) => {
                let local_new_pos: u32 = if from_pos < to_pos { to_pos - 1 } else { to_pos };
                let to_move: T = list.remove(from_pos as usize);
                list.insert(local_new_pos as usize, to_move);
            },
        }
    }

    /// Undoes the step.
    pub fn backward(&self, list: &mut Vec<T>)
        requires
            self.reverses(old(list)@),
        ensures
            final(list)@ == self.before(old(list)@),
    {
        let len: usize = list.len();
        match self.action {
            InternalEditAction::ShiftBackward(idx) => {
                self.shift(list, idx as usize - 1, false);
            },
            InternalEditAction::ShiftForward(idx) => {
                assert(idx + 1 < len);
                self.shift(list, idx as usize + 1, true);
            },
            InternalEditAction::Remove(idx) => {
                if let Some(song) = self.song {
                    list.insert(idx as usize, song);
                }
            },
            InternalEditAction::MovePos(from_pos, to_pos) => {
                let local_new_pos: u32 = if from_pos < to_pos { to_pos - 1 } else { to_pos };
                let to_move: T = list.remove(local_new_pos as usize);
                list.insert(from_pos as usize, to_move);
            },
        }
    }
}

/// Undoing a step right after carrying it out gives the list back.
pub proof fn undoing_reverts<T>(step: HistoryStep<T>, list: Seq<T>)
    requires
        step.records(list),
    ensures
        step.reverses(step.after(list)),
        step.before(step.after(list)) == list,
{
    assert(step.before(step.after(list)) =~= list);
}

/// Carrying a step out again right after undoing it gives the list back.
pub proof fn redoing_reverts<T>(step: HistoryStep<T>, list: Seq<T>)
    requires
        step.reverses(list),
    ensures
        step.records(step.before(list)),
        step.after(step.before(list)) == list,
{
    assert(step.after(step.before(list)) =~= list);
}

/// `base` after the first `n` steps.
pub open spec fn replay<T>(base: Seq<T>, steps: Seq<HistoryStep<T>>, n: int) -> Seq<T>
    decreases n,
{
    if n <= 0 {
        base
    } else {
        steps[n - 1].after(replay(base, steps, n - 1))
    }
}

proof fn replay_looks_back<T>(
    base: Seq<T>,
    steps: Seq<HistoryStep<T>>,
    other: Seq<HistoryStep<T>>,
    n: int,
)
    requires
        n <= steps.len(),
        n <= other.len(),
        forall|i: int| 0 <= i < n ==> steps[i] == other[i],
    ensures
        replay(base, steps, n) == replay(base, other, n),
    decreases n,
{
    if n > 0 {
        replay_looks_back(base, steps, other, n - 1);
    }
}

fn copied<T: Copy>(list: &Vec<T>) -> (r: Vec<T>)
    ensures
        r@ == list@,
{
    let mut out: Vec<T> = Vec::new();
    for i in 0..list.len()
        invariant
            out@ == list@.take(i as int),
    {
        out.push(list[i]);
    }
    assert(out@ =~= list@);
    out
}

/// New sensitivities of the edit buttons; `None` leaves a button as it is.
#[derive(Clone, Copy, Debug, PartialEq, Eq, Structural)]
pub struct EditButtons {
    pub undo: Option<bool>,
    pub redo: Option<bool>,
    pub apply: Option<bool>,
}

/// What a queue button asks of the library.
#[derive(Debug)]
pub enum QueueRequest<T> {
    /// No playlist is bound.
    Nothing,
    /// Queue the whole playlist by name.
    Playlist { name: String, replace: bool, play: bool },
    /// Queue these songs.
    Songs { songs: Vec<T>, replace: bool, play: bool },
}

/// What leaving the edit mode asks for.
#[derive(Debug)]
pub struct EditExit<T> {
    /// The songs that replace the contents of the playlist with that URI.
    pub save: Option<(String, Vec<T>)>,
    pub buttons: EditButtons,
}

/// The songs at these positions of a list of URIs.
pub open spec fn uris_at(uris: Seq<String>, positions: Seq<usize>) -> Seq<Seq<char>> {
    positions.map_values(|position: usize| uris[position as int]@)
}

impl EditExit<usize> {
    /// The changes that save what was edited, if there is something to save: the
    /// edited list replaces the contents of the playlist. The songs are positions
    /// in a list of URIs.
    pub fn save_edits(&self, uris: &Vec<String>) -> (r: Option<Vec<EditAction>>)
        requires
            self.save matches Some(save) ==> forall|i: int|
                0 <= i < save.1.len() ==> (#[trigger] save.1@[i]) < uris.len(),
        ensures
            match r {
                Some(actions) => {
                    &&& self.save matches Some(save)
                    &&& edits(actions@) == playlist_edits(
                        save.0@,
                        uris_at(uris@, save.1@),
                        SaveMode::Replace,
                    )
                },
                None => self.save is None,
            },
    {
        match &self.save {
            Some(save) => {
                let mut songs: Vec<String> = Vec::new();
                for i in 0..save.1.len()
                    invariant
                        songs.len() == i,
                        forall|j: int|
                            0 <= j < save.1.len() ==> (#[trigger] save.1@[j]) < uris.len(),
                        forall|j: int|
                            0 <= j < i ==> (#[trigger] songs@[j])@ == uris@[save.1@[j] as int]@,
                {
                    songs.push(uris[save.1[i]].clone());
                }
                assert(views(songs@) =~= uris_at(uris@, save.1@));
                Some(Library::add_songs_to_playlist(save.0.as_str(), &songs, SaveMode::Replace))
            },
            None => None,
        }
    }
}

/// A playlist as the server lists it.
#[derive(Debug)]
pub struct PlaylistNode {
    pub uri: String,
    pub name: Option<String>,
}

/// How the server answered a rename.
#[derive(Debug)]
pub enum RenameReply {
    Done,
    /// There is a playlist of that name.
    Exist,
    /// There is no playlist to rename.
    NoExist,
    /// Another error code of the server, spelled out.
    OtherCode(String),
    /// The connection to the server failed.
    Connection,
    /// The client failed before it reached the server; the error spelled out.
    Client(String),
}

/// How looking for a cover went.
#[derive(Clone, Copy, Debug, PartialEq, Eq, Structural)]
pub enum CoverReply {
    Found,
    Missing,
    Failed,
}

/// What to do with the cover on display.
#[derive(Clone, Copy, Debug, PartialEq, Eq, Structural)]
pub enum CoverAction {
    Show,
    Clear,
    Keep,
}

/// The state of the view. `T` stands for a song.
#[derive(Debug)]
pub struct PlaylistContentView<T> {
    song_list: Vec<T>,
    editing_song_list: Vec<T>,
    is_editing: bool,
    history: Vec<HistoryStep<T>>,
    history_idx: usize,
    playlist: Option<PlaylistNode>,
    selecting_all: bool,
}

impl<T> PlaylistContentView<T> {
    /// The songs of the playlist.
    pub closed spec fn songs(self) -> Seq<T> {
        self.song_list@
    }

    /// The list being edited.
    pub closed spec fn working(self) -> Seq<T> {
        self.editing_song_list@
    }

    /// The edit mode is on.
    pub closed spec fn editing(self) -> bool {
        self.is_editing
    }

    /// The history: the steps in effect, then those that were undone.
    pub closed spec fn steps(self) -> Seq<HistoryStep<T>> {
        self.history@
    }

    /// How many steps of the history are in effect; 0 is the initial state,
    /// before the first step.
    pub closed spec fn in_effect(self) -> int {
        self.history_idx as int
    }

    /// The bound playlist.
    pub closed spec fn bound(self) -> Option<PlaylistNode> {
        self.playlist
    }

    /// Whether queue actions cover the entire playlist.
    pub closed spec fn covers_everything(self) -> bool {
        self.selecting_all
    }

    /// The current position lies in the history.
    pub open spec fn wf(self) -> bool {
        0 <= self.in_effect() <= self.steps().len()
    }

    /// The list being edited is `base` after the steps in effect, and each step
    /// can be carried out on, and keeps what it removes from, the list that it
    /// came upon.
    pub open spec fn in_session(self, base: Seq<T>) -> bool {
        &&& self.wf()
        &&& self.working() == replay(base, self.steps(), self.in_effect())
        &&& forall|k: int|
            0 <= k < self.steps().len() ==> (#[trigger] self.steps()[k]).records(
                replay(base, self.steps(), k),
            )
    }

    /// The selection can be queued.
    pub open spec fn queueable(self, selected: Seq<u32>) -> bool {
        &&& self.bound() matches Some(playlist) ==> if self.covers_everything() {
            playlist.name is Some
        } else {
            selected.len() > 0
        }
        &&& forall|i: int|
            0 <= i < selected.len() ==> (#[trigger] selected[i]) < self.songs().len()
    }

    /// `request` is for the entire playlist or for the selected songs, in place of
    /// what is queued and at once if `now`, else behind it.
    pub open spec fn asks(self, request: QueueRequest<T>, selected: Seq<u32>, now: bool) -> bool {
        match request {
            QueueRequest::Nothing => self.bound() is None,
            QueueRequest::Playlist { name, replace, play } => {
                &&& self.bound() is Some && self.covers_everything()
                &&& Some(name) == self.bound()->0.name
                &&& replace == now && play == now
            },
            QueueRequest::Songs { songs, replace, play } => {
                &&& self.bound() is Some && !self.covers_everything()
                &&& songs@ == picked(self.songs(), selected)
                &&& replace == now && play == now
            },
        }
    }

    /// The sensitivities that go with the history.
    pub open spec fn buttons(self) -> EditButtons {
        EditButtons {
            undo: Some(self.in_effect() > 0),
            redo: Some(self.in_effect() < self.steps().len()),
            apply: Some(self.in_effect() > 0),
        }
    }

    /// Everything but the edit state is the same.
    pub open spec fn same_contents(self, other: Self) -> bool {
        &&& self.songs() == other.songs()
        &&& self.bound() == other.bound()
        &&& self.covers_everything() == other.covers_everything()
        &&& self.editing() == other.editing()
    }

    /// `self` is `other` after it carried out `action`, keeping `song`, and
    /// dropped the steps that had been undone.
    pub open spec fn edited(
        self,
        other: Self,
        action: InternalEditAction,
        song: Option<T>,
    ) -> bool {
        let step = HistoryStep { action, song };
        &&& self.same_contents(other)
        &&& self.working() == step.after(other.working())
        &&& self.steps() == other.steps().take(other.in_effect()).push(step)
        &&& self.in_effect() == self.steps().len()
    }
}

/// Within a session the next undo and the next redo can always be carried out,
/// and they move along the same row of lists.
pub proof fn session_moves<T>(view: PlaylistContentView<T>, base: Seq<T>)
    requires
        view.in_session(base),
    ensures
        view.in_effect() > 0 ==> {
            let step = view.steps()[view.in_effect() - 1];
            step.reverses(view.working()) && step.before(view.working())
                == replay(base, view.steps(), view.in_effect() - 1)
        },
        view.in_effect() < view.steps().len() ==> {
            let step = view.steps()[view.in_effect()];
            step.applies(view.working()) && step.after(view.working()) == replay(
                base,
                view.steps(),
                view.in_effect() + 1,
            )
        },
{
    if view.history_idx > 0 {
        let k = view.history_idx - 1;
        undoing_reverts(view.history@[k], replay(base, view.history@, k));
    }
}

/// With every step undone, the list being edited is what it was at the start.
pub proof fn undoing_everything_restores<T>(view: PlaylistContentView<T>, base: Seq<T>)
    requires
        view.in_session(base),
        view.in_effect() == 0,
    ensures
        view.working() == base,
{
}

proof fn session_grows<T>(
    prev: PlaylistContentView<T>,
    next: PlaylistContentView<T>,
    action: InternalEditAction,
    song: Option<T>,
    base: Seq<T>,
)
    requires
        prev.in_session(base),
        next.edited(prev, action, song),
        (HistoryStep { action, song }).records(prev.working()),
    ensures
        next.in_session(base),
{
    let n = prev.history_idx as int;
    replay_looks_back(base, prev.history@, next.history@, n);
    assert forall|k: int| 0 <= k < next.history.len() implies (#[trigger] next.history@[k]).records(
        replay(base, next.history@, k),
    ) by {
        replay_looks_back(base, prev.history@, next.history@, k);
        if k < n {
            assert(next.history@[k] == prev.history@[k]);
        }
    }
}

impl<T: Copy> PlaylistContentView<T> {
    /// An empty view.
    pub fn new() -> (view: Self)
        ensures
            view.songs().len() == 0,
            view.working().len() == 0,
            view.steps().len() == 0,
            view.in_effect() == 0,
            view.bound() is None,
            view.covers_everything(),
            !view.editing(),
            view.in_session(Seq::empty()),
    {
        PlaylistContentView {
            song_list: Vec::new(),
            editing_song_list: Vec::new(),
            is_editing: false,
            history: Vec::new(),
            history_idx: 0,
            playlist: None,
            selecting_all: true,
        }
    }

    /// The songs of the playlist.
    pub fn song_list(&self) -> (r: &Vec<T>)
        ensures
            r@ == self.songs(),
    {
        &self.song_list
    }

    /// The list being edited.
    pub fn editing_song_list(&self) -> (r: &Vec<T>)
        ensures
            r@ == self.working(),
    {
        &self.editing_song_list
    }

    /// Whether the edit mode is on.
    pub fn is_editing(&self) -> (r: bool)
        ensures
            r == self.editing(),
    {
        self.is_editing
    }

    /// Whether the list being edited has a song at a position, which can then be
    /// moved, shifted or taken out.
    pub fn has_song(&self, position: u32) -> (r: bool)
        ensures
            r == (position < self.working().len()),
    {
        (position as usize) < self.editing_song_list.len()
    }

    fn update_btn_sensitivity(&self) -> (r: EditButtons)
        ensures
            r == self.buttons(),
    {
        EditButtons {
            undo: Some(self.history_idx > 0),
            redo: Some(self.history_idx < self.history.len()),
            apply: Some(self.history_idx > 0),
        }
    }

    /// Starts editing a copy of the current contents.
    pub fn enter_edit_mode(&mut self) -> (r: EditButtons)
        ensures
            final(self).songs() == old(self).songs(),
            final(self).bound() == old(self).bound(),
            final(self).covers_everything() == old(self).covers_everything(),
            final(self).steps() == old(self).steps(),
            final(self).in_effect() == old(self).in_effect(),
            final(self).editing(),
            final(self).working() == old(self).songs(),
            r == (EditButtons { undo: None, redo: None, apply: Some(false) }),
            old(self).steps().len() == 0 && old(self).wf() ==> final(self).in_session(
                old(self).songs(),
            ),
    {
        self.editing_song_list = copied(&self.song_list);
        self.is_editing = true;
        EditButtons { undo: None, redo: None, apply: Some(false) }
    }

    /// Leaves the edit mode. With `apply` the edited list is to be saved if any
    /// step is in effect, and the history is forgotten.
    pub fn exit_edit_mode(&mut self, apply: bool) -> (r: EditExit<T>)
        requires
            apply && old(self).in_effect() > 0 ==> old(self).bound() is Some,
        ensures
            final(self).songs() == old(self).songs(),
            final(self).working() == old(self).working(),
            final(self).bound() == old(self).bound(),
            final(self).covers_everything() == old(self).covers_everything(),
            !final(self).editing(),
            !apply ==> final(self).steps() == old(self).steps() && final(self).in_effect() == old(
                self,
            ).in_effect() && r.save is None && r.buttons == (EditButtons {
                undo: None,
                redo: None,
                apply: None,
            }),
            apply ==> final(self).steps().len() == 0 && final(self).in_effect() == 0 && r.buttons
                == (EditButtons { undo: Some(false), redo: Some(false), apply: None }),
            apply ==> match r.save {
                Some(save) => old(self).in_effect() > 0 && save.0 == old(self).bound()->0.uri
                    && save.1@ == old(self).working(),
                None => old(self).in_effect() == 0,
            },
    {
        let mut save: Option<(String, Vec<T>)> = None;
        let mut buttons: EditButtons = EditButtons { undo: None, redo: None, apply: None };
        if apply {
            if self.history_idx > 0 {
                let songs: Vec<T> = copied(&self.editing_song_list);
                if let Some(playlist) = &self.playlist {
                    save = Some((playlist.uri.clone(), songs));
                }
                self.history_idx = 0;
            }
            self.history.clear();
            buttons = EditButtons { undo: Some(false), redo: Some(false), apply: None };
        }
        self.is_editing = false;
        EditExit { save, buttons }
    }

    /// Whether the last step in effect, if there is one, can be undone on the list
    /// being edited. After a session that was cancelled the history is still
    /// there, while the list is a new copy.
    pub fn can_undo(&self) -> (r: bool)
        ensures
            r == (self.wf() && (self.in_effect() > 0 ==> self.steps()[self.in_effect()
                - 1].reverses(self.working()))),
    {
        if self.history_idx > self.history.len() {
            false
        } else if self.history_idx > 0 {
            self.history[self.history_idx - 1].can_reverse(&self.editing_song_list)
        } else {
            true
        }
    }

    /// Whether the next undone step, if there is one, can be carried out again on
    /// the list being edited.
    pub fn can_redo(&self) -> (r: bool)
        ensures
            r == (self.wf() && (self.in_effect() < self.steps().len()
                ==> self.steps()[self.in_effect()].applies(self.working()))),
    {
        if self.history_idx > self.history.len() {
            false
        } else if self.history_idx < self.history.len() {
            self.history[self.history_idx].can_apply(&self.editing_song_list)
        } else {
            true
        }
    }

    /// Whether the edit mode can be left: what is to be saved has to have a
    /// playlist.
    pub fn can_exit(&self, apply: bool) -> (r: bool)
        ensures
            r == (apply && self.in_effect() > 0 ==> self.bound() is Some),
    {
        !apply || self.history_idx == 0 || self.playlist.is_some()
    }

    /// Undoes the last step in effect.
    pub fn undo(&mut self) -> (r: Option<EditButtons>)
        requires
            old(self).wf(),
            old(self).in_effect() > 0 ==> old(self).steps()[old(self).in_effect() - 1].reverses(
                old(self).working(),
            ),
        ensures
            old(self).in_effect() == 0 ==> *final(self) == *old(self) && r is None,
            old(self).in_effect() > 0 ==> {
                &&& final(self).same_contents(*old(self))
                &&& final(self).steps() == old(self).steps()
                &&& final(self).in_effect() == old(self).in_effect() - 1
                &&& final(self).working() == old(self).steps()[old(self).in_effect()
                    - 1].before(old(self).working())
                &&& r == Some(final(self).buttons())
            },
            forall|base: Seq<T>|
                #![trigger old(self).in_session(base)]
                old(self).in_session(base) ==> final(self).in_session(base),
    {
        if self.history_idx > 0 {
            let idx: usize = self.history_idx - 1;
            self.history[idx].backward(&mut self.editing_song_list);
            self.history_idx = idx;
            proof {
                assert forall|base: Seq<T>| #[trigger] old(self).in_session(base) implies
                    self.in_session(base) by {
                    session_moves(*old(self), base);
                }
            }
            Some(self.update_btn_sensitivity())
        } else {
            None
        }
    }

    /// Carries the next undone step out again.
    pub fn redo(&mut self) -> (r: Option<EditButtons>)
        requires
            old(self).wf(),
            old(self).in_effect() < old(self).steps().len() ==> old(self).steps()[old(
                self,
            ).in_effect()].applies(old(self).working()),
        ensures
            old(self).in_effect() == old(self).steps().len() ==> *final(self) == *old(self) && r
                is None,
            old(self).in_effect() < old(self).steps().len() ==> {
                &&& final(self).same_contents(*old(self))
                &&& final(self).steps() == old(self).steps()
                &&& final(self).in_effect() == old(self).in_effect() + 1
                &&& final(self).working() == old(self).steps()[old(
                    self,
                ).in_effect()].after(old(self).working())
                &&& r == Some(final(self).buttons())
            },
            forall|base: Seq<T>|
                #![trigger old(self).in_session(base)]
                old(self).in_session(base) ==> final(self).in_session(base),
    {
        if self.history_idx < self.history.len() {
            let idx: usize = self.history_idx;
            self.history[idx].forward(&mut self.editing_song_list);
            self.history_idx = idx + 1;
            proof {
                assert forall|base: Seq<T>| #[trigger] old(self).in_session(base) implies
                    self.in_session(base) by {
                    session_moves(*old(self), base);
                }
            }
            Some(self.update_btn_sensitivity())
        } else {
            None
        }
    }

    /// Makes `step` the last one of the history, in place of the undone ones.
    pub fn push_history(&mut self, step: HistoryStep<T>) -> (r: EditButtons)
        requires
            old(self).wf(),
        ensures
            final(self).same_contents(*old(self)),
            final(self).working() == old(self).working(),
            final(self).steps() == old(self).steps().take(old(self).in_effect()).push(step),
            final(self).in_effect() == final(self).steps().len(),
            r == final(self).buttons(),
    {
        if self.history_idx < self.history.len() {
            self.history.truncate(self.history_idx);
        }
        assert(self.history@ =~= old(self).history@.take(old(self).history_idx as int));
        self.history.push(step);
        self.history_idx = self.history.len();
        self.update_btn_sensitivity()
    }

    fn edit(&mut self, action: InternalEditAction, song: Option<T>) -> (r: EditButtons)
        requires
            old(self).wf(),
            (HistoryStep { action, song }).records(old(self).working()),
        ensures
            final(self).edited(*old(self), action, song),
            r == final(self).buttons(),
            forall|base: Seq<T>|
                #![trigger old(self).in_session(base)]
                old(self).in_session(base) ==> final(self).in_session(base),
    {
        let step: HistoryStep<T> = HistoryStep { action, song };
        step.forward(&mut self.editing_song_list);
        let buttons: EditButtons = self.push_history(step);
        proof {
            assert forall|base: Seq<T>| #[trigger] old(self).in_session(base) implies
                self.in_session(base) by {
                session_grows(*old(self), *self, action, song, base);
            }
        }
        buttons
    }

    /// Swaps a song with the one before it; the first one stays.
    pub fn shift_backward(&mut self, idx: u32) -> (r: Option<EditButtons>)
        requires
            old(self).wf(),
            0 < idx ==> idx < old(self).working().len(),
        ensures
            idx == 0 ==> *final(self) == *old(self) && r is None,
            idx > 0 ==> final(self).edited(
                *old(self),
                InternalEditAction::ShiftBackward(idx),
                None,
            ) && r == Some(final(self).buttons()),
            forall|base: Seq<T>|
                #![trigger old(self).in_session(base)]
                old(self).in_session(base) ==> final(self).in_session(base),
    {
        if idx > 0 {
            Some(self.edit(InternalEditAction::ShiftBackward(idx), None))
        } else {
            None
        }
    }

    /// Swaps a song with the one after it; the last one stays.
    pub fn shift_forward(&mut self, idx: u32) -> (r: Option<EditButtons>)
        requires
            old(self).wf(),
        ensures
            idx + 1 >= old(self).working().len() ==> *final(self) == *old(self) && r
                is None,
            idx + 1 < old(self).working().len() ==> final(self).edited(
                *old(self),
                InternalEditAction::ShiftForward(idx),
                None,
            ) && r == Some(final(self).buttons()),
            forall|base: Seq<T>|
                #![trigger old(self).in_session(base)]
                old(self).in_session(base) ==> final(self).in_session(base),
    {
        let len: usize = self.editing_song_list.len();
        if len > 1 && (idx as usize) < len - 1 {
            Some(self.edit(InternalEditAction::ShiftForward(idx), None))
        } else {
            None
        }
    }

    /// Moves the song at `from_pos` in front of the one at `to_pos`.
    pub fn move_pos(&mut self, from_pos: u32, to_pos: u32) -> (r: EditButtons)
        requires
            old(self).wf(),
            from_pos < old(self).working().len(),
            to_pos <= old(self).working().len(),
        ensures
            final(self).edited(*old(self), InternalEditAction::MovePos(from_pos, to_pos), None),
            r == final(self).buttons(),
            forall|base: Seq<T>|
                #![trigger old(self).in_session(base)]
                old(self).in_session(base) ==> final(self).in_session(base),
    {
        self.edit(InternalEditAction::MovePos(from_pos, to_pos), None)
    }

    /// Takes a song out of the list being edited.
    pub fn remove(&mut self, idx: u32) -> (r: EditButtons)
        requires
            old(self).wf(),
            idx < old(self).working().len(),
        ensures
            final(self).edited(
                *old(self),
                InternalEditAction::Remove(idx),
                Some(old(self).working()[idx as int]),
            ),
            r == final(self).buttons(),
            forall|base: Seq<T>|
                #![trigger old(self).in_session(base)]
                old(self).in_session(base) ==> final(self).in_session(base),
    {
        let song: T = self.editing_song_list[idx as usize];
        self.edit(InternalEditAction::Remove(idx), Some(song))
    }

    /// Shows the songs of a playlist. Returns whether there are any; if not, a
    /// placeholder stands in for them.
    pub fn bind(&mut self, playlist: PlaylistNode, songs: Vec<T>) -> (r: bool)
        ensures
            final(self).bound() == Some(playlist),
            final(self).songs() == songs@,
            final(self).working() == old(self).working(),
            final(self).steps() == old(self).steps(),
            final(self).in_effect() == old(self).in_effect(),
            final(self).editing() == old(self).editing(),
            final(self).covers_everything() == old(self).covers_everything(),
            r == (songs@.len() > 0),
    {
        self.playlist = Some(playlist);
        self.song_list = songs;
        self.song_list.len() > 0
    }

    /// Leaves the edit mode without saving, and drops the list being edited.
    /// The songs on display go too if `clear_contents` is set.
    pub fn unbind(&mut self, clear_contents: bool) -> (r: EditExit<T>)
        ensures
            final(self).bound() == old(self).bound(),
            final(self).covers_everything() == old(self).covers_everything(),
            final(self).steps() == old(self).steps(),
            final(self).in_effect() == old(self).in_effect(),
            !final(self).editing(),
            final(self).working().len() == 0,
            final(self).songs() == (if clear_contents {
                Seq::<T>::empty()
            } else {
                old(self).songs()
            }),
            r.save is None,
            r.buttons == (EditButtons { undo: None, redo: None, apply: None }),
    {
        if clear_contents {
            self.song_list.clear();
        }
        let exit: EditExit<T> = self.exit_edit_mode(false);
        self.editing_song_list.clear();
        exit
    }

    /// Takes note of how many songs are selected. Returns the texts of the play
    /// and of the queue button.
    pub fn on_selection_changed(&mut self, n_sel: u32) -> (r: (String, String))
        requires
            old(self).songs().len() <= u32::MAX,
        ensures
            final(self).songs() == old(self).songs(),
            final(self).working() == old(self).working(),
            final(self).steps() == old(self).steps(),
            final(self).in_effect() == old(self).in_effect(),
            final(self).editing() == old(self).editing(),
            final(self).bound() == old(self).bound(),
            final(self).covers_everything() == covers_all(n_sel as nat, old(self).songs().len()),
            r.0@ == action_label("Play"@, n_sel as nat, old(self).songs().len()),
            r.1@ == action_label("Queue"@, n_sel as nat, old(self).songs().len()),
    {
        let total: u32 = self.song_list.len() as u32;
        self.selecting_all = selection::selecting_all(n_sel, total);
        (selection::play_label(n_sel, total), selection::queue_label(n_sel, total))
    }

    /// Whether a selection can be queued: there is a name to queue the entire
    /// playlist by, or at least one song, and all of them are there.
    pub fn can_queue(&self, selected: &Vec<u32>) -> (r: bool)
        ensures
            r == self.queueable(selected@),
    {
        for i in 0..selected.len()
            invariant
                forall|j: int|
                    0 <= j < i ==> (#[trigger] selected@[j]) < self.song_list.len(),
        {
            if selected[i] as usize >= self.song_list.len() {
                return false;
            }
        }
        match &self.playlist {
            Some(playlist) => if self.selecting_all {
                playlist.name.is_some()
            } else {
                selected.len() > 0
            },
            None => true,
        }
    }

    fn queue_selected(&self, selected: &Vec<u32>, now: bool) -> (r: QueueRequest<T>)
        requires
            self.queueable(selected@),
        ensures
            self.asks(r, selected@, now),
    {
        match &self.playlist {
            None => QueueRequest::Nothing,
            Some(playlist) => if self.selecting_all {
                match &playlist.name {
                    Some(name) => QueueRequest::Playlist {
                        name: name.clone(),
                        replace: now,
                        play: now,
                    },
                    None => QueueRequest::Nothing,
                }
            } else {
                QueueRequest::Songs {
                    songs: selection::pick(&self.song_list, selected),
                    replace: now,
                    play: now,
                }
            },
        }
    }

    /// What the play button asks for: the selection, at once, in place of what
    /// is queued.
    pub fn replace_queue(&self, selected: &Vec<u32>) -> (r: QueueRequest<T>)
        requires
            self.queueable(selected@),
        ensures
            self.asks(r, selected@, true),
    {
        self.queue_selected(selected, true)
    }

    /// What the queue button asks for: the selection, behind what is queued.
    pub fn append_queue(&self, selected: &Vec<u32>) -> (r: QueueRequest<T>)
        requires
            self.queueable(selected@),
        ensures
            self.asks(r, selected@, false),
    {
        self.queue_selected(selected, false)
    }

    /// Whether the rename button reacts: the name is new and not empty.
    pub fn rename_sensitive(&self, entry: &str) -> (r: bool)
        requires
            self.bound() matches Some(p) ==> entry@.len() > 0 ==> p.name is Some,
        ensures
            r == (self.bound() is Some && entry@.len() > 0 && self.bound()->0.name->0@ != entry@),
    {
        match &self.playlist {
            None => false,
            Some(playlist) => if entry.unicode_len() > 0 {
                match &playlist.name {
                    Some(name) => !same(entry, name.as_str()),
                    None => false,
                }
            } else {
                false
            },
        }
    }

    /// The old and the new name to rename with.
    pub fn rename_request(&self, entry: &str) -> (r: Option<(String, String)>)
        ensures
            match r {
                Some(names) => self.bound() is Some && self.bound()->0.name == Some(names.0)
                    && names.1@ == entry@,
                None => self.bound() is None || self.bound()->0.name is None,
            },
    {
        match &self.playlist {
            None => None,
            Some(playlist) => match &playlist.name {
                Some(name) => Some((name.clone(), entry.to_owned())),
                None => None,
            },
        }
    }

    /// The name of the playlist to delete.
    pub fn delete_request(&self) -> (r: Option<String>)
        requires
            self.bound() matches Some(p) ==> p.name is Some,
        ensures
            r == (match self.bound() {
                Some(p) => p.name,
                None => None,
            }),
    {
        match &self.playlist {
            None => None,
            Some(playlist) => crate::text::clone_opt(&playlist.name),
        }
    }
}

/// The text of the dialog on a failed rename, if there is to be one.
pub open spec fn rename_dialog(reply: RenameReply, rename_to: Seq<char>) -> Option<Seq<char>> {
    match reply {
        RenameReply::Done => None,
        RenameReply::Connection => None,
        RenameReply::Exist => Some(
            "There is already another playlist named \""@ + rename_to
                + "\". Please pick another name."@,
        ),
        RenameReply::NoExist => Some(
            "Internal error: tried to rename a nonexistent playlist"@,
        ),
        RenameReply::OtherCode(code) => Some("Internal error ("@ + code@ + ")"@),
        RenameReply::Client(error) => Some(error@),
    }
}

/// What to tell the user about the outcome of a rename.
pub fn rename_message(reply: &RenameReply, rename_to: &str) -> (r: Option<String>)
    ensures
        crate::text::opt_view(r) == rename_dialog(*reply, rename_to@),
{
    match reply {
        RenameReply::Done => None,
        RenameReply::Connection => None,
        RenameReply::Exist => Some(
            join3(
                "There is already another playlist named \"",
                rename_to,
                "\". Please pick another name.",
            ),
        ),
        RenameReply::NoExist => Some(
            "Internal error: tried to rename a nonexistent playlist".to_owned(),
        ),
        RenameReply::OtherCode(code) => Some(join3("Internal error (", code.as_str(), ")")),
        RenameReply::Client(error) => Some(error.clone()),
    }
}

/// What to do with the cover once the search for it is over.
pub fn cover_action(reply: CoverReply) -> (r: CoverAction)
    ensures
        reply is Found ==> r is Show,
        reply is Missing ==> r is Clear,
        reply is Failed ==> r is Keep,
{
    match reply {
        CoverReply::Found => CoverAction::Show,
        CoverReply::Missing => CoverAction::Clear,
        CoverReply::Failed => CoverAction::Keep,
    }
}

/// Whether the cover of the playlist with this title can be set or cleared.
pub fn cover_editable(title: &str, has_cache: bool) -> (r: bool)
    ensures
        r == (title@.len() > 0 && has_cache),
{
    title.unicode_len() > 0 && has_cache
}

/// The icon of the button that folds the info box.
pub fn infobox_icon(revealed: bool) -> (r: &'static str)
    ensures
        r@ == (if revealed { "up-symbolic"@ } else { "down-symbolic"@ }),
{
    if revealed {
        "up-symbolic"
    } else {
        "down-symbolic"
    }
}

/// The gap that a row makes for a song that is dragged over it.
#[derive(Clone, Copy, Debug, PartialEq, Eq, Structural)]
pub struct RowShift {
    pub up: bool,
    pub down: bool,
}

/// The gap of a row while a song is held over it: below, when it is over the
/// lower half, else above. A row that is itself being dragged does not change.
pub fn shift_on_motion(shift: RowShift, floating: bool, lower_half: bool) -> (r: RowShift)
    ensures
        floating ==> r == shift,
        !floating ==> r == (RowShift { up: lower_half, down: !lower_half }),
{
    if floating {
        shift
    } else {
        RowShift { up: lower_half, down: !lower_half }
    }
}

/// The gap of a row after the dragged song has left it.
pub fn shift_on_leave(shift: RowShift, floating: bool) -> (r: RowShift)
    ensures
        floating ==> r == shift,
        !floating ==> r == (RowShift { up: false, down: false }),
{
    if floating {
        shift
    } else {
        RowShift { up: false, down: false }
    }
}

/// The position that a song dropped on a row goes to: in front of the row, or
/// behind it when it was dropped on the lower half.
pub fn drop_position(row_position: u32, lower_half: bool) -> (r: u32)
    requires
        row_position < u32::MAX,
    ensures
        r == (if lower_half { row_position + 1 } else { row_position as int }),
{
    if lower_half {
        row_position + 1
    } else {
        row_position
    }
}

/// Guards the scroll position over a rebuild of the rows, after which the list
/// view jumps to the top on its own.
#[derive(Clone, Copy, Debug, PartialEq, Eq, Structural)]
pub struct ScrollGuard {
    pub checks_left: u8,
}

impl ScrollGuard {
    /// Two scroll positions away from the top will be seen before the guard is
    /// lifted.
    pub fn arm(&mut self)
        ensures
            final(self).checks_left == 2,
    {
        self.checks_left = 2;
    }

    /// Takes note of a new scroll position. Returns whether the old one is to be
    /// put back.
    pub fn on_scrolled(&mut self, at_top: bool) -> (r: bool)
        ensures
            r == (old(self).checks_left > 0 && at_top),
            final(self).checks_left == (if old(self).checks_left > 0 && !at_top {
                old(self).checks_left - 1
            } else {
                old(self).checks_left as int
            }),
    {
        if self.checks_left > 0 {
            if at_top {
                true
            } else {
                self.checks_left = self.checks_left - 1;
                false
            }
        } else {
            false
        }
    }
}

/// A song that is moved in front of another stands right before it afterwards, or
/// at the end if it is moved behind the last one. All other songs keep their
/// order.
pub proof fn a_moved_song_stands_before_the_other<T: Copy>(
    view: &mut PlaylistContentView<T>,
    from: u32,
    to: u32,
    buttons: EditButtons,
    before: &Vec<T>,
    after: &Vec<T>,
)
    requires
        from < before@.len(),
        to <= before@.len(),
        call_ensures(PlaylistContentView::<T>::editing_song_list, (old(view),), before),
        call_ensures(PlaylistContentView::<T>::move_pos, (view, from, to), buttons),
        call_ensures(PlaylistContentView::<T>::editing_song_list, (final(view),), after),
    ensures
        after@.len() == before@.len(),
        to < from ==> {
            &&& after@[to as int] == before@[from as int]
            &&& after@[to + 1] == before@[to as int]
            &&& forall|i: int| 0 <= i < to || from < i < after@.len() ==> after@[i] == before@[i]
            &&& forall|i: int| to < i <= from ==> #[trigger] after@[i] == before@[i - 1]
        },
        from < to ==> {
            &&& after@[to - 1] == before@[from as int]
            &&& to < before@.len() ==> after@[to as int] == before@[to as int]
            &&& to == before@.len() ==> after@.last() == before@[from as int]
            &&& forall|i: int| 0 <= i < from || to <= i < after@.len() ==> after@[i] == before@[i]
            &&& forall|i: int| from <= i < to - 1 ==> #[trigger] after@[i] == before@[i + 1]
        },
        from == to ==> after@ == before@,
{
    if from == to {
        assert(after@ =~= before@);
    }
}

/// Shifting a song back or forth swaps it with its neighbour, and leaves the rest
/// as it is. The first song cannot be shifted back, nor the last one forth.
pub proof fn shifting_swaps_neighbours<T: Copy>(
    back: &mut PlaylistContentView<T>,
    forth: &mut PlaylistContentView<T>,
    idx: u32,
    back_buttons: Option<EditButtons>,
    forth_buttons: Option<EditButtons>,
    before: &Vec<T>,
    shifted_back: &Vec<T>,
    shifted_forth: &Vec<T>,
)
    requires
        *old(forth) == *old(back),
        idx < before@.len(),
        call_ensures(PlaylistContentView::<T>::editing_song_list, (old(back),), before),
        call_ensures(PlaylistContentView::<T>::shift_backward, (back, idx), back_buttons),
        call_ensures(PlaylistContentView::<T>::shift_forward, (forth, idx), forth_buttons),
        call_ensures(PlaylistContentView::<T>::editing_song_list, (final(back),), shifted_back),
        call_ensures(PlaylistContentView::<T>::editing_song_list, (final(forth),), shifted_forth),
    ensures
        back_buttons is Some <==> idx > 0,
        forth_buttons is Some <==> idx + 1 < before@.len(),
        shifted_back@.len() == before@.len(),
        shifted_forth@.len() == before@.len(),
        idx > 0 ==> {
            &&& shifted_back@[idx - 1] == before@[idx as int]
            &&& shifted_back@[idx as int] == before@[idx - 1]
            &&& forall|i: int|
                0 <= i < before@.len() && i != idx && i != idx - 1 ==> shifted_back@[i]
                    == before@[i]
        },
        idx == 0 ==> shifted_back@ == before@,
        idx + 1 < before@.len() ==> {
            &&& shifted_forth@[idx + 1] == before@[idx as int]
            &&& shifted_forth@[idx as int] == before@[idx + 1]
            &&& forall|i: int|
                0 <= i < before@.len() && i != idx && i != idx + 1 ==> shifted_forth@[i]
                    == before@[i]
        },
        idx + 1 == before@.len() ==> shifted_forth@ == before@,
{
}

/// Taking a song out closes the gap, and leaves the rest as it is.
pub proof fn removing_closes_the_gap<T: Copy>(
    view: &mut PlaylistContentView<T>,
    idx: u32,
    buttons: EditButtons,
    before: &Vec<T>,
    after: &Vec<T>,
)
    requires
        idx < before@.len(),
        call_ensures(PlaylistContentView::<T>::editing_song_list, (old(view),), before),
        call_ensures(PlaylistContentView::<T>::remove, (view, idx), buttons),
        call_ensures(PlaylistContentView::<T>::editing_song_list, (final(view),), after),
    ensures
        after@.len() == before@.len() - 1,
        forall|i: int| 0 <= i < idx ==> after@[i] == before@[i],
        forall|i: int| idx <= i < after@.len() ==> #[trigger] after@[i] == before@[i + 1],
{
}

/// Steps are carried out on a list, and undone on it, as the edits of a playlist
/// are: a step does to any list what it says, and undoing it gives the list back.
pub proof fn a_step_does_what_it_says<T: Copy>(
    step: &HistoryStep<T>,
    list: &mut Vec<T>,
    again: &mut Vec<T>,
)
    requires
        step.records(old(list)@),
        call_ensures(HistoryStep::<T>::forward, (step, list), ()),
        old(again)@ == final(list)@,
        call_ensures(HistoryStep::<T>::backward, (step, again), ()),
    ensures
        match step.action {
            InternalEditAction::ShiftBackward(idx) => {
                &&& final(list)@.len() == old(list)@.len()
                &&& final(list)@[idx - 1] == old(list)@[idx as int]
                &&& final(list)@[idx as int] == old(list)@[idx - 1]
                &&& forall|i: int|
                    0 <= i < old(list)@.len() && i != idx && i != idx - 1 ==> final(list)@[i]
                        == old(list)@[i]
            },
            InternalEditAction::ShiftForward(idx) => {
                &&& final(list)@.len() == old(list)@.len()
                &&& final(list)@[idx + 1] == old(list)@[idx as int]
                &&& final(list)@[idx as int] == old(list)@[idx + 1]
                &&& forall|i: int|
                    0 <= i < old(list)@.len() && i != idx && i != idx + 1 ==> final(list)@[i]
                        == old(list)@[i]
            },
            InternalEditAction::Remove(idx) => {
                &&& final(list)@.len() == old(list)@.len() - 1
                &&& final(list)@.insert(idx as int, old(list)@[idx as int]) == old(list)@
            },
            InternalEditAction::MovePos(from, to) => {
                let at = if to <= from { to as int } else { to - 1 };
                &&& final(list)@.len() == old(list)@.len()
                &&& final(list)@[at] == old(list)@[from as int]
                &&& to < old(list)@.len() && to != from ==> final(list)@[at + 1]
                    == old(list)@[to as int]
                &&& final(list)@.remove(at) == old(list)@.remove(from as int)
            },
        },
        final(again)@ == old(list)@,
{
    undoing_reverts(*step, old(list)@);
    match step.action {
        InternalEditAction::Remove(idx) => {
            assert(final(list)@.insert(idx as int, old(list)@[idx as int]) =~= old(list)@);
        },
        InternalEditAction::MovePos(from, to) => {
            let at = if to <= from { to as int } else { to - 1 };
            assert(final(list)@.remove(at) =~= old(list)@.remove(from as int));
        },
        _ => {},
    }
}

/// Undoing a change right after it was made gives the list back, and redoing it
/// then gives what the change made of it. The buttons react accordingly: there is
/// something to undo, then something to redo, then nothing to redo any more.
pub proof fn undo_and_redo_retrace_a_change<T: Copy>(
    edit: &mut PlaylistContentView<T>,
    undo: &mut PlaylistContentView<T>,
    redo: &mut PlaylistContentView<T>,
    idx: u32,
    to: u32,
    buttons: EditButtons,
    undone: Option<EditButtons>,
    redone: Option<EditButtons>,
    before: &Vec<T>,
    after: &Vec<T>,
    back: &Vec<T>,
    again: &Vec<T>,
)
    requires
        old(edit).wf(),
        idx < before@.len(),
        to <= before@.len(),
        ({
            ||| call_ensures(PlaylistContentView::<T>::move_pos, (edit, idx, to), buttons)
            ||| call_ensures(PlaylistContentView::<T>::remove, (edit, idx), buttons)
            ||| idx > 0 && call_ensures(
                PlaylistContentView::<T>::shift_backward,
                (edit, idx),
                Some(buttons),
            )
            ||| idx + 1 < before@.len() && call_ensures(
                PlaylistContentView::<T>::shift_forward,
                (edit, idx),
                Some(buttons),
            )
        }),
        *old(undo) == *final(edit),
        *old(redo) == *final(undo),
        call_ensures(PlaylistContentView::<T>::undo, (undo,), undone),
        call_ensures(PlaylistContentView::<T>::redo, (redo,), redone),
        call_ensures(PlaylistContentView::<T>::editing_song_list, (old(edit),), before),
        call_ensures(PlaylistContentView::<T>::editing_song_list, (final(edit),), after),
        call_ensures(PlaylistContentView::<T>::editing_song_list, (final(undo),), back),
        call_ensures(PlaylistContentView::<T>::editing_song_list, (final(redo),), again),
    ensures
        back@ == before@,
        again@ == after@,
        buttons.undo == Some(true) && buttons.redo == Some(false) && buttons.apply == Some(true),
        undone is Some && (undone->0).redo == Some(true),
        redone is Some && (redone->0).redo == Some(false),
        redone is Some && (redone->0).undo == Some(true) && (redone->0).apply == Some(true),
{
    let step = final(edit).steps().last();
    assert(step.records(before@));
    undoing_reverts(step, before@);
}

/// Editing begins with the songs of the playlist, with nothing to save yet.
pub proof fn editing_begins_with_the_playlist<T: Copy>(
    view: &mut PlaylistContentView<T>,
    buttons: EditButtons,
    songs: &Vec<T>,
    editing: &Vec<T>,
    still: &Vec<T>,
    on: bool,
)
    requires
        call_ensures(PlaylistContentView::<T>::song_list, (old(view),), songs),
        call_ensures(PlaylistContentView::<T>::enter_edit_mode, (view,), buttons),
        call_ensures(PlaylistContentView::<T>::editing_song_list, (final(view),), editing),
        call_ensures(PlaylistContentView::<T>::song_list, (final(view),), still),
        call_ensures(PlaylistContentView::<T>::is_editing, (final(view),), on),
    ensures
        editing@ == songs@,
        still@ == songs@,
        on,
        buttons.apply == Some(false),
{
}

/// Leaving the edit mode after a change, in order to keep it, saves the list as it
/// was edited, under the URI of the playlist; leaving it otherwise saves nothing.
/// The songs on display stay either way, until the playlist is read again.
pub proof fn the_edited_list_is_what_is_saved<T: Copy>(
    edit: &mut PlaylistContentView<T>,
    keep: &mut PlaylistContentView<T>,
    drop: &mut PlaylistContentView<T>,
    idx: u32,
    to: u32,
    buttons: EditButtons,
    kept: EditExit<T>,
    dropped: EditExit<T>,
    edited: &Vec<T>,
    shown: &Vec<T>,
    shown_after: &Vec<T>,
    on: bool,
)
    requires
        old(edit).wf(),
        old(edit).bound() is Some,
        ({
            ||| call_ensures(PlaylistContentView::<T>::move_pos, (edit, idx, to), buttons)
            ||| call_ensures(PlaylistContentView::<T>::remove, (edit, idx), buttons)
        }),
        *old(keep) == *final(edit),
        *old(drop) == *final(edit),
        call_ensures(PlaylistContentView::<T>::editing_song_list, (final(edit),), edited),
        call_ensures(PlaylistContentView::<T>::exit_edit_mode, (keep, true), kept),
        call_ensures(PlaylistContentView::<T>::exit_edit_mode, (drop, false), dropped),
        call_ensures(PlaylistContentView::<T>::song_list, (final(edit),), shown),
        call_ensures(PlaylistContentView::<T>::song_list, (final(keep),), shown_after),
        call_ensures(PlaylistContentView::<T>::is_editing, (final(keep),), on),
    ensures
        kept.save is Some,
        kept.save matches Some(save) && save.1@ == edited@ && save.0 == old(edit).bound()->0.uri,
        dropped.save is None,
        shown_after@ == shown@,
        !on,
        kept.buttons.undo == Some(false) && kept.buttons.redo == Some(false),
{
    assert(final(edit).in_effect() > 0);
}

/// Leaving the edit mode with every change undone saves nothing.
pub proof fn nothing_changed_nothing_saved<T: Copy>(
    undo: &mut PlaylistContentView<T>,
    exit: &mut PlaylistContentView<T>,
    undone: Option<EditButtons>,
    left: EditExit<T>,
)
    requires
        call_ensures(PlaylistContentView::<T>::undo, (undo,), undone),
        *old(exit) == *final(undo),
        undone is Some && (undone->0).undo == Some(false),
        call_ensures(PlaylistContentView::<T>::exit_edit_mode, (exit, true), left),
    ensures
        left.save is None,
{
}

/// Saving empties the playlist and then adds the songs one after the other, in the
/// order of the edited list.
pub proof fn saving_replaces_the_playlist(
    exit: &EditExit<usize>,
    uris: &Vec<String>,
    actions: Option<Vec<EditAction>>,
    i: int,
)
    requires
        call_ensures(EditExit::<usize>::save_edits, (exit, uris), actions),
    ensures
        actions is Some <==> exit.save is Some,
        exit.save matches Some(save) ==> {
            &&& actions->0@.len() == save.1@.len() + 1
            &&& actions->0@[0] matches EditAction::Clear { playlist } && playlist@ == save.0@
            &&& 0 <= i < save.1@.len() ==> (actions->0@[i + 1] matches EditAction::Add {
                playlist,
                uri,
            } && playlist@ == save.0@ && uri@ == uris@[save.1@[i] as int]@)
        },
{
    if let Some(save) = exit.save {
        let told = edits(actions->0@);
        let songs = uris_at(uris@, save.1@);
        assert(told.len() == actions->0@.len());
        assert(told[0] == actions->0@[0]@);
        if 0 <= i < save.1@.len() {
            assert(songs[i] == uris@[save.1@[i] as int]@);
            assert(told[i + 1] == actions->0@[i + 1]@);
            assert(told[i + 1] == playlist_edits(save.0@, songs, SaveMode::Replace)[i + 1]);
        }
    }
}

/// A playlist that was read shows its songs. It counts as found if there are any.
pub proof fn a_playlist_shows_its_songs<T: Copy>(
    view: &mut PlaylistContentView<T>,
    playlist: PlaylistNode,
    songs: Vec<T>,
    found: bool,
    shown: &Vec<T>,
)
    requires
        call_ensures(PlaylistContentView::<T>::bind, (view, playlist, songs), found),
        call_ensures(PlaylistContentView::<T>::song_list, (final(view),), shown),
    ensures
        shown@ == songs@,
        found <==> songs@.len() > 0,
{
}

/// Leaving the page ends the edit mode without saving; the songs go if they are to.
pub proof fn leaving_saves_nothing<T: Copy>(
    view: &mut PlaylistContentView<T>,
    clear_contents: bool,
    exit: EditExit<T>,
    before: &Vec<T>,
    after: &Vec<T>,
    editing: &Vec<T>,
    on: bool,
)
    requires
        call_ensures(PlaylistContentView::<T>::song_list, (old(view),), before),
        call_ensures(PlaylistContentView::<T>::unbind, (view, clear_contents), exit),
        call_ensures(PlaylistContentView::<T>::song_list, (final(view),), after),
        call_ensures(PlaylistContentView::<T>::editing_song_list, (final(view),), editing),
        call_ensures(PlaylistContentView::<T>::is_editing, (final(view),), on),
    ensures
        exit.save is None,
        !on,
        editing@.len() == 0,
        clear_contents ==> after@.len() == 0,
        !clear_contents ==> after@ == before@,
{
}

/// With no song selected, or with all of them, the buttons queue the playlist by
/// its name; else they queue the selected songs, in the order of the selection.
/// The play button replaces the queue and plays, the queue button does neither.
pub proof fn the_selection_is_queued<T: Copy>(
    bind: &mut PlaylistContentView<T>,
    select: &mut PlaylistContentView<T>,
    playlist: PlaylistNode,
    songs: Vec<T>,
    found: bool,
    selected: &Vec<u32>,
    n_sel: u32,
    labels: (String, String),
    replaced: QueueRequest<T>,
    appended: QueueRequest<T>,
    can: bool,
    i: int,
)
    requires
        call_ensures(PlaylistContentView::<T>::bind, (bind, playlist, songs), found),
        *old(select) == *final(bind),
        n_sel == selected@.len(),
        call_ensures(PlaylistContentView::<T>::on_selection_changed, (select, n_sel), labels),
        call_ensures(PlaylistContentView::<T>::can_queue, (final(select), selected), can),
        can,
        call_ensures(PlaylistContentView::<T>::replace_queue, (final(select), selected), replaced),
        call_ensures(PlaylistContentView::<T>::append_queue, (final(select), selected), appended),
    ensures
        n_sel == 0 || n_sel == songs@.len() ==> {
            &&& replaced matches QueueRequest::Playlist { name, replace, play } && Some(name)
                == playlist.name && replace && play
            &&& appended matches QueueRequest::Playlist { name, replace, play } && Some(name)
                == playlist.name && !replace && !play
        },
        n_sel != 0 && n_sel != songs@.len() ==> {
            &&& replaced matches QueueRequest::Songs { songs: queued, replace, play }
                && queued@.len() == n_sel && replace && play && (0 <= i < n_sel ==> queued@[i]
                == songs@[selected@[i] as int])
            &&& appended matches QueueRequest::Songs { songs: queued, replace, play }
                && queued@.len() == n_sel && !replace && !play && (0 <= i < n_sel ==> queued@[i]
                == songs@[selected@[i] as int])
        },
{
}

/// A selection can be queued exactly if there is something to queue: every
/// selected song is there, and either some are selected, or the whole playlist
/// goes by its name. Without a playlist nothing is queued.
pub proof fn what_is_there_can_be_queued<T: Copy>(
    bind: &mut PlaylistContentView<T>,
    select: &mut PlaylistContentView<T>,
    playlist: PlaylistNode,
    songs: Vec<T>,
    found: bool,
    selected: &Vec<u32>,
    n_sel: u32,
    labels: (String, String),
    can: bool,
)
    requires
        call_ensures(PlaylistContentView::<T>::bind, (bind, playlist, songs), found),
        *old(select) == *final(bind),
        n_sel == selected@.len(),
        call_ensures(PlaylistContentView::<T>::on_selection_changed, (select, n_sel), labels),
        call_ensures(PlaylistContentView::<T>::can_queue, (final(select), selected), can),
    ensures
        can <==> {
            &&& forall|i: int| 0 <= i < n_sel ==> (#[trigger] selected@[i]) < songs@.len()
            &&& (n_sel == 0 || n_sel == songs@.len()) ==> playlist.name is Some
        },
{
}

/// The buttons say how much they queue.
pub proof fn the_buttons_say_what_they_queue<T: Copy>(
    view: &mut PlaylistContentView<T>,
    n_sel: u32,
    songs: &Vec<T>,
    labels: (String, String),
    play: String,
    queue: String,
)
    requires
        songs@.len() <= u32::MAX,
        call_ensures(PlaylistContentView::<T>::song_list, (old(view),), songs),
        call_ensures(PlaylistContentView::<T>::on_selection_changed, (view, n_sel), labels),
        call_ensures(selection::play_label, (n_sel, songs@.len() as u32), play),
        call_ensures(selection::queue_label, (n_sel, songs@.len() as u32), queue),
    ensures
        labels.0@ == play@,
        labels.1@ == queue@,
{
}

/// A playlist can be renamed to any name but its own and the empty one, and is
/// then renamed from its own name to the new one.
pub proof fn playlists_get_new_names<T: Copy>(
    bind: &mut PlaylistContentView<T>,
    playlist: PlaylistNode,
    songs: Vec<T>,
    found: bool,
    entry: &str,
    sensitive: bool,
    names: Option<(String, String)>,
    deleted: Option<String>,
)
    requires
        playlist.name is Some,
        call_ensures(PlaylistContentView::<T>::bind, (bind, playlist, songs), found),
        call_ensures(PlaylistContentView::<T>::rename_sensitive, (final(bind), entry), sensitive),
        call_ensures(PlaylistContentView::<T>::rename_request, (final(bind), entry), names),
        call_ensures(PlaylistContentView::<T>::delete_request, (final(bind),), deleted),
    ensures
        sensitive <==> entry@.len() > 0 && entry@ != playlist.name->0@,
        names matches Some(n) && n.0@ == playlist.name->0@ && n.1@ == entry@,
        deleted == playlist.name,
{
}

/// Without a playlist there is nothing to rename, to delete or to queue.
pub proof fn without_a_playlist_nothing_happens<T: Copy>(
    view: PlaylistContentView<T>,
    entry: &str,
    sensitive: bool,
    names: Option<(String, String)>,
    deleted: Option<String>,
    selected: &Vec<u32>,
    replaced: QueueRequest<T>,
    songs: &Vec<T>,
    on: bool,
)
    requires
        call_ensures(PlaylistContentView::<T>::new, (), view),
        call_ensures(PlaylistContentView::<T>::rename_sensitive, (&view, entry), sensitive),
        call_ensures(PlaylistContentView::<T>::rename_request, (&view, entry), names),
        call_ensures(PlaylistContentView::<T>::delete_request, (&view,), deleted),
        call_ensures(PlaylistContentView::<T>::replace_queue, (&view, selected), replaced),
        call_ensures(PlaylistContentView::<T>::song_list, (&view,), songs),
        call_ensures(PlaylistContentView::<T>::is_editing, (&view,), on),
    ensures
        !sensitive,
        names is None,
        deleted is None,
        replaced is Nothing,
        songs@.len() == 0,
        !on,
{
}

/// The user is told of a failed rename, unless it is the connection that failed;
/// where the name is taken, the message holds it.
pub proof fn failed_renames_are_told(reply: &RenameReply, name: &str, message: Option<String>)
    requires
        call_ensures(rename_message, (reply, name), message),
    ensures
        message is None <==> *reply is Done || *reply is Connection,
        *reply is Exist ==> message->0@ == "There is already another playlist named \""@ + name@
            + "\". Please pick another name."@,
        *reply is NoExist ==> message->0@
            == "Internal error: tried to rename a nonexistent playlist"@,
        *reply matches RenameReply::OtherCode(code) ==> message->0@ == "Internal error ("@ + code@
            + ")"@,
        *reply matches RenameReply::Client(error) ==> message->0@ == error@,
{
}

/// A song that is dropped on the upper half of a row comes to stand right before
/// the song of that row, one on the lower half right behind it.
pub proof fn a_dropped_song_lands_beside_the_row<T: Copy>(
    view: &mut PlaylistContentView<T>,
    from: u32,
    row: u32,
    lower_half: bool,
    to: u32,
    buttons: EditButtons,
    before: &Vec<T>,
    after: &Vec<T>,
)
    requires
        from < before@.len(),
        row < before@.len(),
        row < u32::MAX,
        from != row,
        call_ensures(drop_position, (row, lower_half), to),
        call_ensures(PlaylistContentView::<T>::editing_song_list, (old(view),), before),
        call_ensures(PlaylistContentView::<T>::move_pos, (view, from, to), buttons),
        call_ensures(PlaylistContentView::<T>::editing_song_list, (final(view),), after),
    ensures
        ({
            let now = if from < row {
                if lower_half { row - 1 } else { row as int }
            } else {
                if lower_half { row as int } else { row + 1 }
            };
            &&& after@[now] == before@[row as int]
            &&& lower_half ==> after@[now + 1] == before@[from as int]
            &&& !lower_half ==> after@[now - 1] == before@[from as int]
        }),
{
}

/// While a song is held over a row, the row makes room on one side; once the song
/// has left it, on none. A row that is dragged itself stays as it is.
pub proof fn rows_make_room(
    shift: RowShift,
    lower_half: bool,
    over: RowShift,
    held: RowShift,
    left: RowShift,
    held_left: RowShift,
)
    requires
        call_ensures(shift_on_motion, (shift, false, lower_half), over),
        call_ensures(shift_on_motion, (shift, true, lower_half), held),
        call_ensures(shift_on_leave, (shift, false), left),
        call_ensures(shift_on_leave, (shift, true), held_left),
    ensures
        over.up == lower_half,
        over.down == !lower_half,
        !left.up && !left.down,
        held == shift,
        held_left == shift,
{
}

/// Covers are shown where one is found, cleared where there is none, and kept
/// where nothing is known.
pub proof fn covers_follow_the_reply(found: CoverAction, missing: CoverAction, failed: CoverAction)
    requires
        call_ensures(cover_action, (CoverReply::Found,), found),
        call_ensures(cover_action, (CoverReply::Missing,), missing),
        call_ensures(cover_action, (CoverReply::Failed,), failed),
    ensures
        found == CoverAction::Show,
        missing == CoverAction::Clear,
        failed == CoverAction::Keep,
{
}

/// Once it is armed, the guard puts the position back each time the list jumps to
/// the top, until the list has been elsewhere twice.
pub proof fn the_guard_holds_until_two_moves(
    armed: &mut ScrollGuard,
    first: &mut ScrollGuard,
    second: &mut ScrollGuard,
    third: &mut ScrollGuard,
    at_top: bool,
    restored: bool,
    moved: bool,
    restored_again: bool,
)
    requires
        call_ensures(ScrollGuard::arm, (armed,), ()),
        *old(first) == *final(armed),
        call_ensures(ScrollGuard::on_scrolled, (first, at_top), restored),
        *old(second) == *final(first),
        call_ensures(ScrollGuard::on_scrolled, (second, false), moved),
        *old(third) == *final(second),
        call_ensures(ScrollGuard::on_scrolled, (third, true), restored_again),
    ensures
        restored == at_top,
        !moved,
        restored_again == at_top,
{
}

/// Two changes are undone one by one, the last one first, until the list is as it
/// was at the start; then there is nothing left to undo.
pub proof fn changes_are_undone_one_by_one<T: Copy>(
    enter: &mut PlaylistContentView<T>,
    first: &mut PlaylistContentView<T>,
    second: &mut PlaylistContentView<T>,
    undo: &mut PlaylistContentView<T>,
    undo_again: &mut PlaylistContentView<T>,
    undo_nothing: &mut PlaylistContentView<T>,
    from: u32,
    to: u32,
    idx: u32,
    begun: EditButtons,
    moved_buttons: EditButtons,
    removed_buttons: EditButtons,
    undone: Option<EditButtons>,
    undone_again: Option<EditButtons>,
    nothing: Option<EditButtons>,
    songs: &Vec<T>,
    between: &Vec<T>,
    back: &Vec<T>,
    start: &Vec<T>,
)
    requires
        old(enter).wf(),
        old(enter).steps().len() == 0,
        call_ensures(PlaylistContentView::<T>::song_list, (old(enter),), songs),
        call_ensures(PlaylistContentView::<T>::enter_edit_mode, (enter,), begun),
        from < songs@.len(),
        to <= songs@.len(),
        idx < songs@.len(),
        *old(first) == *final(enter),
        call_ensures(PlaylistContentView::<T>::move_pos, (first, from, to), moved_buttons),
        call_ensures(PlaylistContentView::<T>::editing_song_list, (final(first),), between),
        *old(second) == *final(first),
        call_ensures(PlaylistContentView::<T>::remove, (second, idx), removed_buttons),
        *old(undo) == *final(second),
        call_ensures(PlaylistContentView::<T>::undo, (undo,), undone),
        call_ensures(PlaylistContentView::<T>::editing_song_list, (final(undo),), back),
        *old(undo_again) == *final(undo),
        call_ensures(PlaylistContentView::<T>::undo, (undo_again,), undone_again),
        call_ensures(PlaylistContentView::<T>::editing_song_list, (final(undo_again),), start),
        *old(undo_nothing) == *final(undo_again),
        call_ensures(PlaylistContentView::<T>::undo, (undo_nothing,), nothing),
    ensures
        back@ == between@,
        start@ == songs@,
        undone is Some && (undone->0).undo == Some(true),
        undone_again is Some && (undone_again->0).undo == Some(false)
            && (undone_again->0).apply == Some(false),
        nothing is None,
{
    let (a, b) = (final(first).steps()[0], final(second).steps()[1]);
    assert(final(second).steps()[0] == a);
    assert(a.records(songs@));
    assert(b.records(between@));
    undoing_reverts(a, songs@);
    undoing_reverts(b, between@);
}

/// A change that is made after an undo takes the place of what was undone: there is
/// nothing to redo any more.
pub proof fn a_change_forgets_what_was_undone<T: Copy>(
    edit: &mut PlaylistContentView<T>,
    redo: &mut PlaylistContentView<T>,
    idx: u32,
    to: u32,
    buttons: EditButtons,
    redone: Option<EditButtons>,
    before: &Vec<T>,
    after: &Vec<T>,
)
    requires
        old(edit).wf(),
        ({
            ||| call_ensures(PlaylistContentView::<T>::move_pos, (edit, idx, to), buttons)
            ||| call_ensures(PlaylistContentView::<T>::remove, (edit, idx), buttons)
        }),
        *old(redo) == *final(edit),
        call_ensures(PlaylistContentView::<T>::redo, (redo,), redone),
        call_ensures(PlaylistContentView::<T>::editing_song_list, (old(redo),), before),
        call_ensures(PlaylistContentView::<T>::editing_song_list, (final(redo),), after),
    ensures
        buttons.redo == Some(false),
        redone is None,
        after@ == before@,
{
}

/// What was just changed can be undone, and what was just undone can be redone. The
/// edit mode can be left without saving at any time, and with saving if there is a
/// playlist to save to.
pub proof fn what_was_changed_can_be_undone<T: Copy>(
    edit: &mut PlaylistContentView<T>,
    undo: &mut PlaylistContentView<T>,
    idx: u32,
    to: u32,
    buttons: EditButtons,
    undone: Option<EditButtons>,
    can_undo: bool,
    can_redo: bool,
    can_cancel: bool,
    can_save: bool,
    there: bool,
    before: &Vec<T>,
)
    requires
        old(edit).wf(),
        call_ensures(PlaylistContentView::<T>::editing_song_list, (old(edit),), before),
        idx < before@.len(),
        to <= before@.len(),
        call_ensures(PlaylistContentView::<T>::has_song, (old(edit), to), there),
        ({
            ||| call_ensures(PlaylistContentView::<T>::move_pos, (edit, idx, to), buttons)
            ||| call_ensures(PlaylistContentView::<T>::remove, (edit, idx), buttons)
        }),
        call_ensures(PlaylistContentView::<T>::can_undo, (final(edit),), can_undo),
        call_ensures(PlaylistContentView::<T>::can_exit, (final(edit), false), can_cancel),
        call_ensures(PlaylistContentView::<T>::can_exit, (final(edit), true), can_save),
        *old(undo) == *final(edit),
        call_ensures(PlaylistContentView::<T>::undo, (undo,), undone),
        call_ensures(PlaylistContentView::<T>::can_redo, (final(undo),), can_redo),
    ensures
        can_undo,
        can_redo,
        can_cancel,
        can_save <==> old(edit).bound() is Some,
        there <==> to < before@.len(),
{
    let step = final(edit).steps().last();
    assert(step.records(before@));
    undoing_reverts(step, before@);
}

/// A step that is put into the history is in effect, and drops the steps that were
/// undone before it.
pub proof fn new_steps_are_in_effect<T: Copy>(
    view: &mut PlaylistContentView<T>,
    redo: &mut PlaylistContentView<T>,
    step: HistoryStep<T>,
    buttons: EditButtons,
    redone: Option<EditButtons>,
)
    requires
        old(view).wf(),
        call_ensures(PlaylistContentView::<T>::push_history, (view, step), buttons),
        *old(redo) == *final(view),
        call_ensures(PlaylistContentView::<T>::redo, (redo,), redone),
    ensures
        buttons == (EditButtons { undo: Some(true), redo: Some(false), apply: Some(true) }),
        redone is None,
        final(view).working() == old(view).working(),
        final(view).steps().last() == step,
{
}

/// Covers can be changed for playlists with a title, if they can be kept; the info
/// box folds up while it is shown.
pub proof fn titled_playlists_have_covers(
    title: &str,
    has_cache: bool,
    editable: bool,
    shown: &'static str,
    hidden: &'static str,
)
    requires
        call_ensures(cover_editable, (title, has_cache), editable),
        call_ensures(infobox_icon, (true,), shown),
        call_ensures(infobox_icon, (false,), hidden),
    ensures
        editable <==> title@.len() > 0 && has_cache,
        shown@ == "up-symbolic"@,
        hidden@ == "down-symbolic"@,
{
}

/// Whatever is done to the list being edited, the playlist itself, the edit mode and
/// what queue actions cover stay as they are until the edit mode is left.
pub proof fn editing_leaves_the_playlist_alone<T: Copy>(
    view: &mut PlaylistContentView<T>,
    a: u32,
    b: u32,
    step: HistoryStep<T>,
    buttons: EditButtons,
    moved: Option<EditButtons>,
    songs: &Vec<T>,
    songs_after: &Vec<T>,
    editing: bool,
    editing_after: bool,
)
    requires
        old(view).wf(),
        call_ensures(PlaylistContentView::<T>::song_list, (old(view),), songs),
        call_ensures(PlaylistContentView::<T>::is_editing, (old(view),), editing),
        ({
            ||| call_ensures(PlaylistContentView::<T>::undo, (view,), moved)
            ||| call_ensures(PlaylistContentView::<T>::redo, (view,), moved)
            ||| call_ensures(PlaylistContentView::<T>::push_history, (view, step), buttons)
            ||| call_ensures(PlaylistContentView::<T>::shift_backward, (view, a), moved)
            ||| call_ensures(PlaylistContentView::<T>::shift_forward, (view, a), moved)
            ||| call_ensures(PlaylistContentView::<T>::move_pos, (view, a, b), buttons)
            ||| call_ensures(PlaylistContentView::<T>::remove, (view, a), buttons)
        }),
        call_ensures(PlaylistContentView::<T>::song_list, (final(view),), songs_after),
        call_ensures(PlaylistContentView::<T>::is_editing, (final(view),), editing_after),
    ensures
        songs_after@ == songs@,
        editing_after == editing,
        final(view).bound() == old(view).bound(),
        final(view).covers_everything() == old(view).covers_everything(),
{
}

} // verus!
