//! The bar that shows and sets the position in a song.
use vstd::prelude::*;

verus! {

/// A position brought into a song: not before its beginning, and not behind its
/// end. A song without a duration has its beginning only.
pub open spec fn within(position: int, duration: int) -> int {
    if position < 0 || duration < 0 {
        0
    } else if position > duration {
        duration
    } else {
        position
    }
}

/// The state of the bar. Positions and durations are counted from the beginning
/// of the song, which is 0; only their order counts, so that any number stands for
/// a time if a later time has a larger one.
#[derive(Clone, Copy, Debug, PartialEq, Eq, Structural)]
pub struct Seekbar {
    pub position: i64,
    pub duration: i64,
    /// Where the drag began, from which it is measured.
    pub old_pos: i64,
    /// The user holds the bar.
    pub seekbar_clicked: bool,
}

impl Seekbar {
    /// A bar without a song.
    pub fn new() -> (r: Seekbar)
        ensures
            r == (Seekbar { position: 0, duration: 0, old_pos: 0, seekbar_clicked: false }),
    {
        Seekbar { position: 0, duration: 0, old_pos: 0, seekbar_clicked: false }
    }

    /// The position that is shown.
    pub fn position(&self) -> (r: i64)
        ensures
            r == self.position,
    {
        self.position
    }

    fn bring_within(&self, position: i64) -> (r: i64)
        ensures
            r == within(position as int, self.duration as int),
    {
        if position < 0 || self.duration < 0 {
            0
        } else if position > self.duration {
            self.duration
        } else {
            position
        }
    }

    /// The player has come to a position, which is brought into the song. Will have
    /// no effect while the user holds the bar. Returns whether the bar is to be
    /// drawn again.
    pub fn set_position(&mut self, new: i64) -> (r: bool)
        ensures
            r == !old(self).seekbar_clicked,
            *final(self) == (if old(self).seekbar_clicked {
                *old(self)
            } else {
                Seekbar { position: within(new as int, old(self).duration as int) as i64, ..*old(self) }
            }),
    {
        if self.seekbar_clicked {
            false
        } else {
            self.position = self.bring_within(new);
            true
        }
    }

    /// The duration that is shown.
    pub fn duration(&self) -> (r: i64)
        ensures
            r == self.duration,
    {
        self.duration
    }

    /// The player has come to a song of another duration. The position stays until
    /// the next one is set.
    pub fn set_duration(&mut self, new: i64)
        ensures
            *final(self) == (Seekbar { duration: new, ..*old(self) }),
    {
        self.duration = new;
    }

    /// The user takes hold of the bar, with the pointer at a position.
    pub fn drag_begin(&mut self, at: i64)
        ensures
            ({
                let position = within(at as int, old(self).duration as int) as i64;
                *final(self) == (Seekbar {
                    position,
                    old_pos: position,
                    seekbar_clicked: true,
                    ..*old(self)
                })
            }),
    {
        let position: i64 = self.bring_within(at);
        self.seekbar_clicked = true;
        self.position = position;
        self.old_pos = position;
    }

    /// The user has moved the pointer to a position.
    pub fn drag_update(&mut self, at: i64)
        ensures
            *final(self) == (Seekbar {
                position: within(at as int, old(self).duration as int) as i64,
                ..*old(self)
            }),
    {
        self.position = self.bring_within(at);
    }

    /// The user lets go, with the pointer at a position. Returns where to seek.
    pub fn drag_end(&mut self, at: i64) -> (r: Option<i64>)
        ensures
            old(self).seekbar_clicked ==> ({
                let position = within(at as int, old(self).duration as int) as i64;
                r == Some(position) && *final(self) == (Seekbar {
                    position,
                    seekbar_clicked: false,
                    ..*old(self)
                })
            }),
            !old(self).seekbar_clicked ==> r is None && *final(self) == *old(self),
    {
        if self.seekbar_clicked {
            let position: i64 = self.bring_within(at);
            self.seekbar_clicked = false;
            self.position = position;
            Some(position)
        } else {
            None
        }
    }
}

/// A position that was brought into a song lies in it, one that lies in it is
/// kept, and of two positions the later one does not come to lie earlier.
pub proof fn positions_lie_in_the_song(a: int, b: int, duration: int)
    ensures
        0 <= within(a, duration),
        0 <= duration ==> within(a, duration) <= duration,
        0 <= a <= duration ==> within(a, duration) == a,
        a <= b ==> within(a, duration) <= within(b, duration),
{
}

/// The text on a duration, which is written out if there is one.
pub fn duration_label(positive: bool, formatted: &str) -> (r: String)
    ensures
        r@ == (if positive {
            formatted@
        } else {
            "--:--"@
        }),
{
    if positive {
        formatted.to_owned()
    } else {
        "--:--".to_owned()
    }
}

/// The position that the player reports is shown as it is if it lies in the song,
/// and at the nearest end of the song else. While the bar is held it does not move.
pub proof fn the_bar_follows_the_player(
    bar: &mut Seekbar,
    new: i64,
    drawn: bool,
    shown: i64,
    duration: i64,
)
    requires
        call_ensures(Seekbar::set_position, (bar, new), drawn),
        call_ensures(Seekbar::position, (final(bar),), shown),
        call_ensures(Seekbar::duration, (final(bar),), duration),
        old(bar).duration >= 0,
    ensures
        old(bar).seekbar_clicked ==> !drawn && *final(bar) == *old(bar),
        !old(bar).seekbar_clicked ==> {
            &&& drawn
            &&& 0 <= new <= old(bar).duration ==> shown == new
            &&& new < 0 ==> shown == 0
            &&& new > old(bar).duration ==> shown == old(bar).duration
        },
        duration == old(bar).duration,
{
}

/// A drag moves the bar with the pointer, within the song, and keeps the player from
/// moving it; letting go seeks to where the pointer is, and frees the bar.
pub proof fn a_drag_ends_where_the_pointer_is(
    begin: &mut Seekbar,
    held: &mut Seekbar,
    update: &mut Seekbar,
    end: &mut Seekbar,
    freed: &mut Seekbar,
    from: i64,
    reported: i64,
    through: i64,
    to: i64,
    drawn: bool,
    target: Option<i64>,
    drawn_again: bool,
)
    requires
        0 <= from <= old(begin).duration,
        0 <= through <= old(begin).duration,
        0 <= to <= old(begin).duration,
        0 <= reported <= old(begin).duration,
        call_ensures(Seekbar::drag_begin, (begin, from), ()),
        *old(held) == *final(begin),
        call_ensures(Seekbar::set_position, (held, reported), drawn),
        *old(update) == *final(held),
        call_ensures(Seekbar::drag_update, (update, through), ()),
        *old(end) == *final(update),
        call_ensures(Seekbar::drag_end, (end, to), target),
        *old(freed) == *final(end),
        call_ensures(Seekbar::set_position, (freed, reported), drawn_again),
    ensures
        final(begin).position == from && final(begin).old_pos == from,
        !drawn && final(held).position == from,
        final(update).position == through && final(update).old_pos == from,
        target == Some(to),
        final(end).position == to,
        drawn_again && final(freed).position == reported,
{
}

/// A drag past an end of the song ends there, and letting go without having taken
/// hold seeks nowhere.
pub proof fn a_drag_stays_in_the_song(
    end: &mut Seekbar,
    idle: &mut Seekbar,
    to: i64,
    target: Option<i64>,
    nowhere: Option<i64>,
)
    requires
        old(end).seekbar_clicked,
        old(end).duration >= 0,
        call_ensures(Seekbar::drag_end, (end, to), target),
        !old(idle).seekbar_clicked,
        call_ensures(Seekbar::drag_end, (idle, to), nowhere),
    ensures
        to > old(end).duration ==> target == Some(old(end).duration),
        to < 0 ==> target == Some(0i64),
        nowhere is None,
        *final(idle) == *old(idle),
{
}

/// A new duration is shown, and does not move the position; without one there are
/// dashes.
pub proof fn durations_are_shown(
    bar: &mut Seekbar,
    new: i64,
    shown: i64,
    position: i64,
    formatted: &str,
    known: String,
    unknown: String,
    fresh: Seekbar,
)
    requires
        call_ensures(Seekbar::set_duration, (bar, new), ()),
        call_ensures(Seekbar::duration, (final(bar),), shown),
        call_ensures(Seekbar::position, (final(bar),), position),
        call_ensures(duration_label, (true, formatted), known),
        call_ensures(duration_label, (false, formatted), unknown),
        call_ensures(Seekbar::new, (), fresh),
    ensures
        shown == new,
        position == old(bar).position,
        final(bar).seekbar_clicked == old(bar).seekbar_clicked,
        known@ == formatted@,
        unknown@ == "--:--"@,
        fresh.position == 0 && fresh.duration == 0 && !fresh.seekbar_clicked,
{
}

} // verus!
