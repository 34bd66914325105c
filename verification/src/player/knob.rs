//! The volume knob, which is turned, scrolled and clicked.
use vstd::prelude::*;

verus! {

/// Past which end of the scale the pointer has gone. Zero and full volume meet
/// at the bottom of the knob.
#[derive(Clone, Copy, Debug, PartialEq, Eq, Structural)]
pub enum OverflowSide {
    Normal,
    /// Clockwise, past full volume.
    CW,
    /// Counter-clockwise, past zero.
    CCW,
}

impl Default for OverflowSide {
    fn default() -> (r: OverflowSide)
        ensures
            r == OverflowSide::Normal,
    {
        OverflowSide::Normal
    }
}

/// On which side of the knob's centre the pointer is. On the vertical axis it is
/// on neither.
#[derive(Clone, Copy, Debug, PartialEq, Eq, Structural)]
pub struct PointerSide {
    pub below: bool,
    pub left: bool,
    pub right: bool,
}

impl PointerSide {
    /// The pointer is on one side at most.
    pub open spec fn wf(self) -> bool {
        !(self.left && self.right)
    }

    /// In the first quarter of the scale.
    pub open spec fn near_zero(self) -> bool {
        self.below && self.left
    }

    /// In the last quarter of the scale.
    pub open spec fn near_full(self) -> bool {
        self.below && self.right
    }
}

/// The volume that a turn of the knob sets.
#[derive(Clone, Copy, Debug, PartialEq, Eq, Structural)]
pub enum KnobTurn {
    /// That of the pointer's angle.
    ToPointer,
    ToZero,
    ToFull,
}

/// Where the pointer is after a move, and the volume that it sets.
pub open spec fn turned(side: OverflowSide, prev: PointerSide, curr: PointerSide) -> (
    OverflowSide,
    KnobTurn,
) {
    match side {
        OverflowSide::Normal => if prev.near_zero() && curr.right {
            (OverflowSide::CCW, KnobTurn::ToZero)
        } else if prev.near_full() && curr.left {
            (OverflowSide::CW, KnobTurn::ToFull)
        } else {
            (OverflowSide::Normal, KnobTurn::ToPointer)
        },
        OverflowSide::CCW => if prev.near_full() && curr.left {
            (OverflowSide::Normal, KnobTurn::ToPointer)
        } else {
            (OverflowSide::CCW, KnobTurn::ToZero)
        },
        OverflowSide::CW => if prev.near_zero() && curr.right {
            (OverflowSide::Normal, KnobTurn::ToPointer)
        } else {
            (OverflowSide::CW, KnobTurn::ToFull)
        },
    }
}

/// What a change of the button's state asks for.
#[derive(Clone, Copy, Debug, PartialEq, Eq, Structural)]
pub enum ToggleAction {
    /// The user has clicked: mute, or stop muting.
    Mute(bool),
    /// The click was the end of a drag: set the button's state back.
    SetActive(bool),
}

/// How loud it is, as far as the scale in decibels needs to know.
#[derive(Clone, Copy, Debug, PartialEq, Eq, Structural)]
pub enum Loudness {
    Silent,
    Between,
    Full,
}

/// The state of the knob between two events.
#[derive(Clone, Copy, Debug, PartialEq, Eq, Structural)]
pub struct VolumeKnob {
    pub use_dbfs: bool,
    pub prev_drag_pos: PointerSide,
    pub overflow_side: OverflowSide,
    /// Tells a click, which mutes, from the end of a drag.
    pub was_dragging: bool,
}

impl VolumeKnob {
    /// A knob that nobody has touched.
    pub fn new() -> (r: VolumeKnob)
        ensures
            !r.use_dbfs,
            r.prev_drag_pos == (PointerSide { below: false, left: false, right: false }),
            r.overflow_side == OverflowSide::Normal,
            !r.was_dragging,
    {
        VolumeKnob {
            use_dbfs: false,
            prev_drag_pos: PointerSide { below: false, left: false, right: false },
            overflow_side: OverflowSide::Normal,
            was_dragging: false,
        }
    }

    /// Whether the volume is shown in decibels.
    pub fn use_dbfs(&self) -> (r: bool)
        ensures
            r == self.use_dbfs,
    {
        self.use_dbfs
    }

    /// Says whether the volume is shown in decibels. Returns whether that is news,
    /// and the readout is to be drawn again.
    pub fn set_use_dbfs(&mut self, new: bool) -> (r: bool)
        ensures
            *final(self) == (VolumeKnob { use_dbfs: new, ..*old(self) }),
            r == (old(self).use_dbfs != new),
    {
        let changed: bool = self.use_dbfs != new;
        self.use_dbfs = new;
        changed
    }

    /// The user takes hold of the knob.
    pub fn drag_begin(&mut self, at: PointerSide)
        ensures
            *final(self) == (VolumeKnob {
                prev_drag_pos: at,
                overflow_side: OverflowSide::Normal,
                ..*old(self)
            }),
    {
        self.prev_drag_pos = at;
        self.overflow_side = OverflowSide::Normal;
    }

    /// The pointer has moved. There is a volume to set if it has gone `far` enough
    /// to tell a drag from a click.
    pub fn drag_update(&mut self, far: bool, at: PointerSide) -> (r: Option<KnobTurn>)
        ensures
            !far ==> r is None && *final(self) == *old(self),
            far ==> ({
                let (side, turn) = turned(old(self).overflow_side, old(self).prev_drag_pos, at);
                r == Some(turn) && *final(self) == (VolumeKnob {
                    prev_drag_pos: at,
                    overflow_side: side,
                    was_dragging: true,
                    ..*old(self)
                })
            }),
    {
        if !far {
            return None;
        }
        self.was_dragging = true;
        let prev: PointerSide = self.prev_drag_pos;
        let up_past_zero: bool = prev.below && prev.left && at.right;
        let down_past_full: bool = prev.below && prev.right && at.left;
        let turn: KnobTurn = match self.overflow_side {
            OverflowSide::Normal => if up_past_zero {
                self.overflow_side = OverflowSide::CCW;
                KnobTurn::ToZero
            } else if down_past_full {
                self.overflow_side = OverflowSide::CW;
                KnobTurn::ToFull
            } else {
                KnobTurn::ToPointer
            },
            OverflowSide::CCW => if down_past_full {
                self.overflow_side = OverflowSide::Normal;
                KnobTurn::ToPointer
            } else {
                KnobTurn::ToZero
            },
            OverflowSide::CW => if up_past_zero {
                self.overflow_side = OverflowSide::Normal;
                KnobTurn::ToPointer
            } else {
                KnobTurn::ToFull
            },
        };
        self.prev_drag_pos = at;
        Some(turn)
    }

    /// The button was switched to `active`, by a click or at the end of a drag.
    pub fn on_active_changed(&mut self, active: bool) -> (r: ToggleAction)
        ensures
            *final(self) == (VolumeKnob { was_dragging: false, ..*old(self) }),
            r == (if old(self).was_dragging {
                ToggleAction::SetActive(!active)
            } else {
                ToggleAction::Mute(active)
            }),
    {
        if self.was_dragging {
            self.was_dragging = false;
            ToggleAction::SetActive(!active)
        } else {
            ToggleAction::Mute(active)
        }
    }

    /// The text on the knob. `number` is the volume as a number, in decibels where
    /// those are used.
    pub fn update_readout(&self, muted: bool, loudness: Loudness, number: &str) -> (r: String)
        ensures
            r@ == (if muted {
                "—"@
            } else if !self.use_dbfs || loudness is Between {
                number@
            } else if loudness is Full {
                "0"@
            } else {
                "-∞"@
            }),
    {
        if muted {
            "—".to_owned()
        } else if !self.use_dbfs {
            number.to_owned()
        } else {
            match loudness {
                Loudness::Between => number.to_owned(),
                Loudness::Full => "0".to_owned(),
                Loudness::Silent => "-∞".to_owned(),
            }
        }
    }
}

/// The volume to take over from outside, if it differs from the knob's own, which
/// is finer, by more than rounding.
pub fn sync_value(rounded: i8, new_rounded: i8) -> (r: Option<i8>)
    ensures
        r == (if rounded != new_rounded {
            Some(new_rounded)
        } else {
            None
        }),
{
    if rounded != new_rounded {
        Some(new_rounded)
    } else {
        None
    }
}

/// From the first quarter of the scale the volume does not jump to full, nor from
/// the last quarter to zero, however far the pointer goes past the bottom.
pub proof fn the_volume_does_not_jump_at_the_bottom(prev: PointerSide, curr: PointerSide)
    requires
        prev.wf(),
        curr.wf(),
    ensures
        prev.near_zero() && curr.right ==> turned(OverflowSide::Normal, prev, curr).1 is ToZero,
        prev.near_full() && curr.left ==> turned(OverflowSide::Normal, prev, curr).1 is ToFull,
{
}

/// Past an end of the scale the volume stays there until the pointer comes back
/// the way it went, which is by the bottom.
pub proof fn past_the_end_the_volume_stays(
    side: OverflowSide,
    prev: PointerSide,
    curr: PointerSide,
)
    requires
        side !is Normal,
    ensures
        turned(side, prev, curr).0 == side || turned(side, prev, curr).0 is Normal,
        turned(side, prev, curr).0 is CCW ==> turned(side, prev, curr).1 is ToZero,
        turned(side, prev, curr).0 is CW ==> turned(side, prev, curr).1 is ToFull,
        turned(side, prev, curr).0 is Normal ==> prev.below && (if side is CCW {
            prev.right && curr.left
        } else {
            prev.left && curr.right
        }),
{
}

/// Going past the bottom and straight back, the pointer sets the volume again.
pub proof fn coming_back_frees_the_knob(prev: PointerSide, past: PointerSide, back: PointerSide)
    requires
        past.below,
        prev.near_zero() && past.right && back.left || prev.near_full() && past.left && back.right,
        prev.wf(),
        past.wf(),
        back.wf(),
    ensures
        turned(turned(OverflowSide::Normal, prev, past).0, past, back) == (
            OverflowSide::Normal,
            KnobTurn::ToPointer,
        ),
{
}

/// A move that is too short to be a drag sets nothing. A drag sets the volume of the
/// pointer, unless it goes past the bottom, where zero and full volume meet: then it
/// stays at the end that it came from.
pub proof fn a_drag_sets_the_volume_of_the_pointer(
    begin: &mut VolumeKnob,
    touch: &mut VolumeKnob,
    drag: &mut VolumeKnob,
    from: PointerSide,
    to: PointerSide,
    nothing: Option<KnobTurn>,
    turn: Option<KnobTurn>,
)
    requires
        from.wf(),
        to.wf(),
        call_ensures(VolumeKnob::drag_begin, (begin, from), ()),
        *old(touch) == *final(begin),
        call_ensures(VolumeKnob::drag_update, (touch, false, to), nothing),
        *old(drag) == *final(begin),
        call_ensures(VolumeKnob::drag_update, (drag, true, to), turn),
    ensures
        nothing is None && *final(touch) == *old(touch),
        turn is Some,
        from.below && from.left && to.right ==> turn == Some(KnobTurn::ToZero),
        from.below && from.right && to.left ==> turn == Some(KnobTurn::ToFull),
        !from.below || from.left && !to.right || from.right && !to.left || !from.left && !from.right
            ==> turn == Some(KnobTurn::ToPointer),
{
}

/// Having gone past the bottom, the volume stays at that end wherever the pointer
/// goes, until it comes back through the bottom from the other side.
pub proof fn past_the_bottom_the_volume_holds(
    cross: &mut VolumeKnob,
    roam: &mut VolumeKnob,
    back: &mut VolumeKnob,
    beyond: PointerSide,
    bottom: PointerSide,
    home: PointerSide,
    left_out: bool,
    crossed: Option<KnobTurn>,
    roaming: Option<KnobTurn>,
    returned: Option<KnobTurn>,
)
    requires
        beyond.wf() && bottom.wf() && home.wf(),
        old(cross).overflow_side == OverflowSide::Normal,
        old(cross).prev_drag_pos.below,
        old(cross).prev_drag_pos.wf(),
        left_out ==> old(cross).prev_drag_pos.left && beyond.right,
        !left_out ==> old(cross).prev_drag_pos.right && beyond.left,
        call_ensures(VolumeKnob::drag_update, (cross, true, beyond), crossed),
        *old(roam) == *final(cross),
        left_out ==> bottom.right,
        !left_out ==> bottom.left,
        call_ensures(VolumeKnob::drag_update, (roam, true, bottom), roaming),
        *old(back) == *final(roam),
        bottom.below,
        left_out ==> home.left,
        !left_out ==> home.right,
        call_ensures(VolumeKnob::drag_update, (back, true, home), returned),
    ensures
        crossed == Some(if left_out { KnobTurn::ToZero } else { KnobTurn::ToFull }),
        roaming == crossed,
        returned == Some(KnobTurn::ToPointer),
{
}

/// A click mutes, or stops muting; the end of a drag does not, and puts the button
/// back as it was. After it, a click is a click again.
pub proof fn a_click_mutes_and_a_drag_does_not(
    click: &mut VolumeKnob,
    drag: &mut VolumeKnob,
    end: &mut VolumeKnob,
    next: &mut VolumeKnob,
    at: PointerSide,
    active: bool,
    turn: Option<KnobTurn>,
    clicked: ToggleAction,
    dragged: ToggleAction,
    then: ToggleAction,
)
    requires
        !old(click).was_dragging,
        call_ensures(VolumeKnob::on_active_changed, (click, active), clicked),
        call_ensures(VolumeKnob::drag_update, (drag, true, at), turn),
        *old(end) == *final(drag),
        call_ensures(VolumeKnob::on_active_changed, (end, active), dragged),
        *old(next) == *final(end),
        call_ensures(VolumeKnob::on_active_changed, (next, active), then),
    ensures
        clicked == ToggleAction::Mute(active),
        dragged == ToggleAction::SetActive(!active),
        then == ToggleAction::Mute(active),
{
}

/// The knob reads a dash while it is muted, and its number else; in decibels full
/// volume reads zero and silence minus infinity. It tells when it is to read anew.
pub proof fn the_knob_reads_its_volume(
    knob: &mut VolumeKnob,
    decibels: bool,
    news: bool,
    number: &str,
    loudness: Loudness,
    muted: String,
    read: String,
    now: bool,
)
    requires
        call_ensures(VolumeKnob::set_use_dbfs, (knob, decibels), news),
        call_ensures(VolumeKnob::use_dbfs, (final(knob),), now),
        call_ensures(VolumeKnob::update_readout, (final(knob), true, loudness, number), muted),
        call_ensures(VolumeKnob::update_readout, (final(knob), false, loudness, number), read),
    ensures
        now == decibels,
        news <==> old(knob).use_dbfs != decibels,
        muted@ == "—"@,
        !decibels ==> read@ == number@,
        decibels && loudness == Loudness::Between ==> read@ == number@,
        decibels && loudness == Loudness::Full ==> read@ == "0"@,
        decibels && loudness == Loudness::Silent ==> read@ == "-∞"@,
{
}

/// A volume from outside is taken over exactly if it differs by more than rounding.
pub proof fn other_volumes_are_taken_over(rounded: i8, new: i8, taken: Option<i8>, fresh: VolumeKnob)
    requires
        call_ensures(sync_value, (rounded, new), taken),
        call_ensures(VolumeKnob::new, (), fresh),
    ensures
        taken is None <==> rounded == new,
        taken matches Some(volume) ==> volume == new,
        !fresh.use_dbfs && !fresh.was_dragging && fresh.overflow_side == OverflowSide::Normal,
{
}

/// Past an end of the scale, no move sets anything but that end, except the one that
/// comes back through the bottom: from below on the far side to the side that the
/// drag came from.
pub proof fn only_the_way_back_frees_the_knob(
    drag: &mut VolumeKnob,
    at: PointerSide,
    turn: Option<KnobTurn>,
)
    requires
        at.wf(),
        old(drag).prev_drag_pos.wf(),
        old(drag).overflow_side != OverflowSide::Normal,
        call_ensures(VolumeKnob::drag_update, (drag, true, at), turn),
    ensures
        old(drag).overflow_side == OverflowSide::CCW ==> {
            let home = old(drag).prev_drag_pos.below && old(drag).prev_drag_pos.right && at.left;
            &&& home ==> turn == Some(KnobTurn::ToPointer)
            &&& !home ==> turn == Some(KnobTurn::ToZero) && final(drag).overflow_side
                == OverflowSide::CCW
        },
        old(drag).overflow_side == OverflowSide::CW ==> {
            let home = old(drag).prev_drag_pos.below && old(drag).prev_drag_pos.left && at.right;
            &&& home ==> turn == Some(KnobTurn::ToPointer)
            &&& !home ==> turn == Some(KnobTurn::ToFull) && final(drag).overflow_side
                == OverflowSide::CW
        },
        final(drag).prev_drag_pos == at,
{
}

} // verus!
