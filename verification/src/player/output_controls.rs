//! The outputs, of which one is shown at a time.
use vstd::prelude::*;

verus! {

/// What becomes of the outputs' widgets.
#[derive(Clone, Copy, Debug, PartialEq, Eq, Structural)]
pub struct WidgetChanges {
    /// So many are kept, from the front, and show the new state.
    pub kept: usize,
    /// So many are taken away, from the back.
    pub removed: usize,
    /// So many are added, at the back.
    pub added: usize,
}

/// The state of the controls.
#[derive(Clone, Copy, Debug, PartialEq, Eq, Structural)]
pub struct OutputControls {
    /// The number of outputs, each of which has a widget.
    pub count: usize,
    /// The output that was chosen to be shown, as long as it is there.
    pub visible: Option<usize>,
    pub section_visible: bool,
    pub buttons_visible: bool,
    pub prev_sensitive: bool,
    pub next_sensitive: bool,
}

impl OutputControls {
    /// What is shown is there.
    pub open spec fn wf(self) -> bool {
        self.visible matches Some(idx) ==> idx < self.count
    }

    /// The output on display is one of those that there are, as long as the
    /// player says which is current.
    pub open spec fn shows(self, current: int) -> bool {
        self.count > 0 && 0 <= current ==> self.visible == Some(current as usize) && current
            < self.count
    }

    /// The controls before anything is known.
    pub fn new() -> (r: OutputControls)
        ensures
            r.wf(),
            r.count == 0,
            r.visible is None,
            r.section_visible,
            r.buttons_visible,
            r.prev_sensitive,
            r.next_sensitive,
    {
        OutputControls {
            count: 0,
            visible: None,
            section_visible: true,
            buttons_visible: true,
            prev_sensitive: true,
            next_sensitive: true,
        }
    }

    /// The player has come to know other outputs. The section is hidden without
    /// any, and the buttons that switch with only one. An output whose widget was
    /// taken away is no longer shown.
    pub fn update_outputs(&mut self, count: usize, current: i32) -> (r: WidgetChanges)
        requires
            current < count || count == 0,
        ensures
            r.kept + r.removed == old(self).count,
            r.kept + r.added == count,
            r.removed == 0 || r.added == 0,
            final(self).wf(),
            final(self).count == count,
            final(self).section_visible == (count > 0),
            final(self).buttons_visible == (if count == 0 {
                old(self).buttons_visible
            } else {
                count > 1
            }),
            final(self).shows(current as int),
            count == 0 || current < 0 ==> {
                &&& final(self).visible == (match old(self).visible {
                    Some(idx) if idx < count => Some(idx),
                    _ => None,
                })
                &&& final(self).prev_sensitive == old(self).prev_sensitive
                &&& final(self).next_sensitive == old(self).next_sensitive
            },
            count > 0 && current >= 0 ==> {
                &&& final(self).next_sensitive == (current < count - 1)
                &&& final(self).prev_sensitive == (current > 0 || count == 1)
            },
    {
        let before: usize = self.count;
        self.section_visible = count > 0;
        if count > 0 {
            self.buttons_visible = count > 1;
        }
        self.count = count;
        if let Some(idx) = self.visible {
            if idx >= count {
                self.visible = None;
            }
        }
        self.set_visible_output(current);
        if before >= count {
            WidgetChanges { kept: count, removed: before - count, added: 0 }
        } else {
            WidgetChanges { kept: before, removed: 0, added: count - before }
        }
    }

    /// The player has switched to another output. There is a next one but after
    /// the last, and a previous one but before the first; the only output counts
    /// as the last.
    pub fn set_visible_output(&mut self, new_idx: i32)
        requires
            new_idx < old(self).count || old(self).count == 0,
        ensures
            old(self).wf() ==> final(self).wf(),
            final(self).shows(new_idx as int),
            old(self).count == 0 || new_idx < 0 ==> *final(self) == *old(self),
            old(self).count > 0 && new_idx >= 0 ==> *final(self) == (OutputControls {
                visible: Some(new_idx as usize),
                next_sensitive: new_idx < old(self).count - 1,
                prev_sensitive: new_idx > 0 || old(self).count == 1,
                ..*old(self)
            }),
    {
        if self.count > 0 && new_idx >= 0 {
            let last: usize = self.count - 1;
            if new_idx as usize >= last {
                self.next_sensitive = false;
                self.prev_sensitive = true;
            } else if new_idx <= 0 {
                self.next_sensitive = true;
                self.prev_sensitive = false;
            } else {
                self.next_sensitive = true;
                self.prev_sensitive = true;
            }
            self.visible = Some(new_idx as usize);
        }
    }
}

/// Widgets are kept from the front as long as there are outputs for them; what is
/// too many goes, what is missing comes. Nothing is shown without outputs, and
/// nothing to switch with one.
pub proof fn each_output_has_a_widget(
    controls: &mut OutputControls,
    count: usize,
    current: i32,
    changes: WidgetChanges,
)
    requires
        current < count || count == 0,
        call_ensures(OutputControls::update_outputs, (controls, count, current), changes),
    ensures
        final(controls).count == count,
        changes.kept == (if old(controls).count < count { old(controls).count } else { count }),
        changes.kept + changes.added == count,
        changes.kept + changes.removed == old(controls).count,
        final(controls).section_visible <==> count > 0,
        count > 0 ==> (final(controls).buttons_visible <==> count > 1),
        count > 0 && current >= 0 ==> final(controls).visible == Some(current as usize),
        final(controls).visible matches Some(idx) ==> idx < count,
        count > 0 && current < 0 && (old(controls).visible matches Some(idx) && idx < count)
            ==> final(controls).visible == old(controls).visible,
{
}

/// With several outputs, one can switch forward but from the last, and back but
/// from the first; what is current is shown.
pub proof fn one_can_switch_but_at_the_ends(controls: &mut OutputControls, idx: i32)
    requires
        call_ensures(OutputControls::set_visible_output, (controls, idx), ()),
        0 <= idx < old(controls).count,
    ensures
        final(controls).visible == Some(idx as usize),
        old(controls).count > 1 ==> (final(controls).next_sensitive <==> idx + 1
            < old(controls).count),
        old(controls).count > 1 ==> (final(controls).prev_sensitive <==> idx > 0),
        final(controls).count == old(controls).count,
        final(controls).section_visible == old(controls).section_visible,
        final(controls).buttons_visible == old(controls).buttons_visible,
{
}

/// Without a current output nothing changes.
pub proof fn no_output_is_chosen_for_the_player(controls: &mut OutputControls, idx: i32)
    requires
        call_ensures(OutputControls::set_visible_output, (controls, idx), ()),
        idx < 0 || old(controls).count == 0,
    ensures
        *final(controls) == *old(controls),
{
}

} // verus!
