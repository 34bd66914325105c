//! A playlist in a list.
use crate::library::playlist_content_view::{CoverAction, CoverReply};
use crate::text::{same, text_of_entry};
use vstd::prelude::*;

verus! {

/// What to do with a thumbnail that was looked up for `requested`. The row may
/// stand for another playlist by then, whose thumbnail is left alone.
pub fn on_cover(current: Option<&str>, requested: &str, reply: CoverReply) -> (r: CoverAction)
    ensures
        r == (if current is Some && current->0@ == requested@ {
            match reply {
                CoverReply::Found => CoverAction::Show,
                CoverReply::Missing => CoverAction::Clear,
                CoverReply::Failed => CoverAction::Keep,
            }
        } else {
            CoverAction::Keep
        }),
{
    match current {
        Some(uri) => if same(uri, requested) {
            match reply {
                CoverReply::Found => CoverAction::Show,
                CoverReply::Missing => CoverAction::Clear,
                CoverReply::Failed => CoverAction::Keep,
            }
        } else {
            CoverAction::Keep
        },
        None => CoverAction::Keep,
    }
}

/// The text on when the playlist was changed.
pub fn last_modified_label(last_modified: &Option<String>) -> (r: String)
    ensures
        r@ == crate::text::entry_text(crate::text::opt_view(*last_modified)),
{
    text_of_entry(last_modified)
}

/// A thumbnail goes to the row that it was looked up for, as the reply has it; a row
/// that stands for another playlist by then keeps its own.
pub proof fn thumbnails_go_to_their_rows(
    current: &str,
    requested: &str,
    reply: CoverReply,
    action: CoverAction,
    unbound: CoverAction,
)
    requires
        call_ensures(on_cover, (Some(current), requested, reply), action),
        call_ensures(on_cover, (None, requested, reply), unbound),
    ensures
        current@ != requested@ ==> action == CoverAction::Keep,
        unbound == CoverAction::Keep,
        current@ == requested@ ==> {
            &&& action == CoverAction::Show <==> reply == CoverReply::Found
            &&& action == CoverAction::Clear <==> reply == CoverReply::Missing
            &&& action == CoverAction::Keep <==> reply == CoverReply::Failed
        },
{
}

/// When a playlist was changed is told if it is known.
pub proof fn the_last_change_is_told(time: String, label: String, unknown: String)
    requires
        call_ensures(last_modified_label, (&Some(time),), label),
        call_ensures(last_modified_label, (&None,), unknown),
    ensures
        label@ == time@,
        unknown@.len() == 0,
{
}

} // verus!
