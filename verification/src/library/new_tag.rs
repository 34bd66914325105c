//! The entry for a new tag.
use vstd::prelude::*;

verus! {

/// Whether the button next to the entry reacts: a tag has to have a name.
pub fn add_sensitive(text: &str) -> (r: bool)
    ensures
        r == (text@.len() > 0),
{
    text.unicode_len() > 0
}

/// A tag without a name cannot be added, one with a name can.
pub proof fn tags_need_a_name(text: &str, sensitive: bool)
    requires
        call_ensures(add_sensitive, (text,), sensitive),
    ensures
        sensitive <==> text@.len() > 0,
{
}

} // verus!
