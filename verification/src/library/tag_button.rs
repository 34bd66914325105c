//! A tag as a button.
use crate::library::tag::Tag;
use crate::text::{clone_opt, opt_view, signed_decimal, signed_string};
use vstd::prelude::*;

verus! {

/// What a tag button shows.
#[derive(Debug)]
pub struct TagButton {
    pub label: String,
    /// The number next to the name, if there is one.
    pub count: Option<String>,
    pub remove_visible: bool,
    /// Where a click leads, shown as a tooltip too.
    pub link: Option<String>,
}

impl TagButton {
    /// The button for a tag. A number is only shown above one.
    pub fn new(data: &Tag) -> (r: TagButton)
        ensures
            r.label == data.name,
            opt_view(r.count) == (if data.count > 1 {
                Some(signed_decimal(data.count as int))
            } else {
                None
            }),
            r.remove_visible == data.removable,
            r.link == data.link,
    {
        let count: Option<String> = if data.count > 1 {
            Some(signed_string(data.count as i64))
        } else {
            None
        };
        TagButton {
            label: data.name.clone(),
            count,
            remove_visible: data.removable,
            link: clone_opt(&data.link),
        }
    }
}

/// A button shows the name and the link of its tag, lets a removable one be taken
/// off, and tells how often the tag occurs if it occurs more than once.
pub proof fn buttons_show_their_tags(tag: &Tag, button: TagButton, number: String)
    requires
        call_ensures(TagButton::new, (tag,), button),
        call_ensures(signed_string, (tag.count as i64,), number),
    ensures
        button.label == tag.name,
        button.link == tag.link,
        button.remove_visible == tag.removable,
        button.count is Some <==> tag.count > 1,
        button.count matches Some(text) ==> text@ == number@,
{
}

} // verus!
