//! A tag as the views show it.
use crate::meta_providers::models;
use crate::text::{as_opt_str, clone_opt, opt_view, str_view};
use vstd::prelude::*;

verus! {

/// A tag of an album or an artist.
#[derive(Debug)]
pub struct Tag {
    pub name: String,
    pub count: i32,
    pub link: Option<String>,
    /// Whether the user can take it off. Tags in files, such as genres, stay.
    pub removable: bool,
    pub set_by_user: bool,
}

/// How often a tag occurs; once, unless it is told otherwise.
pub open spec fn count_or_one(count: Option<i32>) -> i32 {
    match count {
        Some(n) => n,
        None => 1i32,
    }
}

impl Tag {
    /// A tag with these fields.
    pub fn new(
        name: String,
        link: Option<String>,
        count: Option<i32>,
        removable: bool,
        set_by_user: bool,
    ) -> (r: Tag)
        ensures
            r == (Tag { name, count: count_or_one(count), link, removable, set_by_user }),
    {
        let count: i32 = match count {
            Some(n) => n,
            None => 1,
        };
        Tag { name, count, link, removable, set_by_user }
    }

    /// The name.
    pub fn name(&self) -> (r: &str)
        ensures
            r@ == self.name@,
    {
        self.name.as_str()
    }

    /// How often the tag occurs.
    pub fn count(&self) -> (r: i32)
        ensures
            r == self.count,
    {
        self.count
    }

    /// Where the tag leads.
    pub fn link(&self) -> (r: Option<&str>)
        ensures
            str_view(r) == opt_view(self.link),
    {
        as_opt_str(&self.link)
    }

    /// Whether the user can take the tag off.
    pub fn removable(&self) -> (r: bool)
        ensures
            r == self.removable,
    {
        self.removable
    }

    /// Whether the user put the tag on.
    pub fn set_by_user(&self) -> (r: bool)
        ensures
            r == self.set_by_user,
    {
        self.set_by_user
    }

    /// The tag as it is stored.
    pub open spec fn stored(self) -> models::Tag {
        models::Tag {
            url: self.link,
            name: self.name,
            count: Some(self.count),
            set_by_user: self.set_by_user,
        }
    }

    /// A stored tag as it is shown.
    pub open spec fn shown(stored: models::Tag) -> Tag {
        Tag {
            name: stored.name,
            count: count_or_one(stored.count),
            link: stored.url,
            removable: true,
            set_by_user: stored.set_by_user,
        }
    }

    /// The tag as it is stored.
    pub fn to_meta(&self) -> (r: models::Tag)
        ensures
            r == self.stored(),
    {
        models::Tag {
            url: clone_opt(&self.link),
            name: self.name.clone(),
            count: Some(self.count),
            set_by_user: self.set_by_user,
        }
    }

    /// A stored tag as it is shown.
    pub fn from(value: models::Tag) -> (r: Tag)
        ensures
            r == Tag::shown(value),
    {
        Tag::new(value.name, value.url, value.count, true, value.set_by_user)
    }
}

/// Showing a stored tag and storing it again keeps it; a count that was not
/// given is one.
pub proof fn storing_a_shown_tag(stored: models::Tag)
    ensures
        Tag::shown(stored).stored() == (models::Tag {
            count: Some(count_or_one(stored.count)),
            ..stored
        }),
        stored.count is Some ==> Tag::shown(stored).stored() == stored,
{
}

/// Storing a removable tag and showing it again gives the same tag.
pub proof fn showing_a_stored_tag(tag: Tag)
    requires
        tag.removable,
    ensures
        Tag::shown(tag.stored()) == tag,
{
}

/// A tag that was read from storage keeps its name, its link and who set it, and
/// its count where it has one; it can be taken off, and is stored again as it was.
pub proof fn tags_survive_storage(stored: models::Tag, tag: Tag, again: models::Tag)
    requires
        call_ensures(Tag::from, (stored,), tag),
        call_ensures(Tag::to_meta, (&tag,), again),
    ensures
        tag.name == stored.name,
        tag.link == stored.url,
        tag.set_by_user == stored.set_by_user,
        tag.removable,
        stored.count matches Some(n) ==> tag.count == n,
        stored.count is None ==> tag.count == 1,
        again.name == stored.name,
        again.url == stored.url,
        again.set_by_user == stored.set_by_user,
        again.count == Some(tag.count),
{
}

/// A new tag has what it was made of, and occurs once if nothing else is said.
pub proof fn tags_have_what_they_are_made_of(
    name: String,
    link: Option<String>,
    count: Option<i32>,
    removable: bool,
    set_by_user: bool,
    tag: Tag,
)
    requires
        call_ensures(Tag::new, (name, link, count, removable, set_by_user), tag),
    ensures
        tag.name == name,
        tag.link == link,
        tag.removable == removable,
        tag.set_by_user == set_by_user,
        count matches Some(n) ==> tag.count == n,
        count is None ==> tag.count == 1,
{
}

/// A tag tells what it has.
pub proof fn tags_tell_what_they_have(
    tag: &Tag,
    name: &str,
    count: i32,
    link: Option<&str>,
    removable: bool,
    set_by_user: bool,
)
    requires
        call_ensures(Tag::name, (tag,), name),
        call_ensures(Tag::count, (tag,), count),
        call_ensures(Tag::link, (tag,), link),
        call_ensures(Tag::removable, (tag,), removable),
        call_ensures(Tag::set_by_user, (tag,), set_by_user),
    ensures
        name@ == tag.name@,
        count == tag.count,
        link is Some <==> tag.link is Some,
        link is Some ==> link->0@ == tag.link->0@,
        removable == tag.removable,
        set_by_user == tag.set_by_user,
{
}

} // verus!
