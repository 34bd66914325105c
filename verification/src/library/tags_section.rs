//! The tags of an album or an artist, with an entry to add more.
use crate::library::tag::Tag;
use crate::meta_providers::models;
use crate::text::same;
use vstd::prelude::*;

verus! {

/// What is shown in the place of the tags.
#[derive(Clone, Copy, Debug, PartialEq, Eq, Structural)]
pub enum TagsStack {
    Placeholder,
    Spinner,
    Content,
}

/// What adding a tag comes to.
#[derive(Clone, Copy, Debug, PartialEq, Eq, Structural)]
pub enum AddOutcome {
    /// Nothing was added.
    Skipped,
    /// A tag was added, and whoever waits for one is to be told.
    Announced,
}

/// The state of the section.
#[derive(Debug)]
pub struct TagsSection {
    pub tags: Vec<Tag>,
    pub stack: TagsStack,
    /// The text in the entry.
    pub entry: String,
}

/// One of the tags has that name.
pub open spec fn named(tags: Seq<Tag>, name: Seq<char>) -> bool {
    exists|i: int| 0 <= i < tags.len() && (#[trigger] tags[i]).name@ == name
}

impl TagsSection {
    /// No two tags have the same name.
    pub open spec fn wf(self) -> bool {
        forall|i: int, j: int|
            0 <= i < j < self.tags.len() ==> (#[trigger] self.tags@[i]).name@ != (
            #[trigger] self.tags@[j]).name@
    }

    /// An empty section.
    pub fn new() -> (r: TagsSection)
        ensures
            r.wf(),
            r.tags@.len() == 0,
            r.stack == TagsStack::Placeholder,
            r.entry@.len() == 0,
    {
        TagsSection { tags: Vec::new(), stack: TagsStack::Placeholder, entry: String::new() }
    }

    fn has_name(&self, name: &str) -> (r: bool)
        ensures
            r == named(self.tags@, name@),
    {
        for i in 0..self.tags.len()
            invariant
                forall|j: int| 0 <= j < i ==> (#[trigger] self.tags@[j]).name@ != name@,
        {
            if same(self.tags[i].name.as_str(), name) {
                return true;
            }
        }
        false
    }

    /// Adds a tag at the end, unless there is one with the same name. Then the
    /// tags are shown, the entry is emptied, and the tag is announced, whoever it
    /// was set by.
    pub fn add_tag(
        &mut self,
        name: &str,
        link: Option<String>,
        count: Option<i32>,
        set_by_user: bool,
    ) -> (r: AddOutcome)
        requires
            old(self).wf(),
        ensures
            final(self).wf(),
            named(old(self).tags@, name@) ==> r == AddOutcome::Skipped && *final(self) == *old(
                self,
            ),
            !named(old(self).tags@, name@) ==> {
                &&& r == AddOutcome::Announced
                &&& final(self).tags@.len() == old(self).tags@.len() + 1
                &&& final(self).tags@.drop_last() == old(self).tags@
                &&& final(self).tags@.last().name@ == name@
                &&& final(self).tags@.last().link == link
                &&& final(self).tags@.last().count == crate::library::tag::count_or_one(count)
                &&& final(self).tags@.last().removable
                &&& final(self).tags@.last().set_by_user == set_by_user
                &&& final(self).stack == TagsStack::Content
                &&& final(self).entry@.len() == 0
            },
    {
        if self.has_name(name) {
            return AddOutcome::Skipped;
        }
        let ghost before = self.tags@;
        self.tags.push(Tag::new(name.to_owned(), link, count, true, set_by_user));
        self.stack = TagsStack::Content;
        self.entry = String::new();
        assert(self.tags@.drop_last() =~= before);
        AddOutcome::Announced
    }

    /// Adds a tag with the name in the entry, if there is one.
    pub fn add_from_entry(&mut self) -> (r: AddOutcome)
        requires
            old(self).wf(),
        ensures
            final(self).wf(),
            old(self).entry@.len() == 0 || named(old(self).tags@, old(self).entry@) ==> r
                == AddOutcome::Skipped && *final(self) == *old(self),
            old(self).entry@.len() > 0 && !named(old(self).tags@, old(self).entry@) ==> {
                &&& r == AddOutcome::Announced
                &&& final(self).tags@.len() == old(self).tags@.len() + 1
                &&& final(self).tags@.drop_last() == old(self).tags@
                &&& final(self).tags@.last().name@ == old(self).entry@
                &&& final(self).tags@.last().link is None
                &&& final(self).tags@.last().count == 1
                &&& final(self).tags@.last().removable
                &&& final(self).tags@.last().set_by_user
                &&& final(self).stack == TagsStack::Content
                &&& final(self).entry@.len() == 0
            },
    {
        if self.entry.as_str().unicode_len() == 0 {
            return AddOutcome::Skipped;
        }
        let name: String = self.entry.clone();
        self.add_tag(name.as_str(), None, None, true)
    }

    /// Takes a tag off, as its own button asks for. The tags are to be stored
    /// then.
    pub fn remove_tag(&mut self, idx: usize)
        requires
            old(self).wf(),
            idx < old(self).tags.len(),
        ensures
            final(self).wf(),
            final(self).tags@ == old(self).tags@.remove(idx as int),
            final(self).stack == old(self).stack,
            final(self).entry == old(self).entry,
    {
        self.tags.remove(idx);
        proof {
            let before = old(self).tags@;
            assert forall|i: int, j: int| 0 <= i < j < self.tags.len() implies (
            #[trigger] self.tags@[i]).name@ != (#[trigger] self.tags@[j]).name@ by {
                let a = if i < idx {
                    i
                } else {
                    i + 1
                };
                let b = if j < idx {
                    j
                } else {
                    j + 1
                };
                assert(self.tags@[i] == before[a]);
                assert(self.tags@[j] == before[b]);
            }
        }
    }

    /// Takes all tags off.
    pub fn remove_all(&mut self, show_spinner: bool)
        ensures
            final(self).wf(),
            final(self).tags@.len() == 0,
            final(self).entry == old(self).entry,
            final(self).stack == (if show_spinner {
                TagsStack::Spinner
            } else {
                TagsStack::Placeholder
            }),
    {
        self.tags.clear();
        self.stack = if show_spinner {
            TagsStack::Spinner
        } else {
            TagsStack::Placeholder
        };
    }

    /// The tags as they are stored, in the order in which they are shown.
    pub fn get_tags(&self) -> (r: Vec<models::Tag>)
        ensures
            r@ == self.tags@.map_values(|tag: Tag| tag.stored()),
    {
        let mut result: Vec<models::Tag> = Vec::new();
        for i in 0..self.tags.len()
            invariant
                result.len() == i,
                forall|j: int| 0 <= j < i ==> #[trigger] result@[j] == self.tags@[j].stored(),
        {
            result.push(self.tags[i].to_meta());
        }
        assert(result@ =~= self.tags@.map_values(|tag: Tag| tag.stored()));
        result
    }

    /// Shows the placeholder.
    pub fn show_placeholder(&mut self)
        ensures
            final(self).tags == old(self).tags,
            final(self).entry == old(self).entry,
            final(self).stack == TagsStack::Placeholder,
    {
        self.stack = TagsStack::Placeholder;
    }

    /// Shows the tags.
    pub fn show_content(&mut self)
        ensures
            final(self).tags == old(self).tags,
            final(self).entry == old(self).entry,
            final(self).stack == TagsStack::Content,
    {
        self.stack = TagsStack::Content;
    }
}

/// A tag is added behind the others exactly if none of them has its name; it then
/// has the link, the count and the origin that were given, and can be taken off.
pub proof fn tags_are_added_once(
    section: &mut TagsSection,
    name: &str,
    link: Option<String>,
    count: Option<i32>,
    set_by_user: bool,
    outcome: AddOutcome,
    i: int,
    j: int,
)
    requires
        old(section).wf(),
        call_ensures(TagsSection::add_tag, (section, name, link, count, set_by_user), outcome),
    ensures
        0 <= i < j < final(section).tags@.len() ==> final(section).tags@[i].name@
            != final(section).tags@[j].name@,
        0 <= i < old(section).tags@.len() && old(section).tags@[i].name@ == name@ ==> outcome
            == AddOutcome::Skipped,
        0 <= i < old(section).tags@.len() ==> final(section).tags@[i] == old(section).tags@[i],
        outcome == AddOutcome::Skipped ==> final(section).tags@ == old(section).tags@
            && final(section).entry == old(section).entry && exists|j: int|
            0 <= j < old(section).tags@.len() && (#[trigger] old(section).tags@[j]).name@ == name@,
        outcome == AddOutcome::Announced ==> {
            let tag = final(section).tags@.last();
            &&& final(section).tags@.len() == old(section).tags@.len() + 1
            &&& tag.name@ == name@
            &&& tag.link == link
            &&& tag.set_by_user == set_by_user
            &&& tag.removable
            &&& count matches Some(n) ==> tag.count == n
            &&& count is None ==> tag.count == 1
            &&& final(section).entry@.len() == 0
            &&& final(section).stack == TagsStack::Content
        },
{
    if outcome == AddOutcome::Announced && 0 <= i < old(section).tags@.len() {
        assert(final(section).tags@.drop_last()[i] == old(section).tags@[i]);
    }
}

/// What the user has typed is added as a tag of the user's own, unless there is
/// nothing typed or such a tag already.
pub proof fn typed_tags_are_the_users(
    section: &mut TagsSection,
    outcome: AddOutcome,
    tags: Vec<models::Tag>,
    i: int,
)
    requires
        old(section).wf(),
        call_ensures(TagsSection::add_from_entry, (section,), outcome),
        call_ensures(TagsSection::get_tags, (final(section),), tags),
    ensures
        old(section).entry@.len() == 0 ==> outcome == AddOutcome::Skipped,
        0 <= i < old(section).tags@.len() && old(section).tags@[i].name@ == old(section).entry@
            ==> outcome == AddOutcome::Skipped,
        outcome == AddOutcome::Skipped ==> *final(section) == *old(section),
        outcome == AddOutcome::Announced ==> {
            &&& tags@.len() == old(section).tags@.len() + 1
            &&& tags@.last().name@ == old(section).entry@
            &&& tags@.last().set_by_user
            &&& tags@.last().url is None
            &&& final(section).entry@.len() == 0
        },
{
    if outcome == AddOutcome::Announced {
        assert(final(section).tags@.drop_last().len() == old(section).tags@.len());
        let last = final(section).tags@.len() - 1;
        assert(tags@[last] == final(section).tags@[last].stored());
    }
}

/// A tag that was just added and is taken off again leaves what was there before.
pub proof fn taking_off_reverts_adding(
    add: &mut TagsSection,
    remove: &mut TagsSection,
    name: &str,
    link: Option<String>,
    count: Option<i32>,
    set_by_user: bool,
    idx: usize,
)
    requires
        old(add).wf(),
        call_ensures(
            TagsSection::add_tag,
            (add, name, link, count, set_by_user),
            AddOutcome::Announced,
        ),
        *old(remove) == *final(add),
        idx == old(add).tags@.len(),
        call_ensures(TagsSection::remove_tag, (remove, idx), ()),
    ensures
        final(remove).tags@ == old(add).tags@,
{
    assert(final(remove).tags@ =~= final(add).tags@.drop_last());
}

/// Taking a tag off leaves all others, in their order.
pub proof fn only_one_tag_is_taken_off(section: &mut TagsSection, idx: usize, i: int)
    requires
        idx < old(section).tags@.len(),
        call_ensures(TagsSection::remove_tag, (section, idx), ()),
        0 <= i < old(section).tags@.len(),
    ensures
        final(section).tags@.len() == old(section).tags@.len() - 1,
        i < idx ==> final(section).tags@[i] == old(section).tags@[i],
        i > idx ==> final(section).tags@[i - 1] == old(section).tags@[i],
{
}

/// All tags are stored, in their order and as they are shown.
pub proof fn all_tags_are_stored(section: &TagsSection, tags: Vec<models::Tag>, i: int)
    requires
        call_ensures(TagsSection::get_tags, (section,), tags),
    ensures
        tags@.len() == section.tags@.len(),
        0 <= i < tags@.len() ==> {
            &&& tags@[i].name == section.tags@[i].name
            &&& tags@[i].url == section.tags@[i].link
            &&& tags@[i].count == Some(section.tags@[i].count)
            &&& tags@[i].set_by_user == section.tags@[i].set_by_user
        },
{
}

/// Without tags a spinner is shown while some may come, else a placeholder.
pub proof fn no_tags_show_a_spinner_or_a_placeholder(
    loading: &mut TagsSection,
    empty: &mut TagsSection,
    section: TagsSection,
)
    requires
        call_ensures(TagsSection::remove_all, (loading, true), ()),
        call_ensures(TagsSection::remove_all, (empty, false), ()),
        call_ensures(TagsSection::new, (), section),
    ensures
        final(loading).tags@.len() == 0 && final(loading).stack == TagsStack::Spinner,
        final(empty).tags@.len() == 0 && final(empty).stack == TagsStack::Placeholder,
        section.tags@.len() == 0 && section.stack == TagsStack::Placeholder,
        final(loading).entry == old(loading).entry,
{
}

/// The placeholder and the tags can be shown in turn, which changes neither the tags
/// nor what was typed.
pub proof fn showing_changes_no_tags(hide: &mut TagsSection, show: &mut TagsSection)
    requires
        call_ensures(TagsSection::show_placeholder, (hide,), ()),
        *old(show) == *final(hide),
        call_ensures(TagsSection::show_content, (show,), ()),
    ensures
        final(hide).stack == TagsStack::Placeholder,
        final(show).stack == TagsStack::Content,
        final(show).tags == old(hide).tags,
        final(show).entry == old(hide).entry,
{
}

} // verus!
