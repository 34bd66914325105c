//! A filter of a list by tags that the user ticks off.
use crate::collections::{
    clear_texts, has_text, insert_text, lists_members, members, new_text_set, remove_text, text_set,
};
use crate::text::{decimal, decimal_string, join2, opt_view, signed_decimal, signed_string};
use rustc_hash::FxHashSet;
use vstd::prelude::*;

verus! {

/// One character as it stands in markup.
pub open spec fn escaped_char(c: char) -> Seq<char> {
    if c == '<' {
        "&lt;"@
    } else if c == '>' {
        "&gt;"@
    } else if c == '&' {
        "&amp;"@
    } else if c == '\'' {
        "&apos;"@
    } else if c == '"' {
        "&quot;"@
    } else if c == '\r' {
        "&#13;"@
    } else {
        seq![c]
    }
}

/// A text as it stands in markup.
pub open spec fn escaped(text: Seq<char>) -> Seq<char>
    decreases text.len(),
{
    if text.len() == 0 {
        Seq::empty()
    } else {
        escaped(text.drop_last()) + escaped_char(text.last())
    }
}

/// `escape` of quick-xml: the five special characters of XML and the carriage
/// return are replaced, all others stay.
#[verifier::external_body]
fn escape(text: &str) -> (r: String)
    ensures
        r@ == escaped(text@),
{
    quick_xml::escape::escape(text).into_owned()
}

/// What a row of the dialog shows.
#[derive(Debug)]
pub struct TagRow {
    pub title: String,
    pub subtitle: Option<String>,
    pub active: bool,
}

/// What applying the filter comes to.
#[derive(Debug)]
pub struct AppliedFilter {
    /// The names of the selected tags, in no particular order.
    pub selected: Vec<String>,
    pub count_label: String,
    pub count_visible: bool,
}

/// The state of the filter.
pub struct TagsFilter {
    pub selected: FxHashSet<String>,
    /// Whether the dialog only lists selected tags.
    pub only_selected: bool,
}

impl TagsFilter {
    /// The names of the selected tags.
    pub open spec fn selection(self) -> Set<Seq<char>> {
        text_set(self.selected)
    }

    /// A filter with nothing selected.
    pub fn new() -> (r: TagsFilter)
        ensures
            r.selection() == Set::<Seq<char>>::empty(),
            !r.only_selected,
    {
        TagsFilter { selected: new_text_set(), only_selected: false }
    }

    /// Selects a tag or not.
    pub fn toggle(&mut self, name: &str, active: bool)
        ensures
            final(self).selection() == (if active {
                old(self).selection().insert(name@)
            } else {
                old(self).selection().remove(name@)
            }),
            final(self).only_selected == old(self).only_selected,
    {
        if active {
            insert_text(&mut self.selected, name.to_owned());
        } else {
            remove_text(&mut self.selected, name);
        }
    }

    /// Whether a tag is selected.
    pub fn is_selected(&self, name: &str) -> (r: bool)
        ensures
            r == self.selection().contains(name@),
    {
        has_text(&self.selected, name)
    }

    /// Whether the dialog lists a tag.
    pub fn lists(&self, name: &str) -> (r: bool)
        ensures
            r == (!self.only_selected || self.selection().contains(name@)),
    {
        !self.only_selected || has_text(&self.selected, name)
    }

    /// The row for a tag. How often it occurs is only told above one.
    pub fn row(&self, name: &str, count: i32) -> (r: TagRow)
        ensures
            r.title@ == escaped(name@),
            opt_view(r.subtitle) == (if count > 1 {
                Some(signed_decimal(count as int) + " occurrences"@)
            } else {
                None
            }),
            r.active == self.selection().contains(name@),
    {
        let subtitle: Option<String> = if count > 1 {
            Some(join2(signed_string(count as i64).as_str(), " occurrences"))
        } else {
            None
        };
        TagRow { title: escape(name), subtitle, active: has_text(&self.selected, name) }
    }

    /// Applies the filter: who uses it gets the selected tags.
    pub fn apply(&self) -> (r: AppliedFilter)
        ensures
            lists_members(self.selection(), r.selected@),
            r.count_label@ == decimal(r.selected@.len()),
            r.count_visible == (r.selected@.len() > 0),
            self.selection().len() == r.selected@.len(),
    {
        let selected: Vec<String> = members(&self.selected);
        proof {
            crate::text::views(selected@).unique_seq_to_set();
        }
        let len: usize = selected.len();
        AppliedFilter {
            selected,
            count_label: decimal_string(len as u64),
            count_visible: len > 0,
        }
    }

    /// Selects nothing.
    pub fn reset(&mut self)
        ensures
            final(self).selection() == Set::<Seq<char>>::empty(),
            final(self).only_selected == old(self).only_selected,
    {
        clear_texts(&mut self.selected);
    }
}

/// The term to search the tags by; an empty one means no search.
pub fn search_term(text: &str) -> (r: Option<String>)
    ensures
        opt_view(r) == crate::text::entry_value(text@),
{
    crate::text::value_of_entry(text.to_owned())
}

/// A tag is selected exactly if it was last ticked and not unticked since; ticking
/// one tag does not touch another.
pub proof fn ticks_are_remembered(
    filter: &mut TagsFilter,
    name: &str,
    active: bool,
    other: &str,
    before: bool,
    selected: bool,
    after: bool,
)
    requires
        call_ensures(TagsFilter::is_selected, (old(filter), other), before),
        call_ensures(TagsFilter::toggle, (filter, name, active), ()),
        call_ensures(TagsFilter::is_selected, (final(filter), name), selected),
        call_ensures(TagsFilter::is_selected, (final(filter), other), after),
    ensures
        selected == active,
        other@ != name@ ==> after == before,
{
}

/// Nothing is selected at first, and nothing after a reset.
pub proof fn resetting_unticks_everything(
    filter: &mut TagsFilter,
    new: TagsFilter,
    name: &str,
    selected: bool,
    selected_at_first: bool,
    applied: AppliedFilter,
)
    requires
        call_ensures(TagsFilter::reset, (filter,), ()),
        call_ensures(TagsFilter::new, (), new),
        call_ensures(TagsFilter::is_selected, (final(filter), name), selected),
        call_ensures(TagsFilter::is_selected, (&new, name), selected_at_first),
        call_ensures(TagsFilter::apply, (final(filter),), applied),
    ensures
        !selected,
        !selected_at_first,
        applied.selected@.len() == 0,
        !applied.count_visible,
{
    if applied.selected@.len() > 0 {
        let all = crate::text::views(applied.selected@);
        assert(all.to_set().contains(all[0]));
    }
}

/// The filter hands over exactly the selected tags, each once, and tells how many
/// they are if there are any.
pub proof fn the_selected_tags_are_handed_over(
    filter: &TagsFilter,
    applied: AppliedFilter,
    name: &str,
    selected: bool,
    i: int,
    j: int,
    number: String,
)
    requires
        call_ensures(TagsFilter::apply, (filter,), applied),
        call_ensures(TagsFilter::is_selected, (filter, name), selected),
        applied.selected@.len() <= u64::MAX,
        call_ensures(decimal_string, (applied.selected@.len() as u64,), number),
    ensures
        selected <==> exists|k: int|
            0 <= k < applied.selected@.len() && (#[trigger] applied.selected@[k])@ == name@,
        0 <= i < j < applied.selected@.len() ==> applied.selected@[i]@ != applied.selected@[j]@,
        applied.count_visible <==> applied.selected@.len() > 0,
        applied.count_label@ == number@,
{
    let all = crate::text::views(applied.selected@);
    assert(all.len() == applied.selected@.len());
    assert forall|k: int| 0 <= k < all.len() implies #[trigger] all[k] == applied.selected@[k]@ by {}
    if selected {
        assert(all.to_set().contains(name@));
        let k = choose|k: int| 0 <= k < all.len() && all[k] == name@;
        assert(applied.selected@[k]@ == name@);
    }
    if exists|k: int|
        0 <= k < applied.selected@.len() && (#[trigger] applied.selected@[k])@ == name@ {
        let k = choose|k: int|
            0 <= k < applied.selected@.len() && (#[trigger] applied.selected@[k])@ == name@;
        assert(all[k] == name@);
        assert(all.to_set().contains(name@));
    }
    if 0 <= i < j < applied.selected@.len() {
        assert(all[i] != all[j]);
    }
}

/// The dialog lists all tags, or only the selected ones if that is asked for.
pub proof fn the_dialog_lists_what_is_asked_for(
    filter: &TagsFilter,
    name: &str,
    listed: bool,
    selected: bool,
)
    requires
        call_ensures(TagsFilter::lists, (filter, name), listed),
        call_ensures(TagsFilter::is_selected, (filter, name), selected),
    ensures
        !filter.only_selected ==> listed,
        filter.only_selected ==> listed == selected,
{
}

/// A row is ticked exactly if its tag is selected, and tells how often the tag
/// occurs if it occurs more than once.
pub proof fn rows_show_their_tags(
    filter: &TagsFilter,
    name: &str,
    count: i32,
    row: TagRow,
    selected: bool,
    number: String,
)
    requires
        call_ensures(TagsFilter::row, (filter, name, count), row),
        call_ensures(TagsFilter::is_selected, (filter, name), selected),
        call_ensures(signed_string, (count as i64,), number),
    ensures
        row.active == selected,
        row.subtitle is Some <==> count > 1,
        row.subtitle matches Some(text) ==> text@ == number@ + " occurrences"@,
{
}

proof fn escaping_goes_by_character(a: Seq<char>, b: Seq<char>)
    ensures
        escaped(a + b) == escaped(a) + escaped(b),
    decreases b.len(),
{
    if b.len() == 0 {
        assert(a + b =~= a);
        assert(escaped(a) + escaped(b) =~= escaped(a));
    } else {
        escaping_goes_by_character(a, b.drop_last());
        assert((a + b).drop_last() =~= a + b.drop_last());
        assert(escaped(a + b) =~= escaped(a) + escaped(b));
    }
}

/// The title of a row is the name of the tag with the special characters of markup
/// written out, one character after the other; a name without such characters
/// stands as it is.
pub proof fn titles_are_written_for_markup(
    filter: &TagsFilter,
    name: &str,
    first: &str,
    second: &str,
    count: i32,
    row: TagRow,
    first_row: TagRow,
    second_row: TagRow,
)
    requires
        name@ == first@ + second@,
        call_ensures(TagsFilter::row, (filter, name, count), row),
        call_ensures(TagsFilter::row, (filter, first, count), first_row),
        call_ensures(TagsFilter::row, (filter, second, count), second_row),
    ensures
        row.title@ == first_row.title@ + second_row.title@,
        name@ == seq!['<'] ==> row.title@ == "&lt;"@,
        name@ == seq!['>'] ==> row.title@ == "&gt;"@,
        name@ == seq!['&'] ==> row.title@ == "&amp;"@,
        name@ == seq!['"'] ==> row.title@ == "&quot;"@,
        name@ == seq!['\''] ==> row.title@ == "&apos;"@,
        name@ == seq!['\r'] ==> row.title@ == "&#13;"@,
        name@.len() == 1 && name@[0] != '<' && name@[0] != '>' && name@[0] != '&' && name@[0] != '"'
            && name@[0] != '\'' && name@[0] != '\r' ==> row.title@ == name@,
        name@.len() == 0 ==> row.title@.len() == 0,
{
    escaping_goes_by_character(first@, second@);
    if name@.len() == 1 {
        reveal_with_fuel(escaped, 2);
        assert(name@.drop_last().len() == 0);
        assert(escaped(name@) =~= escaped_char(name@.last()));
        assert(seq![name@[0]] =~= name@);
    }
}

/// An empty field searches for nothing, any other for its text.
pub proof fn the_field_is_searched_for(text: &str, term: Option<String>)
    requires
        call_ensures(search_term, (text,), term),
    ensures
        term is None <==> text@.len() == 0,
        term matches Some(t) ==> t@ == text@,
{
}

} // verus!
