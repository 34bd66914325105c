//! Hash tables of rustc-hash, and what the library relies on of them.
//!
//! rustc-hash's `FxHashMap` and `FxHashSet` are the tables of the standard
//! library with another hasher. None of what is stated here depends on the
//! order in which such a table is walked.
use rustc_hash::{FxHashMap, FxHashSet};
use vstd::prelude::*;

verus! {

/// The hasher of rustc-hash.
#[verifier::external_type_specification]
#[verifier::external_body]
pub struct ExFxBuildHasher(rustc_hash::FxBuildHasher);

/// What a table from texts to positions holds.
pub uninterp spec fn position_table(table: FxHashMap<String, usize>) -> Map<Seq<char>, usize>;

/// The list gives the value of each key of the map once, in some order.
pub open spec fn lists_values<K>(map: Map<K, usize>, list: Seq<usize>) -> bool {
    exists|keys: Seq<K>|
        {
            &&& keys.no_duplicates()
            &&& #[trigger] keys.to_set() == map.dom()
            &&& list == keys.map_values(|key: K| map[key])
        }
}

/// `FxHashMap::default`: an empty table.
#[verifier::external_body]
pub(crate) fn new_position_table() -> (r: FxHashMap<String, usize>)
    ensures
        position_table(r).dom() == Set::<Seq<char>>::empty(),
{
    FxHashMap::default()
}

/// `FxHashMap::insert`: the key now has this value, whether or not it had
/// another one before; all other keys keep theirs.
#[verifier::external_body]
pub(crate) fn set_position(table: &mut FxHashMap<String, usize>, key: String, position: usize)
    ensures
        position_table(*final(table)) == position_table(*old(table)).insert(key@, position),
{
    table.insert(key, position);
}

/// `FxHashMap::into_values`: the value of every key, in no particular order.
#[verifier::external_body]
pub(crate) fn positions(table: FxHashMap<String, usize>) -> (r: Vec<usize>)
    ensures
        lists_values(position_table(table), r@),
{
    table.into_values().collect()
}

/// What a table from years to positions holds.
pub uninterp spec fn year_table(table: FxHashMap<Option<i32>, usize>) -> Map<Option<i32>, usize>;

/// `FxHashMap::default`: an empty table.
#[verifier::external_body]
pub(crate) fn new_year_table() -> (r: FxHashMap<Option<i32>, usize>)
    ensures
        year_table(r).dom() == Set::<Option<i32>>::empty(),
{
    FxHashMap::default()
}

/// `FxHashMap::get`: the value of a key, if it has one.
#[verifier::external_body]
pub(crate) fn year_position(table: &FxHashMap<Option<i32>, usize>, year: Option<i32>) -> (r: Option<
    usize,
>)
    ensures
        r == (if year_table(*table).dom().contains(year) {
            Some(year_table(*table)[year])
        } else {
            None
        }),
{
    table.get(&year).copied()
}

/// `FxHashMap::insert`: the key now has this value; all other keys keep theirs.
#[verifier::external_body]
pub(crate) fn set_year_position(
    table: &mut FxHashMap<Option<i32>, usize>,
    year: Option<i32>,
    position: usize,
)
    ensures
        year_table(*final(table)) == year_table(*old(table)).insert(year, position),
{
    table.insert(year, position);
}

/// What a set of texts holds.
pub uninterp spec fn text_set(set: FxHashSet<String>) -> Set<Seq<char>>;

/// The list gives each member of the set once, in some order.
pub open spec fn lists_members(set: Set<Seq<char>>, list: Seq<String>) -> bool {
    &&& crate::text::views(list).no_duplicates()
    &&& crate::text::views(list).to_set() == set
}

/// `FxHashSet::default`: an empty set.
#[verifier::external_body]
pub(crate) fn new_text_set() -> (r: FxHashSet<String>)
    ensures
        text_set(r) == Set::<Seq<char>>::empty(),
{
    FxHashSet::default()
}

/// `FxHashSet::insert`: the text is a member afterwards. Returns whether it was
/// not one before.
#[verifier::external_body]
pub(crate) fn insert_text(set: &mut FxHashSet<String>, text: String) -> (r: bool)
    ensures
        text_set(*final(set)) == text_set(*old(set)).insert(text@),
        r == !text_set(*old(set)).contains(text@),
{
    set.insert(text)
}

/// `FxHashSet::remove`: the text is no member afterwards. Returns whether it was
/// one before.
#[verifier::external_body]
pub(crate) fn remove_text(set: &mut FxHashSet<String>, text: &str) -> (r: bool)
    ensures
        text_set(*final(set)) == text_set(*old(set)).remove(text@),
        r == text_set(*old(set)).contains(text@),
{
    set.remove(text)
}

/// `FxHashSet::contains`: whether the text is a member.
#[verifier::external_body]
pub(crate) fn has_text(set: &FxHashSet<String>, text: &str) -> (r: bool)
    ensures
        r == text_set(*set).contains(text@),
{
    set.contains(text)
}

/// `FxHashSet::clear`: there are no members afterwards.
#[verifier::external_body]
pub(crate) fn clear_texts(set: &mut FxHashSet<String>)
    ensures
        text_set(*final(set)) == Set::<Seq<char>>::empty(),
{
    set.clear();
}

/// `FxHashSet::iter`: every member, in no particular order.
#[verifier::external_body]
pub(crate) fn members(set: &FxHashSet<String>) -> (r: Vec<String>)
    ensures
        lists_members(text_set(*set), r@),
{
    set.iter().cloned().collect()
}

} // verus!
