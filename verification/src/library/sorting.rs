//! Sorting and searching lists by their texts and dates.
use crate::common::Date;
use crate::text::{
    chars_of, is_before, lowercase, occurs_at, same, str_view, text_before,
    text_order_is_total, to_lowercase,
};
use vstd::prelude::*;

verus! {

/// How one item stands to another in a sorted list.
#[derive(Clone, Copy, Debug, PartialEq, Eq, Structural)]
pub enum Place {
    Smaller,
    Equal,
    Larger,
}

impl Place {
    /// The place of the other item to the one.
    pub open spec fn flipped(self) -> Place {
        match self {
            Place::Smaller => Place::Larger,
            Place::Equal => Place::Equal,
            Place::Larger => Place::Smaller,
        }
    }

    /// The place of the other item to the one.
    pub fn flip(self) -> (r: Place)
        ensures
            r == self.flipped(),
    {
        match self {
            Place::Smaller => Place::Larger,
            Place::Equal => Place::Equal,
            Place::Larger => Place::Smaller,
        }
    }
}

/// How a list is sorted.
#[derive(Clone, Copy, Debug, PartialEq, Eq, Structural)]
pub struct SortOptions {
    /// Items without a value come first, whatever the direction.
    pub nulls_first: bool,
    pub asc: bool,
}

/// The place of one item to another, given which of them have a value, and how
/// the values compare.
pub open spec fn placed(a_some: bool, b_some: bool, values: Place, options: SortOptions) -> Place {
    if !a_some && !b_some {
        Place::Equal
    } else if !a_some {
        if options.nulls_first {
            Place::Smaller
        } else {
            Place::Larger
        }
    } else if !b_some {
        if options.nulls_first {
            Place::Larger
        } else {
            Place::Smaller
        }
    } else if options.asc {
        values
    } else {
        values.flipped()
    }
}

/// A text as far as it counts for the order.
pub open spec fn text_key(text: Seq<char>, case_sensitive: bool) -> Seq<char> {
    if case_sensitive {
        text
    } else {
        lowercase(text)
    }
}

/// How two texts compare.
pub open spec fn text_place(a: Seq<char>, b: Seq<char>) -> Place {
    if text_before(a, b) {
        Place::Smaller
    } else if text_before(b, a) {
        Place::Larger
    } else {
        Place::Equal
    }
}

/// How two dates compare.
pub open spec fn date_place(a: Date, b: Date) -> Place {
    if a.year < b.year || a.year == b.year && (a.month < b.month || a.month == b.month && a.day
        < b.day) {
        Place::Smaller
    } else if a == b {
        Place::Equal
    } else {
        Place::Larger
    }
}

/// The place of one optional text to another.
pub open spec fn opt_text_place(
    a: Option<Seq<char>>,
    b: Option<Seq<char>>,
    options: SortOptions,
    case_sensitive: bool,
) -> Place {
    placed(
        a is Some,
        b is Some,
        text_place(text_key(a->0, case_sensitive), text_key(b->0, case_sensitive)),
        options,
    )
}

/// The place of one optional date to another.
pub open spec fn opt_date_place(a: Option<Date>, b: Option<Date>, options: SortOptions) -> Place {
    placed(a is Some, b is Some, date_place(a->0, b->0), options)
}

fn place_of(a_some: bool, b_some: bool, values: Place, options: SortOptions) -> (r: Place)
    ensures
        r == placed(a_some, b_some, values, options),
{
    if !a_some && !b_some {
        Place::Equal
    } else if !a_some {
        if options.nulls_first {
            Place::Smaller
        } else {
            Place::Larger
        }
    } else if !b_some {
        if options.nulls_first {
            Place::Larger
        } else {
            Place::Smaller
        }
    } else if options.asc {
        values
    } else {
        values.flip()
    }
}

fn key_of(text: &str, case_sensitive: bool) -> (r: String)
    ensures
        r@ == text_key(text@, case_sensitive),
{
    if case_sensitive {
        text.to_owned()
    } else {
        to_lowercase(text)
    }
}

/// Places two optional texts.
pub fn compare_texts(a: Option<&str>, b: Option<&str>, options: SortOptions, case_sensitive: bool)
    -> (r: Place)
    ensures
        r == opt_text_place(str_view(a), str_view(b), options, case_sensitive),
{
    match (a, b) {
        (Some(x), Some(y)) => {
            let left: String = key_of(x, case_sensitive);
            let right: String = key_of(y, case_sensitive);
            let values: Place = if is_before(left.as_str(), right.as_str()) {
                Place::Smaller
            } else if is_before(right.as_str(), left.as_str()) {
                Place::Larger
            } else {
                Place::Equal
            };
            place_of(true, true, values, options)
        },
        _ => place_of(a.is_some(), b.is_some(), Place::Equal, options),
    }
}

/// Places two optional dates.
pub fn compare_dates(a: Option<Date>, b: Option<Date>, options: SortOptions) -> (r: Place)
    ensures
        r == opt_date_place(a, b, options),
{
    match (a, b) {
        (Some(x), Some(y)) => {
            let values: Place = if x.year < y.year || x.year == y.year && (x.month < y.month
                || x.month == y.month && x.day < y.day) {
                Place::Smaller
            } else if x == y {
                Place::Equal
            } else {
                Place::Larger
            };
            place_of(true, true, values, options)
        },
        _ => place_of(a.is_some(), b.is_some(), Place::Equal, options),
    }
}

/// A text holds a search term.
pub open spec fn holds_term(text: Seq<char>, term: Seq<char>) -> bool {
    exists|i: int| occurs_at(text, term, i)
}

/// An optional text matches a search term. No text matches nothing.
pub open spec fn matches_term(
    text: Option<Seq<char>>,
    term: Seq<char>,
    case_sensitive: bool,
) -> bool {
    text is Some && holds_term(
        text_key(text->0, case_sensitive),
        text_key(term, case_sensitive),
    )
}

fn contains(text: &str, term: &str) -> (r: bool)
    ensures
        r == holds_term(text@, term@),
{
    let s: Vec<char> = chars_of(text);
    let pat: Vec<char> = chars_of(term);
    if pat.len() > s.len() {
        return false;
    }
    let last: usize = s.len() - pat.len();
    let mut i: usize = 0;
    while i <= last
        invariant
            s@ == text@,
            pat@ == term@,
            last + pat.len() == s.len(),
            i <= last + 1,
            last < usize::MAX || i <= last,
            forall|j: int| 0 <= j < i ==> !occurs_at(text@, term@, j),
        decreases last + 1 - i,
    {
        let mut k: usize = 0;
        while k < pat.len() && s[i + k] == pat[k]
            invariant
                i + pat.len() <= s.len(),
                k <= pat.len(),
                forall|m: int| 0 <= m < k ==> s@[i + m] == pat@[m],
            decreases pat.len() - k,
        {
            k = k + 1;
        }
        if k == pat.len() {
            assert(s@.subrange(i as int, i + pat.len()) =~= pat@);
            assert(occurs_at(text@, term@, i as int));
            return true;
        }
        assert(s@.subrange(i as int, i + pat.len())[k as int] != pat@[k as int]);
        if i == last {
            assert forall|j: int| !occurs_at(text@, term@, j) by {}
            return false;
        }
        i = i + 1;
    }
    false
}

/// Whether an optional text matches a search term.
pub fn search_text(text: Option<&str>, term: &str, case_sensitive: bool) -> (r: bool)
    ensures
        r == matches_term(str_view(text), term@, case_sensitive),
{
    match text {
        Some(s) => contains(
            key_of(s, case_sensitive).as_str(),
            key_of(term, case_sensitive).as_str(),
        ),
        None => false,
    }
}

/// How a change of the search term changes what matches.
#[derive(Clone, Copy, Debug, PartialEq, Eq, Structural)]
pub enum FilterChange {
    Different,
    LessStrict,
    MoreStrict,
}

/// How a change of the length of the search term is taken: a longer term only
/// needs to look through what still matches, a shorter one through what does
/// not match yet.
pub fn filter_change(old_len: usize, new_len: usize) -> (r: FilterChange)
    ensures
        r == (if new_len > old_len {
            FilterChange::MoreStrict
        } else if new_len < old_len {
            FilterChange::LessStrict
        } else {
            FilterChange::Different
        }),
{
    if new_len > old_len {
        FilterChange::MoreStrict
    } else if new_len < old_len {
        FilterChange::LessStrict
    } else {
        FilterChange::Different
    }
}

/// The icon for a sort direction.
pub fn sort_direction_icon(direction: &str) -> (r: &'static str)
    ensures
        r@ == (if direction@ == "asc"@ {
            "view-sort-ascending-symbolic"@
        } else {
            "view-sort-descending-symbolic"@
        }),
{
    if same(direction, "asc") {
        "view-sort-ascending-symbolic"
    } else {
        "view-sort-descending-symbolic"
    }
}

/// The other sort direction.
pub fn toggled_direction(direction: &str) -> (r: &'static str)
    ensures
        r@ == (if direction@ == "asc"@ {
            "desc"@
        } else {
            "asc"@
        }),
{
    if same(direction, "asc") {
        "desc"
    } else {
        "asc"
    }
}

/// Where all items have a value, turning the direction round turns the list
/// round: it need not be sorted again.
pub proof fn the_other_direction_is_the_inverse(values: Place, nulls_first: bool)
    ensures
        placed(true, true, values, SortOptions { nulls_first, asc: true }) == placed(
            true,
            true,
            values,
            SortOptions { nulls_first, asc: false },
        ).flipped(),
{
}

/// Items without a value stay at their end, whatever the direction.
pub proof fn nulls_do_not_move(values: Place, nulls_first: bool, asc: bool)
    ensures
        placed(false, true, values, SortOptions { nulls_first, asc }) == (if nulls_first {
            Place::Smaller
        } else {
            Place::Larger
        }),
        placed(true, false, values, SortOptions { nulls_first, asc }) == (if nulls_first {
            Place::Larger
        } else {
            Place::Smaller
        }),
{
}

/// Placing texts is a total order: swapping the items flips the place, and the
/// order is transitive.
pub proof fn text_places_are_an_order(
    a: Option<Seq<char>>,
    b: Option<Seq<char>>,
    c: Option<Seq<char>>,
    options: SortOptions,
    case_sensitive: bool,
)
    ensures
        opt_text_place(a, b, options, case_sensitive) == opt_text_place(
            b,
            a,
            options,
            case_sensitive,
        ).flipped(),
        opt_text_place(a, b, options, case_sensitive) !is Larger && opt_text_place(
            b,
            c,
            options,
            case_sensitive,
        ) !is Larger ==> opt_text_place(a, c, options, case_sensitive) !is Larger,
{
    let x = text_key(a->0, case_sensitive);
    let y = text_key(b->0, case_sensitive);
    let z = text_key(c->0, case_sensitive);
    text_order_is_total(x, y, z);
    text_order_is_total(y, x, z);
    text_order_is_total(x, z, y);
    text_order_is_total(z, y, x);
    text_order_is_total(y, z, x);
}

/// Placing dates is a total order: swapping the items flips the place, and the
/// order is transitive.
pub proof fn date_places_are_an_order(
    a: Option<Date>,
    b: Option<Date>,
    c: Option<Date>,
    options: SortOptions,
)
    ensures
        opt_date_place(a, b, options) == opt_date_place(b, a, options).flipped(),
        opt_date_place(a, b, options) !is Larger && opt_date_place(b, c, options) !is Larger
            ==> opt_date_place(a, c, options) !is Larger,
{
}

/// A term that goes on from a shorter one matches nothing that the shorter one
/// does not match: it is enough to look through what still matches.
pub proof fn a_longer_term_is_more_strict(
    text: Option<Seq<char>>,
    shorter: Seq<char>,
    longer: Seq<char>,
    case_sensitive: bool,
)
    requires
        text_key(shorter, case_sensitive).is_prefix_of(text_key(longer, case_sensitive)),
    ensures
        matches_term(text, longer, case_sensitive) ==> matches_term(text, shorter, case_sensitive),
{
    if matches_term(text, longer, case_sensitive) {
        let hay = text_key(text->0, case_sensitive);
        let long = text_key(longer, case_sensitive);
        let short = text_key(shorter, case_sensitive);
        let i = choose|i: int| occurs_at(hay, long, i);
        assert(hay.subrange(i, i + short.len()) =~= long.subrange(0, short.len() as int));
        assert(occurs_at(hay, short, i));
    }
}

/// The later day of two is placed behind the earlier one: two dates are placed as
/// the numbers that their year, month and day make up, the other way round where
/// the order descends.
pub proof fn days_are_placed_as_they_come(a: Date, b: Date, options: SortOptions, place: Place)
    requires
        call_ensures(compare_dates, (Some(a), Some(b), options), place),
        1 <= a.month <= 12,
        1 <= b.month <= 12,
        1 <= a.day <= 31,
        1 <= b.day <= 31,
    ensures
        ({
            let left = 10000 * a.year + 100 * a.month + a.day;
            let right = 10000 * b.year + 100 * b.month + b.day;
            &&& place == Place::Equal <==> left == right
            &&& place == Place::Smaller <==> (if options.asc { left < right } else { left > right })
            &&& place == Place::Larger <==> (if options.asc { left > right } else { left < right })
        }),
{
}

/// Of two dates, the year counts before the month, and the month before the day,
/// be there such a day or not.
pub proof fn years_count_before_months(a: Date, b: Date, nulls_first: bool, place: Place)
    requires
        call_ensures(
            compare_dates,
            (Some(a), Some(b), SortOptions { nulls_first, asc: true }),
            place,
        ),
    ensures
        a.year < b.year ==> place == Place::Smaller,
        a.year > b.year ==> place == Place::Larger,
        a.year == b.year && a.month < b.month ==> place == Place::Smaller,
        a.year == b.year && a.month > b.month ==> place == Place::Larger,
        a.year == b.year && a.month == b.month && a.day < b.day ==> place == Place::Smaller,
        a.year == b.year && a.month == b.month && a.day > b.day ==> place == Place::Larger,
        a == b ==> place == Place::Equal,
{
}

/// An item without a date stands at the end that the settings give it, whatever
/// the date of the other one and whatever the direction.
pub proof fn dateless_items_stand_at_their_end(
    date: Date,
    options: SortOptions,
    without: Place,
    with: Place,
    both: Place,
)
    requires
        call_ensures(compare_dates, (None, Some(date), options), without),
        call_ensures(compare_dates, (Some(date), None, options), with),
        call_ensures(compare_dates, (None, None, options), both),
    ensures
        options.nulls_first ==> without == Place::Smaller && with == Place::Larger,
        !options.nulls_first ==> without == Place::Larger && with == Place::Smaller,
        both == Place::Equal,
{
}

/// Where case counts, two texts are placed by the order of strings, the other way
/// round where the order descends.
pub proof fn texts_are_placed_by_their_order(
    a: &str,
    b: &str,
    options: SortOptions,
    place: Place,
    a_first: bool,
    b_first: bool,
)
    requires
        call_ensures(compare_texts, (Some(a), Some(b), options, true), place),
        call_ensures(is_before, (a, b), a_first),
        call_ensures(is_before, (b, a), b_first),
    ensures
        place == Place::Equal <==> a@ == b@,
        place == Place::Smaller <==> (if options.asc { a_first } else { b_first }),
        place == Place::Larger <==> (if options.asc { b_first } else { a_first }),
{
    text_order_is_total(a@, b@, a@);
    text_order_is_total(b@, a@, b@);
}

/// Where case does not count, two texts are placed as their lower cases are where
/// it does; in particular two texts of one lower case are placed together.
pub proof fn case_is_folded_before_placing(
    a: &str,
    b: &str,
    lower_a: &str,
    lower_b: &str,
    options: SortOptions,
    folded: Place,
    lower: Place,
)
    requires
        lower_a@ == lowercase(a@),
        lower_b@ == lowercase(b@),
        call_ensures(compare_texts, (Some(a), Some(b), options, false), folded),
        call_ensures(compare_texts, (Some(lower_a), Some(lower_b), options, true), lower),
    ensures
        folded == lower,
        lowercase(a@) == lowercase(b@) ==> folded == Place::Equal,
{
    text_order_is_total(lower_a@, lower_b@, lower_a@);
}

/// An item without a text stands at the end that the settings give it, whatever
/// the text of the other one and whatever the direction.
pub proof fn textless_items_stand_at_their_end(
    text: &str,
    options: SortOptions,
    case_sensitive: bool,
    without: Place,
    with: Place,
    both: Place,
)
    requires
        call_ensures(compare_texts, (None, Some(text), options, case_sensitive), without),
        call_ensures(compare_texts, (Some(text), None, options, case_sensitive), with),
        call_ensures(compare_texts, (None, None, options, case_sensitive), both),
    ensures
        options.nulls_first ==> without == Place::Smaller && with == Place::Larger,
        !options.nulls_first ==> without == Place::Larger && with == Place::Smaller,
        both == Place::Equal,
{
}

/// A search that heeds case finds exactly the texts that hold the term: those
/// that are made of something, the term, and something.
pub proof fn a_search_finds_the_term(
    text: &str,
    term: &str,
    before: Seq<char>,
    after: Seq<char>,
    found: bool,
)
    requires
        call_ensures(search_text, (Some(text), term, true), found),
    ensures
        text@ == before + term@ + after ==> found,
        found ==> exists|i: int|
            0 <= i && i + term@.len() <= text@.len() && #[trigger] text@.subrange(
                i,
                i + term@.len(),
            ) == term@,
{
    if text@ == before + term@ + after {
        let i = before.len() as int;
        assert(text@.subrange(i, i + term@.len()) =~= term@);
        assert(occurs_at(text@, term@, i));
    }
    if found {
        let i = choose|i: int| occurs_at(text@, term@, i);
        assert(text@.subrange(i, i + term@.len()) == term@);
    }
}

/// A search that does not heed case finds what one that does finds in the lower
/// case of the text, for the lower case of the term. No text has nothing to find.
pub proof fn a_search_may_fold_case(
    text: &str,
    term: &str,
    lower_text: &str,
    lower_term: &str,
    folded: bool,
    lower: bool,
    case_sensitive: bool,
    nowhere: bool,
)
    requires
        lower_text@ == lowercase(text@),
        lower_term@ == lowercase(term@),
        call_ensures(search_text, (Some(text), term, false), folded),
        call_ensures(search_text, (Some(lower_text), lower_term, true), lower),
        call_ensures(search_text, (None, term, case_sensitive), nowhere),
    ensures
        folded == lower,
        !nowhere,
{
}

/// The filter is told to look through what still matches exactly if the term has
/// grown, and through what does not match yet exactly if it has shrunk.
pub proof fn filters_follow_the_length_of_the_term(
    old_len: usize,
    new_len: usize,
    change: FilterChange,
)
    requires
        call_ensures(filter_change, (old_len, new_len), change),
    ensures
        change == FilterChange::MoreStrict <==> new_len > old_len,
        change == FilterChange::LessStrict <==> new_len < old_len,
        change == FilterChange::Different <==> new_len == old_len,
{
}

/// Toggling the direction twice gives it back, and the icon always changes with
/// the direction.
pub proof fn toggling_turns_the_direction_round(
    direction: &str,
    toggled: &'static str,
    again: &'static str,
    icon: &'static str,
    toggled_icon: &'static str,
)
    requires
        direction@ == "asc"@ || direction@ == "desc"@,
        call_ensures(toggled_direction, (direction,), toggled),
        call_ensures(toggled_direction, (toggled,), again),
        call_ensures(sort_direction_icon, (direction,), icon),
        call_ensures(sort_direction_icon, (toggled,), toggled_icon),
    ensures
        toggled@ != direction@,
        again@ == direction@,
        toggled@ == "asc"@ || toggled@ == "desc"@,
        icon@ != toggled_icon@,
        icon@ == "view-sort-ascending-symbolic"@ <==> direction@ == "asc"@,
        toggled_icon@ == "view-sort-ascending-symbolic"@ <==> toggled@ == "asc"@,
        icon@ == "view-sort-descending-symbolic"@ <==> direction@ == "desc"@,
{
    reveal_strlit("asc");
    reveal_strlit("desc");
    reveal_strlit("view-sort-ascending-symbolic");
    reveal_strlit("view-sort-descending-symbolic");
    assert("view-sort-ascending-symbolic"@.len() == 28);
    assert("view-sort-descending-symbolic"@.len() == 29);
    assert("asc"@.len() == 3);
    assert("desc"@.len() == 4);
}

/// Flipping a place twice gives it back, and only equal items keep theirs.
pub proof fn flipping_turns_places_round(place: Place, flipped: Place, again: Place)
    requires
        call_ensures(Place::flip, (place,), flipped),
        call_ensures(Place::flip, (flipped,), again),
    ensures
        again == place,
        flipped == place <==> place == Place::Equal,
        place == Place::Smaller ==> flipped == Place::Larger,
{
}

} // verus!
