//! Song selections: what the action buttons say and which songs they act on.
use crate::text::{decimal, decimal_string, join2, join3};
use vstd::prelude::*;

verus! {

/// Selecting nothing means the same as selecting everything.
pub open spec fn covers_all(n_sel: nat, total: nat) -> bool {
    n_sel == 0 || n_sel == total
}

/// `verb all` when everything is meant, else `verb n`.
pub open spec fn action_label(verb: Seq<char>, n_sel: nat, total: nat) -> Seq<char> {
    if covers_all(n_sel, total) {
        verb + " all"@
    } else {
        verb + " "@ + decimal(n_sel)
    }
}

/// The items at the given positions, in that order.
pub open spec fn picked<T>(items: Seq<T>, positions: Seq<u32>) -> Seq<T> {
    positions.map_values(|p: u32| items[p as int])
}

/// The sum of the durations.
pub open spec fn total(durations: Seq<u64>) -> nat
    decreases durations.len(),
{
    if durations.len() == 0 {
        0
    } else {
        total(durations.drop_last()) + durations.last() as nat
    }
}

/// Whether an action covers the whole list.
pub fn selecting_all(n_sel: u32, total: u32) -> (r: bool)
    ensures
        r == covers_all(n_sel as nat, total as nat),
{
    n_sel == 0 || n_sel == total
}

fn label(verb: &str, n_sel: u32, total: u32) -> (r: String)
    ensures
        r@ == action_label(verb@, n_sel as nat, total as nat),
{
    if selecting_all(n_sel, total) {
        join2(verb, " all")
    } else {
        join3(verb, " ", decimal_string(n_sel as u64).as_str())
    }
}

/// The text of the button that replaces the queue.
pub fn play_label(n_sel: u32, total: u32) -> (r: String)
    ensures
        r@ == action_label("Play"@, n_sel as nat, total as nat),
{
    label("Play", n_sel, total)
}

/// The text of the button that appends to the queue.
pub fn queue_label(n_sel: u32, total: u32) -> (r: String)
    ensures
        r@ == action_label("Queue"@, n_sel as nat, total as nat),
{
    label("Queue", n_sel, total)
}

/// The text of the menu entry that queues right behind the current song.
pub fn queue_next_label(n_sel: u32, total: u32) -> (r: String)
    ensures
        r@ == action_label("Queue"@, n_sel as nat, total as nat) + " next"@,
{
    join2(queue_label(n_sel, total).as_str(), " next")
}

/// The items at the selected positions.
pub fn pick<T: Copy>(items: &Vec<T>, positions: &Vec<u32>) -> (r: Vec<T>)
    requires
        forall|i: int| 0 <= i < positions.len() ==> (#[trigger] positions@[i]) < items.len(),
    ensures
        r@ == picked(items@, positions@),
{
    let mut out: Vec<T> = Vec::new();
    for i in 0..positions.len()
        invariant
            forall|i: int| 0 <= i < positions.len() ==> (#[trigger] positions@[i]) < items.len(),
            out@ == picked(items@, positions@.take(i as int)),
    {
        out.push(items[positions[i] as usize]);
        assert(picked(items@, positions@.take(i + 1)) =~= picked(
            items@,
            positions@.take(i as int),
        ).push(items@[positions@[i as int] as int]));
    }
    assert(positions@.take(positions.len() as int) =~= positions@);
    out
}

proof fn total_grows(durations: Seq<u64>, n: int)
    requires
        0 <= n <= durations.len(),
    ensures
        total(durations.take(n)) <= total(durations),
    decreases durations.len(),
{
    if n < durations.len() {
        total_grows(durations.drop_last(), n);
        assert(durations.drop_last().take(n) =~= durations.take(n));
    } else {
        assert(durations.take(n) =~= durations);
    }
}

/// The running time of a song list, in seconds.
pub fn total_duration(durations: &Vec<u64>) -> (r: u64)
    requires
        total(durations@) <= u64::MAX,
    ensures
        r == total(durations@),
{
    let mut sum: u64 = 0;
    for i in 0..durations.len()
        invariant
            total(durations@) <= u64::MAX,
            sum == total(durations@.take(i as int)),
    {
        proof {
            total_grows(durations@, i + 1);
            assert(durations@.take(i + 1).drop_last() =~= durations@.take(i as int));
        }
        sum = sum + durations[i];
    }
    assert(durations@.take(durations.len() as int) =~= durations@);
    sum
}

/// The labels say "all" exactly if no item is selected or every one is, and the
/// number of selected items else; the verb tells playing from queueing.
pub proof fn labels_say_how_much(
    n_sel: u32,
    total: u32,
    all: bool,
    play: String,
    queue: String,
    next: String,
    number: String,
)
    requires
        call_ensures(selecting_all, (n_sel, total), all),
        call_ensures(play_label, (n_sel, total), play),
        call_ensures(queue_label, (n_sel, total), queue),
        call_ensures(queue_next_label, (n_sel, total), next),
        call_ensures(decimal_string, (n_sel as u64,), number),
    ensures
        all <==> n_sel == 0 || n_sel == total,
        n_sel == 0 || n_sel == total ==> play@ == "Play"@ + " all"@ && queue@ == "Queue"@
            + " all"@,
        n_sel != 0 && n_sel != total ==> play@ == "Play"@ + " "@ + number@ && queue@ == "Queue"@
            + " "@ + number@,
        next@ == queue@ + " next"@,
{
}

/// The picked items are those at the given positions, one for each, in the order
/// of the positions.
pub proof fn items_are_picked_by_position<T: Copy>(
    items: &Vec<T>,
    positions: &Vec<u32>,
    r: Vec<T>,
    i: int,
)
    requires
        call_ensures(pick::<T>, (items, positions), r),
        0 <= i < positions@.len(),
    ensures
        r@.len() == positions@.len(),
        r@[i] == items@[positions@[i] as int],
{
}

/// One more song adds its own duration to the running time; no songs take no time.
pub proof fn durations_add_up(
    durations: &Vec<u64>,
    more: &Vec<u64>,
    extra: u64,
    sum: u64,
    more_sum: u64,
)
    requires
        call_ensures(total_duration, (durations,), sum),
        call_ensures(total_duration, (more,), more_sum),
        more@ == durations@.push(extra),
    ensures
        more_sum == sum + extra,
        durations@.len() == 0 ==> sum == 0,
{
    assert(more@.drop_last() =~= durations@);
}

} // verus!
