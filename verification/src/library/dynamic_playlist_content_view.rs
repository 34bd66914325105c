//! One dynamic playlist: when to resolve its rules anew, and where to save it.
use crate::text::{decimal, decimal_string, join2, same};
use vstd::prelude::*;

verus! {

/// How often a dynamic playlist refreshes itself.
#[derive(Clone, Copy, Debug, PartialEq, Eq, Structural)]
pub enum AutoRefresh {
    Never,
    Hourly,
    Daily,
    Weekly,
    Monthly,
    Yearly,
}

impl AutoRefresh {
    /// The seconds between two refreshes.
    pub open spec fn interval(self) -> int {
        match self {
            AutoRefresh::Never => i64::MAX as int,
            AutoRefresh::Hourly => 3600,
            AutoRefresh::Daily => 86400,
            AutoRefresh::Weekly => 86400 * 7int,
            AutoRefresh::Monthly => 86400 * 30int,
            AutoRefresh::Yearly => 86400 * 365int,
        }
    }

    /// The seconds between two refreshes.
    pub fn seconds(self) -> (r: i64)
        ensures
            r == self.interval(),
    {
        match self {
            AutoRefresh::Never => i64::MAX,
            AutoRefresh::Hourly => 3600,
            AutoRefresh::Daily => 86400,
            AutoRefresh::Weekly => 86400 * 7,
            AutoRefresh::Monthly => 86400 * 30,
            AutoRefresh::Yearly => 86400 * 365,
        }
    }
}

/// Where the songs come from.
#[derive(Clone, Copy, Debug, PartialEq, Eq, Structural)]
pub enum BindPlan {
    /// Resolve the rules, as there are no songs yet.
    Refresh,
    /// Resolve the rules, as the songs are too old. The user is told.
    AutoRefresh,
    /// Show the songs as they were resolved last.
    Cached,
}

/// Whether the songs are too old: more than one interval has passed.
pub open spec fn is_due(auto_refresh: AutoRefresh, last_refresh: int, now: int) -> bool {
    auto_refresh != AutoRefresh::Never && now - last_refresh > auto_refresh.interval()
}

/// Where the songs come from when the playlist is shown. Times are in seconds.
pub fn bind_plan(last_refresh: Option<i64>, auto_refresh: AutoRefresh, now: i64) -> (r: BindPlan)
    requires
        last_refresh matches Some(last) ==> i64::MIN <= now - last <= i64::MAX,
    ensures
        r == (match last_refresh {
            None => BindPlan::Refresh,
            Some(last) => if is_due(auto_refresh, last as int, now as int) {
                BindPlan::AutoRefresh
            } else {
                BindPlan::Cached
            },
        }),
{
    match last_refresh {
        None => BindPlan::Refresh,
        Some(last) => if !matches!(auto_refresh, AutoRefresh::Never) && now - last
            > auto_refresh.seconds() {
            BindPlan::AutoRefresh
        } else {
            BindPlan::Cached
        },
    }
}

/// The text on the number of rules.
pub fn rule_count_label(rules: usize, ordering: usize) -> (r: String)
    requires
        rules + ordering <= usize::MAX,
    ensures
        r@ == decimal((rules + ordering) as nat),
{
    decimal_string((rules + ordering) as u64)
}

/// The file name that an export is offered under.
pub fn export_name(name: &str) -> (r: String)
    ensures
        r@ == name@ + ".edp.json"@,
{
    join2(name, ".edp.json")
}

/// Whether an export goes to the file that was picked: there has to be one.
pub fn export_wanted(picked: Option<&str>) -> (r: bool)
    ensures
        r == (picked is Some && picked->0@.len() > 0),
{
    match picked {
        Some(path) => path.unicode_len() > 0,
        None => false,
    }
}

/// Whether the user chose to delete.
pub fn delete_chosen(response: &str) -> (r: bool)
    ensures
        r == (response@ == "delete"@),
{
    same(response, "delete")
}

/// What follows saving the songs as a playlist of their own.
#[derive(Debug)]
pub enum SaveNext {
    GoToPlaylist(String),
    Toast(String),
    Nothing,
}

/// What follows saving. `saved` is the name of the new playlist, if there were
/// songs to save, or nothing after an error.
pub fn save_next(saved: Option<Option<String>>) -> (r: SaveNext)
    ensures
        match saved {
            Some(Some(name)) => r == SaveNext::GoToPlaylist(name),
            Some(None) => r matches SaveNext::Toast(text) && text@
                == "No songs to save as fixed playlist"@,
            None => r is Nothing,
        },
{
    match saved {
        Some(Some(name)) => SaveNext::GoToPlaylist(name),
        Some(None) => SaveNext::Toast("No songs to save as fixed playlist".to_owned()),
        None => SaveNext::Nothing,
    }
}

/// Songs that are due stay due, and a playlist that does not refresh itself is
/// never due.
pub proof fn due_songs_stay_due(auto_refresh: AutoRefresh, last: int, now: int, later: int)
    requires
        now <= later,
    ensures
        is_due(auto_refresh, last, now) ==> is_due(auto_refresh, last, later),
        !is_due(AutoRefresh::Never, last, now),
{
}

/// The songs of a dynamic playlist are resolved if they never were, or if they are
/// older than an hour, a day, seven, thirty or three hundred and sixty-five days, as
/// the playlist has it; else they are shown as they are.
pub proof fn old_songs_are_resolved_anew(
    last: i64,
    auto_refresh: AutoRefresh,
    now: i64,
    never: BindPlan,
    plan: BindPlan,
)
    requires
        i64::MIN <= now - last <= i64::MAX,
        call_ensures(bind_plan, (None, auto_refresh, now), never),
        call_ensures(bind_plan, (Some(last), auto_refresh, now), plan),
    ensures
        never == BindPlan::Refresh,
        plan != BindPlan::Refresh,
        plan == BindPlan::AutoRefresh <==> match auto_refresh {
            AutoRefresh::Never => false,
            AutoRefresh::Hourly => now > last + 60 * 60,
            AutoRefresh::Daily => now > last + 24 * 60 * 60,
            AutoRefresh::Weekly => now > last + 7 * 24 * 60 * 60,
            AutoRefresh::Monthly => now > last + 30 * 24 * 60 * 60,
            AutoRefresh::Yearly => now > last + 365 * 24 * 60 * 60,
        },
{
}

/// The intervals grow from the hour to the year, and never ends never.
pub proof fn intervals_grow(
    hourly: i64,
    daily: i64,
    weekly: i64,
    monthly: i64,
    yearly: i64,
    never: i64,
)
    requires
        call_ensures(AutoRefresh::seconds, (AutoRefresh::Hourly,), hourly),
        call_ensures(AutoRefresh::seconds, (AutoRefresh::Daily,), daily),
        call_ensures(AutoRefresh::seconds, (AutoRefresh::Weekly,), weekly),
        call_ensures(AutoRefresh::seconds, (AutoRefresh::Monthly,), monthly),
        call_ensures(AutoRefresh::seconds, (AutoRefresh::Yearly,), yearly),
        call_ensures(AutoRefresh::seconds, (AutoRefresh::Never,), never),
    ensures
        hourly == 60 * 60,
        daily == 24 * hourly,
        weekly == 7 * daily,
        monthly == 30 * daily,
        yearly == 365 * daily,
        never == i64::MAX,
{
}

/// The rules are counted with those that order the songs.
pub proof fn all_rules_are_counted(
    rules: usize,
    ordering: usize,
    sum: u64,
    label: String,
    number: String,
)
    requires
        rules + ordering == sum,
        call_ensures(rule_count_label, (rules, ordering), label),
        call_ensures(decimal_string, (sum,), number),
    ensures
        label@ == number@,
{
}

/// An export is offered under the name of the playlist, and goes to the file that
/// was picked, if one was.
pub proof fn exports_go_where_they_are_wanted(
    name: &str,
    file: String,
    path: &str,
    wanted: bool,
    nowhere: bool,
)
    requires
        call_ensures(export_name, (name,), file),
        call_ensures(export_wanted, (Some(path),), wanted),
        call_ensures(export_wanted, (None,), nowhere),
    ensures
        file@ == name@ + ".edp.json"@,
        wanted <==> path@.len() > 0,
        !nowhere,
{
}

/// Only the answer that says so deletes. After saving, the new playlist is shown;
/// the user is told if there was nothing to save.
pub proof fn saving_leads_to_the_new_playlist(
    response: &str,
    delete: bool,
    name: String,
    saved: SaveNext,
    empty: SaveNext,
    failed: SaveNext,
)
    requires
        call_ensures(delete_chosen, (response,), delete),
        call_ensures(save_next, (Some(Some(name)),), saved),
        call_ensures(save_next, (Some(None),), empty),
        call_ensures(save_next, (None,), failed),
    ensures
        delete <==> response@ == "delete"@,
        saved == SaveNext::GoToPlaylist(name),
        empty matches SaveNext::Toast(text) && text@ == "No songs to save as fixed playlist"@,
        failed is Nothing,
{
}

} // verus!
