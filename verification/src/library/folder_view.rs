//! The folder view: one list whose contents change while browsing.
//!
//! Entering a folder appends it to the history, after dropping what lies ahead
//! of the current position. Going back and forward only moves the position.
use crate::common::INodeType;
use crate::library::sorting::{
    compare_texts, filter_change, matches_term, opt_text_place, search_text, FilterChange, Place,
    SortOptions,
};
use crate::text::{as_opt_str, join, joined, opt_view, same, views};
use vstd::prelude::*;

verus! {

/// Whether the navigation buttons react.
#[derive(Clone, Copy, Debug, PartialEq, Eq, Structural)]
pub struct NavButtons {
    pub back: bool,
    pub forward: bool,
}

/// The state of the view.
#[derive(Debug)]
pub struct FolderView {
    history: Vec<String>,
    curr_idx: usize,
    last_search_len: usize,
}

impl FolderView {
    /// The folders that were entered, from the root down.
    pub closed spec fn trail(self) -> Seq<Seq<char>> {
        views(self.history@)
    }

    /// How many of them lead to the current folder; 0 is the root.
    pub closed spec fn depth(self) -> int {
        self.curr_idx as int
    }

    /// The length of the last search term.
    pub closed spec fn term_len(self) -> int {
        self.last_search_len as int
    }

    /// The position lies in the history.
    pub open spec fn wf(self) -> bool {
        0 <= self.depth() <= self.trail().len()
    }

    /// The folders that lead to the current one.
    pub open spec fn folders(self) -> Seq<Seq<char>> {
        self.trail().take(self.depth())
    }

    /// The path to ask the server for.
    pub open spec fn uri(self) -> Seq<char> {
        joined(self.folders(), "/"@)
    }

    /// What the buttons are to be: back leads out of any folder but the root,
    /// forward into one that was left.
    pub open spec fn buttons(self) -> NavButtons {
        NavButtons { back: self.depth() > 0, forward: self.depth() < self.trail().len() }
    }

    /// A view at the root.
    pub fn new() -> (r: FolderView)
        ensures
            r.wf(),
            r.trail().len() == 0,
            r.depth() == 0,
            r.term_len() == 0,
    {
        FolderView { history: Vec::new(), curr_idx: 0, last_search_len: 0 }
    }

    /// Back to the root with no history, as on a new connection. Returns the
    /// path to load.
    pub fn reset(&mut self) -> (r: String)
        ensures
            final(self).wf(),
            final(self).trail().len() == 0,
            final(self).depth() == 0,
            final(self).term_len() == old(self).term_len(),
            r@.len() == 0,
    {
        self.history = Vec::new();
        self.curr_idx = 0;
        String::new()
    }

    /// The path of the current folder as it is shown.
    pub fn get_path(&self) -> (r: String)
        requires
            self.wf(),
        ensures
            r@ == (if self.depth() > 0 {
                self.uri()
            } else {
                "Library Root"@
            }),
    {
        if self.history.len() > 0 && self.curr_idx > 0 {
            join(&self.history, self.curr_idx, "/")
        } else {
            "Library Root".to_owned()
        }
    }

    /// The path to load the contents of the current folder from. That of the
    /// root is empty.
    pub fn navigate(&self) -> (r: String)
        requires
            self.wf(),
        ensures
            r@ == self.uri(),
            self.depth() == 0 ==> r@.len() == 0,
    {
        join(&self.history, self.curr_idx, "/")
    }

    /// Whether the navigation buttons react.
    pub fn update_nav_btn_sensitivity(&self) -> (r: NavButtons)
        ensures
            r == self.buttons(),
    {
        NavButtons { back: self.curr_idx > 0, forward: self.curr_idx < self.history.len() }
    }

    /// Goes up one folder. Returns the path to load, if there was one.
    pub fn move_back(&mut self) -> (r: Option<String>)
        requires
            old(self).wf(),
        ensures
            final(self).wf(),
            final(self).trail() == old(self).trail(),
            final(self).term_len() == old(self).term_len(),
            match r {
                Some(path) => old(self).depth() > 0 && final(self).depth() == old(self).depth()
                    - 1 && path@ == final(self).uri(),
                None => old(self).depth() == 0 && final(self).depth() == 0,
            },
    {
        if self.curr_idx > 0 {
            self.curr_idx = self.curr_idx - 1;
            Some(self.navigate())
        } else {
            None
        }
    }

    /// Goes back down one folder. Returns the path to load, if there was one.
    pub fn move_forward(&mut self) -> (r: Option<String>)
        requires
            old(self).wf(),
        ensures
            final(self).wf(),
            final(self).trail() == old(self).trail(),
            final(self).term_len() == old(self).term_len(),
            match r {
                Some(path) => old(self).depth() < old(self).trail().len() && final(self).depth()
                    == old(self).depth() + 1 && path@ == final(self).uri(),
                None => old(self).depth() == old(self).trail().len() && final(self).depth()
                    == old(self).depth(),
            },
    {
        if self.curr_idx < self.history.len() {
            self.curr_idx = self.curr_idx + 1;
            Some(self.navigate())
        } else {
            None
        }
    }

    /// A click on a row. A folder is entered; anything else, and what has no
    /// name, does nothing. Returns the path to load.
    pub fn on_inode_clicked(&mut self, name: Option<&str>, inode_type: INodeType) -> (r: Option<
        String,
    >)
        requires
            old(self).wf(),
        ensures
            final(self).wf(),
            final(self).term_len() == old(self).term_len(),
            match r {
                Some(path) => {
                    &&& name matches Some(folder)
                    &&& inode_type == INodeType::Folder
                    &&& final(self).trail() == old(self).folders().push(folder@)
                    &&& final(self).depth() == final(self).trail().len()
                    &&& path@ == joined(old(self).folders().push(folder@), "/"@)
                },
                None => (name is None || inode_type != INodeType::Folder) && *final(self) == *old(
                    self,
                ),
            },
    {
        match name {
            Some(folder) => match inode_type {
                INodeType::Folder => {
                    if self.curr_idx < self.history.len() {
                        self.history.truncate(self.curr_idx);
                    }
                    self.history.push(folder.to_owned());
                    assert(views(self.history@) =~= old(self).folders().push(folder@));
                    let path: Option<String> = self.move_forward();
                    assert(self.folders() =~= views(self.history@));
                    path
                },
                _ => None,
            },
            None => None,
        }
    }

    /// Takes note of the length of a new search term.
    pub fn on_search_changed(&mut self, new_len: usize) -> (r: FilterChange)
        ensures
            final(self).trail() == old(self).trail(),
            final(self).depth() == old(self).depth(),
            final(self).term_len() == new_len,
            r == (if new_len > old(self).term_len() {
                FilterChange::MoreStrict
            } else if new_len < old(self).term_len() {
                FilterChange::LessStrict
            } else {
                FilterChange::Different
            }),
    {
        let old_len: usize = self.last_search_len;
        self.last_search_len = new_len;
        filter_change(old_len, new_len)
    }
}

/// What the rows are sorted by.
#[derive(Clone, Copy, Debug, PartialEq, Eq, Structural)]
pub enum FolderSort {
    Filename,
    LastModified,
}

/// The number of a sort mode in the settings.
pub open spec fn folder_sort_number(mode: FolderSort) -> int {
    match mode {
        FolderSort::Filename => 6,
        FolderSort::LastModified => 7,
    }
}

/// The sort mode with this number in the settings.
pub fn folder_sort_numbered(number: i32) -> (r: FolderSort)
    requires
        number == 6 || number == 7,
    ensures
        folder_sort_number(r) == number,
{
    match number {
        6 => FolderSort::Filename,
        _ => FolderSort::LastModified,
    }
}

/// The text for a sort mode by its name in the settings.
pub fn folder_sort_label(name: &str) -> (r: &'static str)
    requires
        name@ == "filename"@ || name@ == "last-modified"@,
    ensures
        r@ == (if name@ == "filename"@ {
            "Name"@
        } else {
            "Last modified"@
        }),
{
    if same(name, "filename") {
        "Name"
    } else {
        "Last modified"
    }
}

/// What a row is sorted and searched by.
#[derive(Debug)]
pub struct INodeKeys {
    pub uri: String,
    pub last_modified: Option<String>,
}

/// The place of one row to another.
pub open spec fn row_place(
    a: INodeKeys,
    b: INodeKeys,
    mode: FolderSort,
    options: SortOptions,
    case_sensitive: bool,
) -> Place {
    match mode {
        FolderSort::Filename => opt_text_place(
            Some(a.uri@),
            Some(b.uri@),
            options,
            case_sensitive,
        ),
        FolderSort::LastModified => opt_text_place(
            opt_view(a.last_modified),
            opt_view(b.last_modified),
            options,
            case_sensitive,
        ),
    }
}

/// Places two rows.
pub fn compare_rows(
    a: &INodeKeys,
    b: &INodeKeys,
    mode: FolderSort,
    options: SortOptions,
    case_sensitive: bool,
) -> (r: Place)
    ensures
        r == row_place(*a, *b, mode, options, case_sensitive),
{
    match mode {
        FolderSort::Filename => compare_texts(
            Some(a.uri.as_str()),
            Some(b.uri.as_str()),
            options,
            case_sensitive,
        ),
        FolderSort::LastModified => compare_texts(
            as_opt_str(&a.last_modified),
            as_opt_str(&b.last_modified),
            options,
            case_sensitive,
        ),
    }
}

/// Whether a row matches the search term. An empty term matches all.
pub fn row_matches(uri: &str, term: &str, case_sensitive: bool) -> (r: bool)
    ensures
        r == (term@.len() == 0 || matches_term(Some(uri@), term@, case_sensitive)),
{
    term.unicode_len() == 0 || search_text(Some(uri), term, case_sensitive)
}

/// Going back right after entering a folder leads to where it was entered.
pub proof fn backing_out_reverts_a_click(
    before: FolderView,
    entered: FolderView,
    after: FolderView,
    name: Seq<char>,
)
    requires
        before.wf(),
        entered.trail() == before.folders().push(name),
        entered.depth() == entered.trail().len(),
        after.trail() == entered.trail(),
        after.depth() == entered.depth() - 1,
    ensures
        after.uri() == before.uri(),
        after.buttons().forward,
{
    assert(views(entered.history@).len() == entered.history@.len());
    assert(after.folders() =~= before.folders());
}

/// With an empty history no button reacts.
pub proof fn no_history_no_buttons(view: FolderView)
    requires
        view.wf(),
        view.trail().len() == 0,
    ensures
        view.buttons() == (NavButtons { back: false, forward: false }),
{
}

/// A view begins at the root: it loads the empty path, and no button reacts.
pub proof fn browsing_begins_at_the_root(
    view: FolderView,
    path: String,
    shown: String,
    buttons: NavButtons,
)
    requires
        call_ensures(FolderView::new, (), view),
        call_ensures(FolderView::navigate, (&view,), path),
        call_ensures(FolderView::get_path, (&view,), shown),
        call_ensures(FolderView::update_nav_btn_sensitivity, (&view,), buttons),
    ensures
        path@ == Seq::<char>::empty(),
        shown@ == "Library Root"@,
        !buttons.back,
        !buttons.forward,
{
    assert(path@ =~= Seq::<char>::empty());
}

/// After a reset the view is at the root again, whatever it was before.
pub proof fn a_reset_leads_to_the_root(
    view: &mut FolderView,
    loaded: String,
    path: String,
    shown: String,
    buttons: NavButtons,
)
    requires
        call_ensures(FolderView::reset, (view,), loaded),
        call_ensures(FolderView::navigate, (final(view),), path),
        call_ensures(FolderView::get_path, (final(view),), shown),
        call_ensures(FolderView::update_nav_btn_sensitivity, (final(view),), buttons),
    ensures
        loaded@ == Seq::<char>::empty(),
        path@ == Seq::<char>::empty(),
        shown@ == "Library Root"@,
        !buttons.back,
        !buttons.forward,
{
    assert(loaded@ =~= Seq::<char>::empty());
    assert(path@ =~= Seq::<char>::empty());
}

/// A click on a folder leads to the path of the folder around it, a slash and the
/// folder's name, or to the name alone at the root. From there one can go back,
/// and no longer forward.
pub proof fn a_click_leads_into_the_folder(
    view: &mut FolderView,
    name: &str,
    around: String,
    before: NavButtons,
    loaded: Option<String>,
    after: NavButtons,
    path: String,
    shown: String,
)
    requires
        old(view).wf(),
        call_ensures(FolderView::navigate, (old(view),), around),
        call_ensures(FolderView::update_nav_btn_sensitivity, (old(view),), before),
        call_ensures(
            FolderView::on_inode_clicked,
            (view, Some(name), INodeType::Folder),
            loaded,
        ),
        call_ensures(FolderView::update_nav_btn_sensitivity, (final(view),), after),
        call_ensures(FolderView::navigate, (final(view),), path),
        call_ensures(FolderView::get_path, (final(view),), shown),
    ensures
        loaded is Some,
        loaded->0@ == (if before.back { around@ + "/"@ + name@ } else { name@ }),
        path@ == loaded->0@,
        shown@ == path@,
        after.back,
        !after.forward,
{
    let folders = old(view).folders();
    assert(folders.push(name@).drop_last() =~= folders);
    assert(final(view).folders() =~= folders.push(name@));
}

/// A click on anything but a folder, or on what has no name, leads nowhere.
pub proof fn only_folders_are_entered(
    view: &mut FolderView,
    name: Option<&str>,
    inode_type: INodeType,
    loaded: Option<String>,
)
    requires
        name is None || inode_type != INodeType::Folder,
        call_ensures(FolderView::on_inode_clicked, (view, name, inode_type), loaded),
    ensures
        loaded is None,
        *final(view) == *old(view),
{
}

/// Going back right after entering a folder loads the folder around it again, and
/// going forward from there the folder that was entered.
pub proof fn back_and_forward_retrace_a_click(
    click: &mut FolderView,
    back: &mut FolderView,
    forward: &mut FolderView,
    name: &str,
    around: String,
    entered: Option<String>,
    left: Option<String>,
    again: Option<String>,
    buttons: NavButtons,
)
    requires
        old(click).wf(),
        *old(back) == *final(click),
        *old(forward) == *final(back),
        call_ensures(FolderView::navigate, (old(click),), around),
        call_ensures(
            FolderView::on_inode_clicked,
            (click, Some(name), INodeType::Folder),
            entered,
        ),
        call_ensures(FolderView::move_back, (back,), left),
        call_ensures(FolderView::update_nav_btn_sensitivity, (final(back),), buttons),
        call_ensures(FolderView::move_forward, (forward,), again),
    ensures
        left is Some && left->0@ == around@,
        buttons.forward,
        again is Some && entered is Some && again->0@ == entered->0@,
{
    assert(final(back).folders() =~= old(click).folders());
    assert(final(forward).folders() =~= final(click).folders());
    assert(final(click).folders() =~= old(click).folders().push(name@));
}

/// The buttons react exactly if there is somewhere to go, and then what is loaded
/// is what the view shows afterwards.
pub proof fn buttons_react_if_they_lead_somewhere(
    back: &mut FolderView,
    forward: &mut FolderView,
    buttons: NavButtons,
    up: Option<String>,
    down: Option<String>,
    up_path: String,
    down_path: String,
)
    requires
        old(back).wf(),
        *old(forward) == *old(back),
        call_ensures(FolderView::update_nav_btn_sensitivity, (old(back),), buttons),
        call_ensures(FolderView::move_back, (back,), up),
        call_ensures(FolderView::move_forward, (forward,), down),
        call_ensures(FolderView::navigate, (final(back),), up_path),
        call_ensures(FolderView::navigate, (final(forward),), down_path),
    ensures
        up is Some <==> buttons.back,
        down is Some <==> buttons.forward,
        up is Some ==> up->0@ == up_path@,
        down is Some ==> down->0@ == down_path@,
{
}

/// The path is shown as it is loaded, but for the root, which has a name.
pub proof fn the_path_is_shown_as_it_is_loaded(
    view: &FolderView,
    path: String,
    shown: String,
    buttons: NavButtons,
)
    requires
        call_ensures(FolderView::navigate, (view,), path),
        call_ensures(FolderView::get_path, (view,), shown),
        call_ensures(FolderView::update_nav_btn_sensitivity, (view,), buttons),
        view.wf(),
    ensures
        buttons.back ==> shown@ == path@,
        !buttons.back ==> shown@ == "Library Root"@ && path@.len() == 0,
{
}

/// Rows are placed by their names or by when they were modified, as those texts
/// are placed, and by nothing else.
pub proof fn rows_are_placed_by_one_key(
    a: &INodeKeys,
    b: &INodeKeys,
    mode: FolderSort,
    options: SortOptions,
    case_sensitive: bool,
    place: Place,
    name_a: &str,
    name_b: &str,
    by_name: Place,
    time_a: Option<&str>,
    time_b: Option<&str>,
    by_time: Place,
)
    requires
        name_a@ == a.uri@,
        name_b@ == b.uri@,
        call_ensures(as_opt_str, (&a.last_modified,), time_a),
        call_ensures(as_opt_str, (&b.last_modified,), time_b),
        call_ensures(compare_rows, (a, b, mode, options, case_sensitive), place),
        call_ensures(compare_texts, (Some(name_a), Some(name_b), options, case_sensitive), by_name),
        call_ensures(compare_texts, (time_a, time_b, options, case_sensitive), by_time),
    ensures
        mode == FolderSort::Filename ==> place == by_name,
        mode == FolderSort::LastModified ==> place == by_time,
{
}

/// A search shows the rows whose name holds the term, or all without a term.
pub proof fn rows_are_searched_by_name(
    uri: &str,
    term: &str,
    case_sensitive: bool,
    found: bool,
    in_name: bool,
)
    requires
        call_ensures(row_matches, (uri, term, case_sensitive), found),
        call_ensures(search_text, (Some(uri), term, case_sensitive), in_name),
    ensures
        term@.len() > 0 ==> found == in_name,
        term@.len() == 0 ==> found,
{
}

/// The numbers and names of the settings stand for the name and for the time of
/// the last change.
pub proof fn folder_sorts_are_told_apart(
    by_name: FolderSort,
    by_time: FolderSort,
    filename: &str,
    last_modified: &str,
    name_label: &'static str,
    time_label: &'static str,
)
    requires
        filename@ == "filename"@,
        last_modified@ == "last-modified"@,
        call_ensures(folder_sort_numbered, (6i32,), by_name),
        call_ensures(folder_sort_numbered, (7i32,), by_time),
        call_ensures(folder_sort_label, (filename,), name_label),
        call_ensures(folder_sort_label, (last_modified,), time_label),
    ensures
        by_name == FolderSort::Filename,
        by_time == FolderSort::LastModified,
        name_label@ == "Name"@,
        time_label@ == "Last modified"@,
{
    reveal_strlit("filename");
    reveal_strlit("last-modified");
    assert("filename"@.len() == 8);
    assert("last-modified"@.len() == 13);
}

/// The view compares each new search term with the one before it, and stays where
/// it is.
pub proof fn the_folder_view_remembers_the_last_term(
    first: &mut FolderView,
    len: usize,
    second: &mut FolderView,
    new_len: usize,
    ignored: FilterChange,
    change: FilterChange,
    path: String,
    path_after: String,
)
    requires
        old(first).wf(),
        call_ensures(FolderView::on_search_changed, (first, len), ignored),
        *old(second) == *final(first),
        call_ensures(FolderView::on_search_changed, (second, new_len), change),
        call_ensures(FolderView::navigate, (old(first),), path),
        call_ensures(FolderView::navigate, (final(second),), path_after),
    ensures
        change == FilterChange::MoreStrict <==> new_len > len,
        change == FilterChange::LessStrict <==> new_len < len,
        change == FilterChange::Different <==> new_len == len,
        path_after@ == path@,
{
}

} // verus!
