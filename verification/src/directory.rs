//! The pane that lists a directory: a cursor, marks, and the way down into
//! subdirectories and back up.
use vstd::hash_set::StringHashSet;
use vstd::prelude::*;
use crate::copy::{CopyJob, CopyJobView};
use crate::entry::{
    distinct_names, is_sorted, lemma_sorted_listing_is_unique, sort_entries, EntryView, FsEntry,
};
use crate::input::{Command, Input};
use crate::path::clone_path;
use crate::provider::{
    CopyTarget, Drawable, Line, LineView, Provider, Response, ResponseView,
};
use crate::viewport;

verus! {

/// An entry of `entries` is called `name`.
pub open spec fn contains_name(entries: Seq<EntryView>, name: Seq<char>) -> bool {
    exists|i: int| 0 <= i < entries.len() && (#[trigger] entries[i]).name == name
}

/// `at` is the first entry of `entries` that is called `name`.
pub open spec fn is_first_named(entries: Seq<EntryView>, name: Seq<char>, at: int) -> bool {
    &&& 0 <= at < entries.len()
    &&& entries[at].name == name
    &&& forall|j: int| 0 <= j < at ==> (#[trigger] entries[j]).name != name
}

/// The entries of `entries` whose names are in `marked`, in their order.
pub open spec fn marked_among(entries: Seq<EntryView>, marked: Set<Seq<char>>) -> Seq<EntryView>
    decreases entries.len(),
{
    if entries.len() == 0 {
        Seq::empty()
    } else {
        let rest = marked_among(entries.drop_last(), marked);
        if marked.contains(entries.last().name) {
            rest.push(entries.last())
        } else {
            rest
        }
    }
}

/// The mathematical value of a [`Directory`].
pub struct DirectoryView {
    /// The names that lead from the root to the directory.
    pub path: Seq<Seq<char>>,
    /// The children, in the order of the listing.
    pub entries: Seq<EntryView>,
    /// The names of the marked children.
    pub marked: Set<Seq<char>>,
    /// The row the cursor is on; 0 in an empty listing.
    pub selected: nat,
    /// The name on which the cursor is to land once the next listing is in.
    pub anchor: Option<Seq<char>>,
}

impl DirectoryView {
    /// The listing is sorted and can be counted, the cursor is on one of its
    /// rows, and only listed names are marked.
    pub open spec fn wf(self) -> bool {
        &&& is_sorted(self.entries)
        &&& self.entries.len() <= u32::MAX
        &&& self.selected < self.entries.len() || (self.entries.len() == 0 && self.selected == 0)
        &&& forall|name: Seq<char>| #[trigger]
            self.marked.contains(name) ==> contains_name(self.entries, name)
    }

    /// The cursor one row up, unless it is on the first.
    pub open spec fn select_previous(self) -> DirectoryView {
        if self.selected > 0 {
            DirectoryView { selected: (self.selected - 1) as nat, ..self }
        } else {
            self
        }
    }

    /// The cursor one row down, unless it is on the last or the listing is
    /// empty.
    pub open spec fn select_next(self) -> DirectoryView {
        if self.selected + 1 < self.entries.len() {
            DirectoryView { selected: self.selected + 1, ..self }
        } else {
            self
        }
    }

    /// The cursor is on a subdirectory.
    pub open spec fn can_enter(self) -> bool {
        self.selected < self.entries.len() && self.entries[self.selected as int].kind.is_dir()
    }

    /// The pane at the subdirectory under the cursor, without marks, waiting
    /// for its listing.
    pub open spec fn entered(self) -> DirectoryView {
        DirectoryView {
            path: self.path.push(self.entries[self.selected as int].name),
            entries: Seq::empty(),
            marked: Set::empty(),
            selected: 0,
            anchor: None,
        }
    }

    /// The pane at the parent directory, without marks, waiting for its
    /// listing, in which the cursor is to land on the directory just left.
    pub open spec fn ascended(self) -> DirectoryView {
        DirectoryView {
            path: self.path.drop_last(),
            entries: Seq::empty(),
            marked: Set::empty(),
            selected: 0,
            anchor: Some(self.path.last()),
        }
    }

    /// The mark of the entry under the cursor changed: set where it was not,
    /// taken off where it was.
    pub open spec fn toggled(self) -> DirectoryView {
        if self.selected < self.entries.len() {
            let name = self.entries[self.selected as int].name;
            if self.marked.contains(name) {
                DirectoryView { marked: self.marked.remove(name), ..self }
            } else {
                DirectoryView { marked: self.marked.insert(name), ..self }
            }
        } else {
            self
        }
    }

    /// The marked entries, in the order of the listing.
    pub open spec fn marked_list(self) -> Seq<EntryView> {
        marked_among(self.entries, self.marked)
    }

    /// The cursor brought in line with the window `view`: onto the first row
    /// of the window where it was above it, onto the last where it was below;
    /// and with the window at the very top, onto row 0 where the listing is
    /// shorter than a page or the cursor was on the last row of the window.
    pub open spec fn scrolled(self, view: viewport::View) -> DirectoryView {
        let len = self.entries.len();
        if len == 0 {
            self
        } else if self.selected < view.first_line_offset {
            if view.first_line_offset < len {
                DirectoryView { selected: view.first_line_offset as nat, ..self }
            } else {
                DirectoryView { selected: (len - 1) as nat, ..self }
            }
        } else if self.selected >= view.first_line_offset + view.height {
            DirectoryView {
                selected: (view.first_line_offset + view.height - 1) as nat,
                ..self
            }
        } else if view.first_line_offset == 0 && (len < view.height || self.selected
            == view.height - 1) {
            DirectoryView { selected: 0, ..self }
        } else {
            self
        }
    }

    /// The pane after a copy of its marked entries: without marks if the copy
    /// went well, unchanged if it did not.
    pub open spec fn copied(self, success: bool) -> DirectoryView {
        if success {
            DirectoryView { marked: Set::empty(), ..self }
        } else {
            self
        }
    }

    /// `after` is the pane once it has taken `listing`: at the same place,
    /// showing the listing in order, with the marks that are still listed;
    /// the cursor on the first entry of the awaited name, or on row 0 if
    /// there is none, or, where no name was awaited, where it was, as far as
    /// the listing reaches.
    pub open spec fn refreshed(self, listing: Seq<EntryView>, after: DirectoryView) -> bool {
        &&& after.path == self.path
        &&& is_sorted(after.entries)
        &&& after.entries.to_multiset() == listing.to_multiset()
        &&& after.entries.len() == listing.len()
        &&& after.marked == Set::new(
            |name: Seq<char>| self.marked.contains(name) && contains_name(after.entries, name),
        )
        &&& after.anchor is None
        &&& match self.anchor {
            Some(name) => if contains_name(after.entries, name) {
                is_first_named(after.entries, name, after.selected as int)
            } else {
                after.selected == 0
            },
            None => if self.selected < after.entries.len() {
                after.selected == self.selected
            } else if after.entries.len() == 0 {
                after.selected == 0
            } else {
                after.selected == after.entries.len() - 1
            },
        }
    }

    /// The pane and its window after the key `input`, and the answer, where
    /// the other pane takes copies into the directory `target`, or takes none.
    /// The window follows the cursor when a key moves it, and goes to the top
    /// when the pane leaves for another directory. The copy keys ask for a
    /// copy of the marked entries from the pane's directory into `target`.
    pub open spec fn input(
        self,
        input: Input,
        view: viewport::View,
        target: Option<Seq<Seq<char>>>,
    ) -> (DirectoryView, viewport::View, ResponseView) {
        match input.command() {
            Some(Command::SelectNext) => {
                let next = self.select_next();
                (next, view.following(next.selected as u32), ResponseView::Handled)
            },
            Some(Command::SelectPrevious) => {
                let next = self.select_previous();
                (next, view.following(next.selected as u32), ResponseView::Handled)
            },
            Some(Command::Enter) => if self.can_enter() {
                (self.entered(), view.at(0), ResponseView::Reload)
            } else {
                (self, view, ResponseView::Handled)
            },
            Some(Command::Ascend) => if self.path.len() > 0 {
                (self.ascended(), view.at(0), ResponseView::Reload)
            } else {
                (self, view, ResponseView::Handled)
            },
            Some(Command::ToggleMark) => (self.toggled(), view, ResponseView::Handled),
            Some(Command::Copy) => match target {
                Some(to) => (
                    self,
                    view,
                    ResponseView::Copy(CopyJobView::start(self.path, to, self.marked_list())),
                ),
                None => (self, view, ResponseView::Refused),
            },
            _ => (self, view, ResponseView::Unhandled),
        }
    }
}

/// The cursor stays on a row of the listing, and marks stay on listed names,
/// whatever the pane is asked to do: move the cursor, enter a subdirectory,
/// go up to the parent, change a mark, follow the window.
pub proof fn lemma_moves_keep_well_formed(pane: DirectoryView, view: viewport::View)
    requires
        pane.wf(),
        view.wf(),
    ensures
        pane.select_previous().wf(),
        pane.select_next().wf(),
        pane.entered().wf(),
        pane.ascended().wf(),
        pane.toggled().wf(),
        pane.scrolled(view).wf(),
        pane.copied(true).wf(),
        pane.entries.len() == 0 ==> pane.select_next() == pane,
{
    let toggled = pane.toggled();
    assert forall|name: Seq<char>| #[trigger]
        toggled.marked.contains(name) implies contains_name(toggled.entries, name) by {
        if !pane.marked.contains(name) {
            assert(pane.entries[pane.selected as int].name == name);
        }
    }
}

/// Once the cursor has been brought in line with a window that starts
/// inside the listing, the cursor is on a row that the window shows.
pub proof fn lemma_scrolled_cursor_is_shown(pane: DirectoryView, view: viewport::View)
    requires
        pane.wf(),
        view.wf(),
        pane.entries.len() > 0,
        view.valid_for(pane.entries.len()),
    ensures
        view.shows(pane.scrolled(view).selected as int),
        pane.scrolled(view).selected < pane.entries.len(),
        view.shows(pane.selected as int) && view.first_line_offset > 0 ==> pane.scrolled(view)
            == pane,
{
}

/// Changing the mark of the same entry twice leaves the marks as they were.
pub proof fn lemma_toggle_twice_restores(pane: DirectoryView)
    ensures
        pane.toggled().toggled().marked == pane.marked,
        pane.toggled().toggled() == pane,
{
    assert(pane.toggled().toggled().marked =~= pane.marked);
}

/// A listing that is taken holds every name that was handed in.
pub proof fn lemma_refresh_keeps_names(
    before: DirectoryView,
    listing: Seq<EntryView>,
    after: DirectoryView,
    name: Seq<char>,
)
    requires
        before.refreshed(listing, after),
    ensures
        contains_name(after.entries, name) == contains_name(listing, name),
{
    broadcast use vstd::seq_lib::group_to_multiset_ensures;

    if contains_name(listing, name) {
        let i = choose|i: int| 0 <= i < listing.len() && (#[trigger] listing[i]).name == name;
        assert(listing.contains(listing[i]));
        assert(after.entries.to_multiset().count(listing[i]) > 0);
        assert(after.entries.contains(listing[i]));
        let j = choose|j: int| 0 <= j < after.entries.len() && after.entries[j] == listing[i];
        assert(after.entries[j].name == name);
    }
    if contains_name(after.entries, name) {
        let i = choose|i: int|
            0 <= i < after.entries.len() && (#[trigger] after.entries[i]).name == name;
        assert(after.entries.contains(after.entries[i]));
        assert(listing.to_multiset().count(after.entries[i]) > 0);
        assert(listing.contains(after.entries[i]));
        let j = choose|j: int| 0 <= j < listing.len() && listing[j] == after.entries[i];
        assert(listing[j].name == name);
    }
}

/// Taking a listing leaves the pane well formed, with its entries in order.
pub proof fn lemma_refresh_keeps_well_formed(
    before: DirectoryView,
    listing: Seq<EntryView>,
    after: DirectoryView,
)
    requires
        listing.len() <= u32::MAX,
        before.refreshed(listing, after),
    ensures
        after.wf(),
{
    broadcast use vstd::seq_lib::group_to_multiset_ensures;

    assert(after.entries.to_multiset().len() == listing.to_multiset().len());
}

/// The pane `to` is what one move makes of the pane `from`: the cursor goes
/// up or down a row, or the pane goes down into the subdirectory under the
/// cursor, or up to the parent directory, and takes the listing it finds
/// there.
pub open spec fn moves_to(from: DirectoryView, to: DirectoryView) -> bool {
    ||| to == from.select_previous()
    ||| to == from.select_next()
    ||| from.can_enter() && exists|listing: Seq<EntryView>|
        listing.len() <= u32::MAX && #[trigger] from.entered().refreshed(listing, to)
    ||| from.path.len() > 0 && exists|listing: Seq<EntryView>|
        listing.len() <= u32::MAX && #[trigger] from.ascended().refreshed(listing, to)
}

/// In `panes` the pane behind the one at `at` is what one move makes of it.
pub open spec fn is_move(panes: Seq<DirectoryView>, at: int) -> bool {
    moves_to(panes[at], panes[at + 1])
}

/// However many moves are made, one after the other, the pane stays well
/// formed: over a listing that is not empty the cursor is on one of its rows,
/// and over an empty one a move down leaves everything as it is.
pub proof fn lemma_cursor_stays_inside(panes: Seq<DirectoryView>, at: int)
    requires
        0 <= at < panes.len(),
        panes[0].wf(),
        forall|i: int| 0 <= i < panes.len() - 1 ==> #[trigger] is_move(panes, i),
    ensures
        panes[at].wf(),
        panes[at].entries.len() > 0 ==> panes[at].selected < panes[at].entries.len(),
        panes[at].entries.len() == 0 ==> panes[at].select_next() == panes[at],
    decreases at,
{
    if at > 0 {
        lemma_cursor_stays_inside(panes, at - 1);
        let from = panes[at - 1];
        let to = panes[at];
        assert(is_move(panes, at - 1));
        lemma_moves_keep_well_formed(
            from,
            viewport::View { first_line_offset: 0, width: 1, height: 1 },
        );
        if to == from.select_previous() || to == from.select_next() {
        } else if from.can_enter() && exists|listing: Seq<EntryView>|
            listing.len() <= u32::MAX && #[trigger] from.entered().refreshed(listing, to) {
            let listing = choose|listing: Seq<EntryView>|
                listing.len() <= u32::MAX && #[trigger] from.entered().refreshed(listing, to);
            lemma_refresh_keeps_well_formed(from.entered(), listing, to);
        } else {
            let listing = choose|listing: Seq<EntryView>|
                listing.len() <= u32::MAX && #[trigger] from.ascended().refreshed(listing, to);
            lemma_refresh_keeps_well_formed(from.ascended(), listing, to);
        }
    }
}

/// Into a subdirectory and back up: the pane is at the directory it started
/// from, and the cursor is on an entry with the name of the directory just
/// left, if the parent's listing still holds that name.
pub proof fn lemma_ascend_returns_to_entry_left(
    start: DirectoryView,
    below: Seq<EntryView>,
    inside: DirectoryView,
    above: Seq<EntryView>,
    back: DirectoryView,
)
    requires
        start.wf(),
        start.can_enter(),
        start.entered().refreshed(below, inside),
        inside.ascended().refreshed(above, back),
        contains_name(above, start.entries[start.selected as int].name),
    ensures
        back.path == start.path,
        back.selected < back.entries.len(),
        back.entries[back.selected as int].name == start.entries[start.selected as int].name,
{
    let name = start.entries[start.selected as int].name;
    assert(start.path.push(name).drop_last() =~= start.path);
    assert(start.path.push(name).last() == name);
    lemma_refresh_keeps_names(inside.ascended(), above, back, name);
}

/// Taking a listing leaves the marks as they were, where every marked name is
/// still in the listing.
pub proof fn lemma_refresh_keeps_listed_marks(
    before: DirectoryView,
    listing: Seq<EntryView>,
    after: DirectoryView,
)
    requires
        before.refreshed(listing, after),
        forall|name: Seq<char>| #[trigger]
            before.marked.contains(name) ==> contains_name(listing, name),
    ensures
        after.marked == before.marked,
{
    assert forall|name: Seq<char>| after.marked.contains(name) == before.marked.contains(
        name,
    ) by {
        lemma_refresh_keeps_names(before, listing, after, name);
    }
    assert(after.marked =~= before.marked);
}

/// Into a subdirectory and back up, with nothing changed in the parent
/// directory meanwhile, and no name twice in it: the pane is at the directory
/// it started from, shows the listing it showed, and has the cursor on the
/// row it was on.
pub proof fn lemma_down_and_up_restores(
    start: DirectoryView,
    below: Seq<EntryView>,
    inside: DirectoryView,
    above: Seq<EntryView>,
    back: DirectoryView,
)
    requires
        start.wf(),
        start.can_enter(),
        distinct_names(start.entries),
        start.entered().refreshed(below, inside),
        inside.ascended().refreshed(above, back),
        above.to_multiset() == start.entries.to_multiset(),
    ensures
        back.path == start.path,
        back.entries == start.entries,
        back.selected == start.selected,
{
    let at = start.selected as int;
    let name = start.entries[at].name;
    assert(start.path.push(name).drop_last() =~= start.path);
    assert(start.path.push(name).last() == name);
    lemma_sorted_listing_is_unique(start.entries, back.entries);
    assert(back.entries[at].name == name);
    assert(contains_name(back.entries, name));
    assert(is_first_named(back.entries, name, back.selected as int));
    if back.selected < at {
        assert(start.entries[back.selected as int].name != start.entries[at].name);
    } else if back.selected > at {
        assert(start.entries[at].name != start.entries[back.selected as int].name);
    }
}

/// The pane that lists one directory.
pub struct Directory {
    path: Vec<String>,
    entries: Vec<FsEntry>,
    marked_entries: StringHashSet,
    selected_entry_idx: usize,
    anchor: Option<String>,
}

impl View for Directory {
    type V = DirectoryView;

    closed spec fn view(&self) -> DirectoryView {
        DirectoryView {
            path: self.path.deep_view(),
            entries: self.entries.deep_view(),
            marked: self.marked_entries@,
            selected: self.selected_entry_idx as nat,
            anchor: match self.anchor {
                Some(name) => Some(name@),
                None => None,
            },
        }
    }
}

/// The first entry of `entries` that is called `name`, if there is one.
fn find_name(entries: &Vec<FsEntry>, name: &String) -> (found: Option<usize>)
    ensures
        match found {
            Some(at) => is_first_named(entries.deep_view(), name@, at as int),
            None => !contains_name(entries.deep_view(), name@),
        },
{
    let mut i: usize = 0;
    while i < entries.len()
        invariant
            i <= entries.len(),
            forall|j: int| 0 <= j < i ==> (#[trigger] entries.deep_view()[j]).name != name@,
        decreases entries.len() - i,
    {
        if entries[i].name == *name {
            return Some(i);
        }
        i += 1;
    }
    None
}

/// The names of `marked` that an entry of `entries` has.
fn marks_still_listed(marked: &StringHashSet, entries: &Vec<FsEntry>) -> (kept: StringHashSet)
    ensures
        kept@ == Set::new(
            |name: Seq<char>| marked@.contains(name) && contains_name(entries.deep_view(), name),
        ),
{
    let mut kept = StringHashSet::new();
    let mut i: usize = 0;
    while i < entries.len()
        invariant
            i <= entries.len(),
            kept@ == Set::new(
                |name: Seq<char>|
                    marked@.contains(name) && contains_name(
                        entries.deep_view().take(i as int),
                        name,
                    ),
            ),
        decreases entries.len() - i,
    {
        let ghost seen = entries.deep_view().take(i as int);
        let ghost more = entries.deep_view().take(i as int + 1);
        if marked.contains(entries[i].name.as_str()) {
            kept.insert(entries[i].name.clone());
        }
        proof {
            let this = entries[i as int]@.name;
            assert(more[i as int].name == this);
            assert forall|name: Seq<char>| contains_name(more, name) <==> (contains_name(seen, name)
                || name == this) by {
                if contains_name(seen, name) {
                    let k = choose|k: int| 0 <= k < seen.len() && (#[trigger] seen[k]).name == name;
                    assert(more[k].name == name);
                }
                if contains_name(more, name) {
                    let k = choose|k: int| 0 <= k < more.len() && (#[trigger] more[k]).name == name;
                    if k < i {
                        assert(seen[k].name == name);
                    }
                }
            }
            assert(kept@ =~= Set::new(
                |name: Seq<char>| marked@.contains(name) && contains_name(more, name),
            ));
        }
        i += 1;
    }
    proof {
        assert(entries.deep_view().take(i as int) =~= entries.deep_view());
    }
    kept
}

impl Directory {
    /// The pane at the directory `path`, whose children are `listing`.
    pub fn open(path: Vec<String>, listing: Vec<FsEntry>) -> (directory: Directory)
        requires
            listing.len() <= u32::MAX,
        ensures
            directory.inv(),
            directory@.path == path.deep_view(),
            is_sorted(directory@.entries),
            directory@.entries.to_multiset() == listing.deep_view().to_multiset(),
            directory@.entries.len() == listing.len(),
            directory@.marked == Set::<Seq<char>>::empty(),
            directory@.selected == 0,
            directory@.anchor is None,
    {
        broadcast use vstd::seq_lib::group_to_multiset_ensures;

        let entries = sort_entries(listing);
        Directory {
            path,
            entries,
            marked_entries: StringHashSet::new(),
            selected_entry_idx: 0,
            anchor: None,
        }
    }

    /// The names that lead from the root to the directory.
    pub fn path(&self) -> (path: &Vec<String>)
        ensures
            path.deep_view() == self@.path,
    {
        &self.path
    }

    /// The children, in the order of the listing.
    pub fn entries(&self) -> (entries: &Vec<FsEntry>)
        ensures
            entries.deep_view() == self@.entries,
    {
        &self.entries
    }

    /// The names of the marked children.
    pub fn marked_entries(&self) -> (marked: &StringHashSet)
        ensures
            marked@ == self@.marked,
    {
        &self.marked_entries
    }

    /// The row the cursor is on.
    pub fn selected_entry_idx(&self) -> (selected: usize)
        ensures
            selected == self@.selected,
    {
        self.selected_entry_idx
    }

    /// Moves the cursor one row up, unless it is on the first.
    pub fn select_previous(&mut self)
        requires
            old(self).inv(),
        ensures
            final(self).inv(),
            final(self)@ == old(self)@.select_previous(),
    {
        if self.selected_entry_idx > 0 {
            self.selected_entry_idx -= 1;
        }
    }

    /// Moves the cursor one row down, unless it is on the last or the listing
    /// is empty.
    pub fn select_next(&mut self)
        requires
            old(self).inv(),
        ensures
            final(self).inv(),
            final(self)@ == old(self)@.select_next(),
    {
        if self.entries.len() == 0 {
            return ;
        }
        if self.selected_entry_idx < self.entries.len() - 1 {
            self.selected_entry_idx += 1;
        }
    }

    /// Leaves for the subdirectory under the cursor, and says whether it did:
    /// the pane then waits for the listing of that directory. Nothing happens
    /// where the cursor is on no directory.
    pub fn open_selected_subdirectory(&mut self) -> (moved: bool)
        requires
            old(self).inv(),
        ensures
            final(self).inv(),
            moved == old(self)@.can_enter(),
            final(self)@ == if moved {
                old(self)@.entered()
            } else {
                old(self)@
            },
    {
        if self.selected_entry_idx >= self.entries.len() {
            return false;
        }
        let entry = &self.entries[self.selected_entry_idx];
        if !entry.kind.is_dir() {
            return false;
        }
        let ghost before = self.path.deep_view();
        let name = entry.name.clone();
        self.path.push(name);
        self.entries = Vec::new();
        self.marked_entries = StringHashSet::new();
        self.selected_entry_idx = 0;
        self.anchor = None;
        proof {
            assert(self.path.deep_view() =~= before.push(name@));
            assert(self.entries.deep_view() =~= Seq::empty());
        }
        true
    }

    /// Leaves for the parent directory, and says whether it did: the pane then
    /// waits for the listing of that directory. Nothing happens at the root.
    pub fn open_parent(&mut self) -> (moved: bool)
        requires
            old(self).inv(),
        ensures
            final(self).inv(),
            moved == (old(self)@.path.len() > 0),
            final(self)@ == if moved {
                old(self)@.ascended()
            } else {
                old(self)@
            },
    {
        let ghost before = self.path.deep_view();
        match self.path.pop() {
            None => false,
            Some(name) => {
                proof {
                    assert(self.path.deep_view() =~= before.drop_last());
                }
                self.entries = Vec::new();
                self.marked_entries = StringHashSet::new();
                self.selected_entry_idx = 0;
                self.anchor = Some(name);
                proof {
                    assert(self.entries.deep_view() =~= Seq::empty());
                }
                true
            },
        }
    }

    /// Marks the entry under the cursor, or takes its mark off.
    pub fn mark_unmark_selected(&mut self)
        requires
            old(self).inv(),
        ensures
            final(self).inv(),
            final(self)@ == old(self)@.toggled(),
    {
        if self.selected_entry_idx < self.entries.len() {
            let name = &self.entries[self.selected_entry_idx].name;
            proof {
                assert(self.entries.deep_view()[self.selected_entry_idx as int].name == name@);
            }
            if self.marked_entries.contains(name.as_str()) {
                self.marked_entries.remove(name.as_str());
            } else {
                self.marked_entries.insert(name.clone());
            }
        }
    }

    /// Asks `other` to take a copy of the marked entries, and says what came
    /// of it: the copy that is now to be carried out, or that `other` takes
    /// none.
    pub fn copy<O: CopyTarget>(&self, other: &O) -> (response: Response)
        requires
            self.inv(),
            other.inv(),
        ensures
            response@ == match O::copy_target(other@) {
                Some(to) => ResponseView::Copy(
                    CopyJobView::start(self@.path, to, self@.marked_list()),
                ),
                None => ResponseView::Refused,
            },
    {
        let entries = self.marked_selection();
        match other.copy_to(&self.path, &entries) {
            Some(job) => Response::Copy(job),
            None => Response::Refused,
        }
    }

    /// The marked entries, in the order of the listing.
    pub fn marked_selection(&self) -> (selection: Vec<FsEntry>)
        ensures
            selection.deep_view() == self@.marked_list(),
    {
        let mut selection: Vec<FsEntry> = Vec::new();
        let mut i: usize = 0;
        proof {
            assert(selection.deep_view() =~= Seq::empty());
            assert(self.entries.deep_view().take(0) =~= Seq::empty());
        }
        while i < self.entries.len()
            invariant
                i <= self.entries.len(),
                selection.deep_view() == marked_among(
                    self.entries.deep_view().take(i as int),
                    self.marked_entries@,
                ),
            decreases self.entries.len() - i,
        {
            let ghost chosen = selection.deep_view();
            proof {
                let more = self.entries.deep_view().take(i as int + 1);
                assert(more.drop_last() =~= self.entries.deep_view().take(i as int));
                assert(more.last() == self.entries[i as int]@);
            }
            if self.marked_entries.contains(self.entries[i].name.as_str()) {
                selection.push(self.entries[i].clone());
                proof {
                    assert(selection.deep_view() =~= chosen.push(self.entries[i as int]@));
                }
            }
            i += 1;
        }
        proof {
            assert(self.entries.deep_view().take(i as int) =~= self.entries.deep_view());
        }
        selection
    }
}

impl Drawable for Directory {
    open spec fn inv(&self) -> bool {
        self@.wf()
    }

    open spec fn lines(model: DirectoryView) -> nat {
        model.entries.len()
    }

    /// One row for each entry that the window shows, with its name: none for
    /// an empty listing, and the last entry alone where the window starts
    /// behind the listing.
    open spec fn drawn(model: DirectoryView, view: viewport::View) -> Seq<LineView> {
        let len = model.entries.len();
        if len == 0 {
            Seq::empty()
        } else {
            let from = view.first_shown(len);
            let to = view.end_shown(len);
            Seq::new(
                (to - from) as nat,
                |i: int|
                    LineView {
                        text: model.entries[from + i].name,
                        directory: model.entries[from + i].kind.is_dir(),
                        selected: from + i == model.selected,
                    },
            )
        }
    }

    fn draw(&self, view: &viewport::View) -> (rows: Vec<Line>) {
        let count = self.entries.len();
        let mut rows: Vec<Line> = Vec::new();
        if count == 0 {
            assert(rows.deep_view() =~= Seq::empty());
            return rows;
        }
        let (from, to) = view.shown_rows(count);
        let mut i: usize = from;
        while i < to
            invariant
                from <= i <= to <= self.entries.len(),
                rows.len() == i - from,
                forall|k: int|
                    0 <= k < i - from ==> (#[trigger] rows[k])@ == (LineView {
                        text: self.entries[from + k]@.name,
                        directory: self.entries[from + k]@.kind.is_dir(),
                        selected: from + k == self.selected_entry_idx,
                    }),
            decreases to - i,
        {
            let entry = &self.entries[i];
            rows.push(
                Line {
                    text: entry.name.clone(),
                    directory: entry.kind.is_dir(),
                    selected: i == self.selected_entry_idx,
                },
            );
            i += 1;
        }
        assert(rows.deep_view() =~= Self::drawn(self@, *view));
        rows
    }
}

impl CopyTarget for Directory {
    /// What is copied to the pane goes into its directory.
    open spec fn copy_target(model: DirectoryView) -> Option<Seq<Seq<char>>> {
        Some(model.path)
    }

    fn copy_to(&self, path: &Vec<String>, entries: &Vec<FsEntry>) -> (job: Option<CopyJob>) {
        Some(CopyJob::new(path, &self.path, entries))
    }
}

impl Provider for Directory {
    open spec fn on_input(
        model: DirectoryView,
        input: Input,
        view: viewport::View,
        target: Option<Seq<Seq<char>>>,
    ) -> (DirectoryView, viewport::View, ResponseView) {
        model.input(input, view, target)
    }

    open spec fn on_scroll(model: DirectoryView, view: viewport::View) -> DirectoryView {
        model.scrolled(view)
    }

    open spec fn place(model: DirectoryView) -> Option<Seq<Seq<char>>> {
        Some(model.path)
    }

    /// The pane takes the listing, and its window is pulled back onto the
    /// content and then follows the cursor.
    open spec fn on_listing(
        before: DirectoryView,
        listing: Seq<EntryView>,
        view: viewport::View,
        after: DirectoryView,
        view_after: viewport::View,
    ) -> bool {
        &&& before.refreshed(listing, after)
        &&& view_after == view.clamped(after.entries.len() as u32).following(after.selected as u32)
    }

    open spec fn on_copied(model: DirectoryView, success: bool) -> DirectoryView {
        model.copied(success)
    }

    /// Diagnostics are nothing to a directory.
    open spec fn on_record(model: DirectoryView, line: Seq<char>) -> DirectoryView {
        model
    }

    fn lines_count(&self) -> (count: u32) {
        self.entries.len() as u32
    }

    fn handle_input<O: CopyTarget>(
        &mut self,
        input: &Input,
        view: &mut viewport::View,
        other: &O,
    ) -> (response: Response) {
        match input.command() {
            Some(Command::SelectNext) => {
                self.select_next();
                view.follow(self.selected_entry_idx as u32);
                Response::Handled
            },
            Some(Command::SelectPrevious) => {
                self.select_previous();
                view.follow(self.selected_entry_idx as u32);
                Response::Handled
            },
            Some(Command::Enter) => {
                if self.open_selected_subdirectory() {
                    view.set_first_line_offset(0);
                    Response::Reload
                } else {
                    Response::Handled
                }
            },
            Some(Command::Ascend) => {
                if self.open_parent() {
                    view.set_first_line_offset(0);
                    Response::Reload
                } else {
                    Response::Handled
                }
            },
            Some(Command::ToggleMark) => {
                self.mark_unmark_selected();
                Response::Handled
            },
            Some(Command::Copy) => self.copy(other),
            _ => Response::Unhandled,
        }
    }

    fn handle_window_scrolled(&mut self, view: &viewport::View) {
        proof {
            lemma_moves_keep_well_formed(self@, *view);
        }
        let len = self.entries.len();
        if len == 0 {
            return ;
        }
        let offset = view.first_line_offset as usize;
        let height = view.height as usize;
        if self.selected_entry_idx < offset {
            self.selected_entry_idx = if offset < len {
                offset
            } else {
                len - 1
            };
        } else if self.selected_entry_idx - offset >= height {
            self.selected_entry_idx = offset + height - 1;
        } else if offset == 0 && (len < height || self.selected_entry_idx == height - 1) {
            self.selected_entry_idx = 0;
        }
    }

    fn location(&self) -> (place: Option<Vec<String>>) {
        Some(clone_path(&self.path))
    }

    fn refresh(&mut self, listing: Vec<FsEntry>, view: &mut viewport::View) {
        broadcast use vstd::seq_lib::group_to_multiset_ensures;

        let entries = sort_entries(listing);
        let marked = marks_still_listed(&self.marked_entries, &entries);
        let selected = match &self.anchor {
            Some(name) => match find_name(&entries, name) {
                Some(at) => at,
                None => 0,
            },
            None => if self.selected_entry_idx < entries.len() {
                self.selected_entry_idx
            } else if entries.len() == 0 {
                0
            } else {
                entries.len() - 1
            },
        };
        let count = entries.len() as u32;
        self.entries = entries;
        self.marked_entries = marked;
        self.selected_entry_idx = selected;
        self.anchor = None;
        view.clamp(count);
        view.follow(selected as u32);
    }

    fn copy_finished(&mut self, success: bool) {
        if success {
            self.marked_entries = StringHashSet::new();
        }
    }

    fn record(&mut self, line: &str) {
    }
}

} // verus!
