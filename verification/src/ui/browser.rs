//! Generic file/dir browser: the state behind the widget that shows a path
//! field, a list of entries and a one-line hint.
//!
//! Supports single-selection (cursor on one entry) and multi-selection
//! (Space toggles a checked state on the file under the cursor). For
//! [`InputKind::Dir`] the caller treats the selected entry as a
//! directory; for [`InputKind::File`] it treats the selection as file(s).
//!
//! Reading a directory is done by the application: whenever
//! [`Browser::needs_refresh`] is set it lists the directory at
//! [`Browser::path`] and hands the result to [`Browser::apply_listing`].

use vstd::prelude::*;
use vstd::relations::sorted_by;

use crate::actions::InputKind;
use crate::input::InputAction;
use crate::sort::{alike, sort_by_leq, total_preorder};
use crate::text::{
    copy_opt_text, home_dir, is_absolute_path, join_path, lemma_path_le_antisymmetric, lemma_path_le_reflexive,
    lemma_path_le_total, lemma_path_le_transitive, lemma_text_le_reflexive, lemma_text_le_total,
    lemma_text_le_transitive, parent_of, path_join, path_le, path_le_exec, path_parent, pop_char,
    push_char, starts_with_char, text_eq, text_le, text_le_exec, text_trim, trim,
};

verus! {

broadcast use vstd::seq_lib::group_to_multiset_ensures;

#[derive(Debug)]
pub struct Entry {
    pub name: String,
    pub path: String,
    pub is_dir: bool,
    pub size: u64,
    /// Modification time, in nanoseconds relative to the Unix epoch.
    pub modified: i128,
}

/// The contents of an [`Entry`], as text and numbers.
pub struct EntryView {
    pub name: Seq<char>,
    pub path: Seq<char>,
    pub is_dir: bool,
    pub size: u64,
    pub modified: i128,
}

impl View for Entry {
    type V = EntryView;

    open spec fn view(&self) -> EntryView {
        EntryView {
            name: self.name@,
            path: self.path@,
            is_dir: self.is_dir,
            size: self.size,
            modified: self.modified,
        }
    }
}

#[derive(Debug, Clone, Copy, PartialEq, Eq, Structural)]
pub enum SortBy {
    Name,
    Size,
    Mtime,
}

pub struct Browser {
    pub path: String,
    pub entries: Vec<Entry>,
    pub cursor: usize,
    pub show_hidden: bool,
    pub sort: SortBy,
    pub path_input: String,
    pub path_input_active: bool,
    pub error: Option<String>,
    /// Multi-select set of file paths, each at most once. Used for File
    /// input actions where the user can select multiple files.
    pub checked: Vec<String>,
    pub input_kind: InputKind,
    /// Whether the directory at `path` must be (re-)read.
    pub needs_refresh: bool,
}

/// The contents of a [`Browser`].
pub struct BrowserView {
    pub path: Seq<char>,
    pub entries: Seq<EntryView>,
    pub cursor: nat,
    pub show_hidden: bool,
    pub sort: SortBy,
    pub path_input: Seq<char>,
    pub path_input_active: bool,
    pub error: Option<Seq<char>>,
    pub checked: Seq<Seq<char>>,
    pub input_kind: InputKind,
    pub needs_refresh: bool,
}

impl View for Browser {
    type V = BrowserView;

    open spec fn view(&self) -> BrowserView {
        BrowserView {
            path: self.path@,
            entries: self.entries@.map_values(|e: Entry| e@),
            cursor: self.cursor as nat,
            show_hidden: self.show_hidden,
            sort: self.sort,
            path_input: self.path_input@,
            path_input_active: self.path_input_active,
            error: self.error.deep_view(),
            checked: self.checked.deep_view(),
            input_kind: self.input_kind,
            needs_refresh: self.needs_refresh,
        }
    }
}

// ---------------------------------------------------------------------
// The browser's transitions, over its view
// ---------------------------------------------------------------------

/// A browser is well formed when no path is checked twice (the checked
/// paths form a set). Every operation keeps this.
pub open spec fn browser_wf(b: BrowserView) -> bool {
    b.checked.no_duplicates()
}

/// Go to directory `p`: cursor on top, no checks, the listing to be read.
pub open spec fn navigate_to(b: BrowserView, p: Seq<char>) -> BrowserView {
    BrowserView { path: p, cursor: 0, checked: seq![], needs_refresh: true, ..b }
}

pub open spec fn step_cursor_down(b: BrowserView) -> BrowserView {
    if b.cursor + 1 < b.entries.len() {
        BrowserView { cursor: b.cursor + 1, ..b }
    } else {
        b
    }
}

pub open spec fn step_cursor_up(b: BrowserView) -> BrowserView {
    if b.cursor > 0 {
        BrowserView { cursor: (b.cursor - 1) as nat, ..b }
    } else {
        b
    }
}

pub open spec fn step_cursor_top(b: BrowserView) -> BrowserView {
    BrowserView { cursor: 0, ..b }
}

pub open spec fn step_cursor_bottom(b: BrowserView) -> BrowserView {
    if b.entries.len() > 0 {
        BrowserView { cursor: (b.entries.len() - 1) as nat, ..b }
    } else {
        b
    }
}

/// Open the entry under the cursor: into a directory; nothing for files.
pub open spec fn step_open_selected(b: BrowserView) -> BrowserView {
    if b.cursor < b.entries.len() && b.entries[b.cursor as int].is_dir {
        navigate_to(b, b.entries[b.cursor as int].path)
    } else {
        b
    }
}

/// Go up one directory, when the path has a parent.
pub open spec fn step_go_up(b: BrowserView) -> BrowserView {
    match path_parent(b.path) {
        Some(p) => navigate_to(b, p),
        None => b,
    }
}

/// The first position of `p` in `s`, if any.
pub open spec fn first_index(s: Seq<Seq<char>>, p: Seq<char>) -> Option<int> {
    if s.contains(p) {
        Some(choose|i: int| 0 <= i < s.len() && s[i] == p && forall|j: int| 0 <= j < i ==> s[j] != p)
    } else {
        None
    }
}

/// Toggle the check mark of the file under the cursor (directories are
/// not checkable).
pub open spec fn step_toggle_checked(b: BrowserView) -> BrowserView {
    if b.cursor < b.entries.len() && !b.entries[b.cursor as int].is_dir {
        let p = b.entries[b.cursor as int].path;
        match first_index(b.checked, p) {
            Some(i) => BrowserView { checked: b.checked.remove(i), ..b },
            None => BrowserView { checked: b.checked.push(p), ..b },
        }
    } else {
        b
    }
}

/// Whether a path starts with the component `~` (`Path::starts_with("~")`).
pub open spec fn starts_with_tilde(p: Seq<char>) -> bool {
    p == seq!['~'] || (p.len() >= 2 && p[0] == '~' && p[1] == '/')
}

/// `~/rest` expanded against the home directory; other paths unchanged.
pub open spec fn expand_tilde(p: Seq<char>, home: Option<Seq<char>>) -> Seq<char> {
    if p.len() >= 2 && p[0] == '~' && p[1] == '/' {
        match home {
            Some(h) => path_join(h, p.skip(2)),
            None => p,
        }
    } else {
        p
    }
}

/// Commit the path field: an absolute path, or one starting at `~`, is
/// opened (after `~/` expansion); anything else is reported.
pub open spec fn step_commit_path(b: BrowserView, home: Option<Seq<char>>) -> BrowserView {
    let t = text_trim(b.path_input);
    let b1 = BrowserView { path_input_active: false, ..b };
    if is_absolute_path(t) || starts_with_tilde(t) {
        navigate_to(b1, expand_tilde(t, home))
    } else {
        BrowserView { error: Some("not an absolute path: "@ + t), ..b1 }
    }
}

/// One key in the browser: the new state and whether the key was
/// consumed. `home` is the user's home directory, as read for the key.
pub open spec fn key_step(b: BrowserView, action: InputAction, home: Option<Seq<char>>) -> (
    BrowserView,
    bool,
) {
    if b.path_input_active {
        // All keys are absorbed while the path field is active.
        (
            match action {
                InputAction::Esc => BrowserView { path_input_active: false, path_input: seq![], ..b },
                InputAction::Enter => step_commit_path(b, home),
                InputAction::Backspace => BrowserView {
                    path_input: if b.path_input.len() > 0 {
                        b.path_input.drop_last()
                    } else {
                        b.path_input
                    },
                    ..b
                },
                InputAction::Char(c) => BrowserView { path_input: b.path_input.push(c), ..b },
                _ => b,
            },
            true,
        )
    } else {
        match action {
            InputAction::SidebarDown => (step_cursor_down(b), true),
            InputAction::SidebarUp => (step_cursor_up(b), true),
            InputAction::SidebarTop => (step_cursor_top(b), true),
            InputAction::SidebarBottom => (step_cursor_bottom(b), true),
            InputAction::OpenEntry => (step_open_selected(b), true),
            InputAction::GoUp => (step_go_up(b), true),
            InputAction::ToggleCheck => (step_toggle_checked(b), true),
            InputAction::PathInput => (
                BrowserView { path_input_active: true, path_input: b.path, ..b },
                true,
            ),
            InputAction::GoHome => (
                match home {
                    Some(h) => navigate_to(b, h),
                    None => b,
                },
                true,
            ),
            InputAction::Refresh => (BrowserView { needs_refresh: true, ..b }, true),
            // Enter is left to the App, which runs the action with it.
            _ => (b, false),
        }
    }
}

// ---------------------------------------------------------------------
// Listings
// ---------------------------------------------------------------------

/// Whether a name is hidden (starts with a dot).
pub open spec fn is_hidden_name(name: Seq<char>) -> bool {
    name.len() > 0 && name[0] == '.'
}

/// An entry as listed: directories have no size.
pub open spec fn listed_entry(e: Entry) -> Entry {
    Entry { size: if e.is_dir { 0 } else { e.size }, ..e }
}

/// The entries of a raw listing that are shown, in the order read.
pub open spec fn shown_entries(raw: Seq<Entry>, show_hidden: bool) -> Seq<Entry>
    decreases raw.len(),
{
    if raw.len() == 0 {
        seq![]
    } else {
        let rest = shown_entries(raw.drop_last(), show_hidden);
        if show_hidden || !is_hidden_name(raw.last().name@) {
            rest.push(listed_entry(raw.last()))
        } else {
            rest
        }
    }
}

/// The order of entries for a sort mode: by name, by size (largest
/// first) or by modification time (newest first).
pub open spec fn entry_le(sort: SortBy, a: EntryView, b: EntryView) -> bool {
    match sort {
        SortBy::Name => text_le(a.name, b.name),
        SortBy::Size => a.size >= b.size,
        SortBy::Mtime => a.modified >= b.modified,
    }
}

/// The same order, on entries.
pub open spec fn entry_order(sort: SortBy) -> spec_fn(Entry, Entry) -> bool {
    |a: Entry, b: Entry| entry_le(sort, a@, b@)
}

proof fn lemma_entry_order_total_preorder(sort: SortBy)
    ensures
        total_preorder(entry_order(sort)),
{
    let leq = entry_order(sort);
    match sort {
        SortBy::Name => {
            assert forall|a: Entry| #[trigger] leq(a, a) by {
                lemma_text_le_reflexive(a.name@);
            }
            assert forall|a: Entry, b: Entry, c: Entry|
                #[trigger] leq(a, b) && #[trigger] leq(b, c) implies leq(a, c) by {
                lemma_text_le_transitive(a.name@, b.name@, c.name@);
            }
            assert forall|a: Entry, b: Entry| #[trigger] leq(a, b) || leq(b, a) by {
                lemma_text_le_total(a.name@, b.name@);
            }
        },
        _ => {},
    }
}

fn entry_by_name(a: &Entry, b: &Entry) -> (r: bool)
    ensures
        r == entry_le(SortBy::Name, a@, b@),
{
    text_le_exec(a.name.as_str(), b.name.as_str())
}

fn entry_by_size(a: &Entry, b: &Entry) -> (r: bool)
    ensures
        r == entry_le(SortBy::Size, a@, b@),
{
    a.size >= b.size
}

fn entry_by_mtime(a: &Entry, b: &Entry) -> (r: bool)
    ensures
        r == entry_le(SortBy::Mtime, a@, b@),
{
    a.modified >= b.modified
}

/// Sorts entries for a sort mode.
pub fn sort_entries(entries: Vec<Entry>, sort: SortBy) -> (r: Vec<Entry>)
    ensures
        r@.to_multiset() == entries@.to_multiset(),
        sorted_by(r@, entry_order(sort)),
        forall|x: Entry| #[trigger] r@.filter(alike(entry_order(sort), x)) == entries@.filter(
            alike(entry_order(sort), x),
        ),
{
    proof {
        lemma_entry_order_total_preorder(sort);
    }
    match sort {
        SortBy::Name => sort_by_leq(entries, Ghost(entry_order(SortBy::Name)), entry_by_name),
        SortBy::Size => sort_by_leq(entries, Ghost(entry_order(SortBy::Size)), entry_by_size),
        SortBy::Mtime => sort_by_leq(entries, Ghost(entry_order(SortBy::Mtime)), entry_by_mtime),
    }
}

/// The order of checked paths.
pub open spec fn checked_order() -> spec_fn(String, String) -> bool {
    |a: String, b: String| path_le(a@, b@)
}

fn checked_le(a: &String, b: &String) -> (r: bool)
    ensures
        r == path_le(a@, b@),
{
    path_le_exec(a.as_str(), b.as_str())
}

/// The least checked path in path order.
pub open spec fn least_checked(checked: Seq<Seq<char>>) -> Seq<char> {
    choose|f: Seq<char>|
        checked.contains(f) && forall|k: int| 0 <= k < checked.len() ==> path_le(f, #[trigger] checked[k])
}

/// The file an action of File kind runs on: the least checked path, or
/// else the entry under the cursor.
pub open spec fn resolved_file_of(b: BrowserView) -> Option<Seq<char>> {
    if b.checked.len() > 0 {
        Some(least_checked(b.checked))
    } else if b.cursor < b.entries.len() {
        Some(b.entries[b.cursor as int].path)
    } else {
        None
    }
}

/// The directory an action of Dir kind runs on: the entry under the
/// cursor, when it is a directory.
pub open spec fn selected_dir_of(b: BrowserView) -> Option<Seq<char>> {
    if b.input_kind == InputKind::Dir && b.cursor < b.entries.len() && b.entries[b.cursor as int].is_dir {
        Some(b.entries[b.cursor as int].path)
    } else {
        None
    }
}

/// The hint line under the browser's list.
pub open spec fn browser_hint_spec(kind: InputKind, path_input_active: bool) -> Seq<char> {
    if path_input_active {
        "  [Esc] cancel  [Enter] open"@
    } else {
        match kind {
            InputKind::Dir => "  [j/k] move  [Enter] open  [Esc] up  [/] path  [~] home  [r] refresh"@,
            InputKind::File => "  [j/k] move  [Space] check  [Esc] up  [/] path  [r] refresh"@,
            _ => seq![],
        }
    }
}

/// The markers in front of entry `i` of the list: the cursor marker, the
/// check box (files in File mode) and the directory marker.
pub open spec fn row_markers_spec(b: BrowserView, i: int) -> (Seq<char>, Seq<char>, Seq<char>) {
    let e = b.entries[i];
    (
        if i == b.cursor { "▶"@ } else { " "@ },
        if b.input_kind == InputKind::File && !e.is_dir {
            if b.checked.contains(e.path) { "[x] "@ } else { "[ ] "@ }
        } else {
            "    "@
        },
        if e.is_dir { "/"@ } else { " "@ },
    )
}

/// The message shown when the directory cannot be read.
pub open spec fn read_error_message(path: Seq<char>, err: Seq<char>) -> Seq<char> {
    "cannot read "@ + path + ": "@ + err
}

impl Browser {
    /// A browser at `initial_path` whose directory is still to be read.
    pub fn new(initial_path: &str, input_kind: InputKind) -> (b: Self)
        ensures
            b@.path == initial_path@,
            b@.entries.len() == 0,
            b@.cursor == 0,
            !b@.show_hidden,
            b@.sort == SortBy::Name,
            b@.path_input.len() == 0,
            !b@.path_input_active,
            b@.error is None,
            b@.checked.len() == 0,
            browser_wf(b@),
            b@.input_kind == input_kind,
            b@.needs_refresh,
    {
        let b = Browser {
            path: initial_path.to_owned(),
            entries: Vec::new(),
            cursor: 0,
            show_hidden: false,
            sort: SortBy::Name,
            path_input: String::new(),
            path_input_active: false,
            error: None,
            checked: Vec::new(),
            input_kind,
            needs_refresh: true,
        };
        assert(b@.checked =~= seq![]);
        b
    }

    /// Take the listing of the current directory (or the error reading
    /// it): hidden names are dropped unless shown, directories get no
    /// size, the rest is sorted by the current sort mode. Resets the
    /// cursor to 0.
    pub fn apply_listing(&mut self, listing: Result<Vec<Entry>, String>)
        ensures
            browser_wf(old(self)@) ==> browser_wf(final(self)@),
            final(self)@.path == old(self)@.path,
            final(self)@.show_hidden == old(self)@.show_hidden,
            final(self)@.sort == old(self)@.sort,
            final(self)@.path_input == old(self)@.path_input,
            final(self)@.path_input_active == old(self)@.path_input_active,
            final(self)@.checked == old(self)@.checked,
            final(self)@.input_kind == old(self)@.input_kind,
            final(self)@.cursor == 0,
            !final(self)@.needs_refresh,
            match listing {
                Err(e) => final(self)@.error == Some(read_error_message(old(self)@.path, e@))
                    && final(self)@.entries.len() == 0,
                Ok(raw) => final(self)@.error is None && final(self).entries@.to_multiset()
                    == shown_entries(raw@, old(self)@.show_hidden).to_multiset() && sorted_by(
                    final(self).entries@,
                    entry_order(old(self)@.sort),
                ) && forall|x: Entry| #[trigger] final(self).entries@.filter(
                    alike(entry_order(old(self)@.sort), x),
                ) == shown_entries(raw@, old(self)@.show_hidden).filter(
                    alike(entry_order(old(self)@.sort), x),
                ),
            },
    {
        self.needs_refresh = false;
        self.cursor = 0;
        match listing {
            Err(e) => {
                let mut msg = "cannot read ".to_owned();
                msg.append(self.path.as_str());
                msg.append(": ");
                msg.append(e.as_str());
                proof {
                    reveal_strlit("cannot read ");
                    reveal_strlit(": ");
                }
                self.error = Some(msg);
                self.entries = Vec::new();
                assert(self@.entries =~= seq![]);
            },
            Ok(raw) => {
                self.error = None;
                let ghost raw_all = raw@;
                let mut rest = raw;
                let mut shown: Vec<Entry> = Vec::new();
                let mut i: usize = 0;
                let n = rest.len();
                while rest.len() > 0
                    invariant
                        n == raw_all.len(),
                        i + rest@.len() == n,
                        rest@ == raw_all.skip(i as int),
                        shown@ == shown_entries(raw_all.take(i as int), self.show_hidden),
                    decreases rest.len(),
                {
                    let e = rest.remove(0);
                    proof {
                        assert(e == raw_all[i as int]);
                        assert(rest@ =~= raw_all.skip(i + 1));
                        let t = raw_all.take(i + 1);
                        assert(t.drop_last() =~= raw_all.take(i as int));
                        assert(t.last() == e);
                    }
                    let hidden = starts_with_char(e.name.as_str(), '.');
                    if self.show_hidden || !hidden {
                        let size = if e.is_dir {
                            0
                        } else {
                            e.size
                        };
                        shown.push(
                            Entry {
                                name: e.name,
                                path: e.path,
                                is_dir: e.is_dir,
                                size,
                                modified: e.modified,
                            },
                        );
                    }
                    i += 1;
                }
                assert(raw_all.take(n as int) =~= raw_all);
                let sorted = sort_entries(shown, self.sort);
                self.entries = sorted;
            },
        }
    }

    /// The hint line under the list.
    pub fn hint(&self) -> (h: &'static str)
        ensures
            h@ == browser_hint_spec(self.input_kind, self.path_input_active),
    {
        if self.path_input_active {
            return "  [Esc] cancel  [Enter] open";
        }
        match self.input_kind {
            InputKind::Dir => "  [j/k] move  [Enter] open  [Esc] up  [/] path  [~] home  [r] refresh",
            InputKind::File => "  [j/k] move  [Space] check  [Esc] up  [/] path  [r] refresh",
            _ => {
                proof {
                    reveal_strlit("");
                }
                ""
            },
        }
    }

    /// The path line above the list: the path field being edited, with a
    /// cursor mark, or the current path.
    pub fn path_line(&self) -> (r: String)
        ensures
            r@ == (if self.path_input_active {
                "> "@ + self.path_input@ + "_"@
            } else {
                "  "@ + self.path@
            }),
    {
        if self.path_input_active {
            crate::text::concat3("> ", self.path_input.as_str(), "_")
        } else {
            crate::text::concat2("  ", self.path.as_str())
        }
    }

    /// Whether `p` is checked.
    pub fn is_checked(&self, p: &str) -> (r: bool)
        ensures
            r == self@.checked.contains(p@),
    {
        let ghost cs = self@.checked;
        let mut i: usize = 0;
        while i < self.checked.len()
            invariant
                i <= self.checked@.len(),
                cs == self@.checked,
                forall|j: int| 0 <= j < i ==> cs[j] != p@,
            decreases self.checked.len() - i,
        {
            if text_eq(self.checked[i].as_str(), p) {
                assert(cs[i as int] == p@);
                return true;
            }
            i += 1;
        }
        proof {
            if cs.contains(p@) {
                let k = choose|k: int| 0 <= k < cs.len() && cs[k] == p@;
                assert(cs[k] != p@);
            }
        }
        false
    }

    /// The markers in front of entry `i` of the list.
    pub fn row_markers(&self, i: usize) -> (r: (&'static str, &'static str, &'static str))
        requires
            i < self.entries@.len(),
        ensures
            (r.0@, r.1@, r.2@) == row_markers_spec(self@, i as int),
    {
        let e = &self.entries[i];
        let cursor_marker = if i == self.cursor {
            "▶"
        } else {
            " "
        };
        let check_marker = if self.input_kind == InputKind::File && !e.is_dir {
            if self.is_checked(e.path.as_str()) {
                "[x] "
            } else {
                "[ ] "
            }
        } else {
            "    "
        };
        let type_marker = if e.is_dir {
            "/"
        } else {
            " "
        };
        (cursor_marker, check_marker, type_marker)
    }

    /// The entry under the cursor, if any.
    pub fn selected_entry(&self) -> (r: Option<&Entry>)
        ensures
            self.cursor < self.entries@.len() ==> r == Some(&self.entries@[self.cursor as int]),
            self.cursor >= self.entries@.len() ==> r is None,
    {
        if self.cursor < self.entries.len() {
            Some(&self.entries[self.cursor])
        } else {
            None
        }
    }

    /// Currently-selected directory (for Dir input kind): the entry under
    /// the cursor, when it is a directory.
    pub fn selected_dir(&self) -> (r: Option<String>)
        ensures
            r.deep_view() == selected_dir_of(self@),
    {
        match self.input_kind {
            InputKind::Dir => match self.selected_entry() {
                Some(e) => if e.is_dir {
                    Some(e.path.clone())
                } else {
                    None
                },
                None => None,
            },
            _ => None,
        }
    }

    /// Currently-checked file paths (for File input kind), in path order.
    pub fn checked_files(&self) -> (r: Vec<String>)
        ensures
            r@.to_multiset() == self.checked@.to_multiset(),
            sorted_by(r@, checked_order()),
            forall|x: String| #[trigger] r@.filter(alike(checked_order(), x)) == self.checked@.filter(
                alike(checked_order(), x),
            ),
            browser_wf(self@) ==> r.deep_view().no_duplicates(),
    {
        let mut out: Vec<String> = Vec::new();
        let mut i: usize = 0;
        while i < self.checked.len()
            invariant
                i <= self.checked@.len(),
                out@ =~= self.checked@.take(i as int),
            decreases self.checked.len() - i,
        {
            out.push(self.checked[i].clone());
            i += 1;
        }
        assert(self.checked@.take(i as int) =~= self.checked@);
        proof {
            let leq = checked_order();
            assert forall|a: String| #[trigger] leq(a, a) by {
                lemma_path_le_reflexive(a@);
            }
            assert forall|a: String, b: String, c: String| #[trigger] leq(a, b) && #[trigger] leq(
                b,
                c,
            ) implies leq(a, c) by {
                lemma_path_le_transitive(a@, b@, c@);
            }
            assert forall|a: String, b: String| #[trigger] leq(a, b) || leq(b, a) by {
                lemma_path_le_total(a@, b@);
            }
        }
        let r = sort_by_leq(out, Ghost(checked_order()), checked_le);
        proof {
            if browser_wf(self@) {
                assert(self.checked.deep_view() =~= self.checked@.map_values(|t: String| t@));
                lemma_permutation_keeps_distinct_texts(self.checked@, r@);
                assert(r.deep_view() =~= r@.map_values(|t: String| t@));
            }
        }
        r
    }

    /// The first checked file (in path order), or else the entry under the
    /// cursor.
    pub fn resolved_file(&self) -> (r: Option<String>)
        ensures
            r.deep_view() == resolved_file_of(self@),
    {
        let files = self.checked_files();
        if files.len() > 0 {
            let first = files[0].clone();
            proof {
                assert(files@.contains(files@[0]));
                assert(files@.to_multiset().count(files@[0]) > 0);
                assert(self.checked@.to_multiset().count(files@[0]) > 0);
                assert forall|k: int| 0 <= k < self.checked@.len() implies path_le(
                    first@,
                    #[trigger] self.checked@[k]@,
                ) by {
                    let x = self.checked@[k];
                    assert(self.checked@.contains(x));
                    assert(self.checked@.to_multiset().count(x) > 0);
                    assert(files@.to_multiset().count(x) > 0);
                    assert(files@.contains(x));
                    let j = choose|j: int| 0 <= j < files@.len() && files@[j] == x;
                    if j > 0 {
                        assert(checked_order()(files@[0], files@[j]));
                    } else {
                        lemma_path_le_reflexive(x@);
                    }
                }
                let cs = self@.checked;
                assert(cs =~= self.checked.deep_view());
                assert(cs.contains(first@)) by {
                    let m = choose|m: int| 0 <= m < self.checked@.len() && self.checked@[m] == first;
                    assert(cs[m] == first@);
                }
                assert forall|k: int| 0 <= k < cs.len() implies path_le(first@, #[trigger] cs[k]) by {
                    assert(cs[k] == self.checked@[k]@);
                }
                let g = least_checked(cs);
                assert(cs.contains(g) && forall|k: int| 0 <= k < cs.len() ==> path_le(g, #[trigger] cs[k]));
                let kg = choose|k: int| 0 <= k < cs.len() && cs[k] == g;
                let kf = choose|k: int| 0 <= k < cs.len() && cs[k] == first@;
                assert(path_le(first@, cs[kg]));
                assert(path_le(g, cs[kf]));
                lemma_path_le_antisymmetric(first@, g);
            }
            return Some(first);
        }
        proof {
            assert(self.checked@.to_multiset().len() == 0);
        }
        match self.selected_entry() {
            Some(e) => Some(e.path.clone()),
            None => None,
        }
    }

    pub fn cursor_down(&mut self)
        ensures
            browser_wf(old(self)@) ==> browser_wf(final(self)@),
            final(self)@ == step_cursor_down(old(self)@),
    {
        if self.entries.len() > 0 && self.cursor < self.entries.len() - 1 {
            self.cursor += 1;
        }
    }

    pub fn cursor_up(&mut self)
        ensures
            browser_wf(old(self)@) ==> browser_wf(final(self)@),
            final(self)@ == step_cursor_up(old(self)@),
    {
        if self.cursor > 0 {
            self.cursor -= 1;
        }
    }

    pub fn cursor_top(&mut self)
        ensures
            browser_wf(old(self)@) ==> browser_wf(final(self)@),
            final(self)@ == step_cursor_top(old(self)@),
    {
        self.cursor = 0;
    }

    pub fn cursor_bottom(&mut self)
        ensures
            browser_wf(old(self)@) ==> browser_wf(final(self)@),
            final(self)@ == step_cursor_bottom(old(self)@),
    {
        if self.entries.len() > 0 {
            self.cursor = self.entries.len() - 1;
        }
    }

    /// Go to directory `p` (its listing to be read).
    fn navigate(&mut self, p: String)
        ensures
            final(self)@ == navigate_to(old(self)@, p@),
    {
        self.path = p;
        self.cursor = 0;
        self.checked.clear();
        self.needs_refresh = true;
        assert(self@.checked =~= seq![]);
    }

    /// Open the entry under the cursor (cd into dir, or no-op for files).
    pub fn open_selected(&mut self)
        ensures
            browser_wf(old(self)@) ==> browser_wf(final(self)@),
            final(self)@ == step_open_selected(old(self)@),
    {
        if self.cursor < self.entries.len() && self.entries[self.cursor].is_dir {
            let p = self.entries[self.cursor].path.clone();
            self.navigate(p);
        }
    }

    /// Go up one directory.
    pub fn go_up(&mut self)
        ensures
            browser_wf(old(self)@) ==> browser_wf(final(self)@),
            final(self)@ == step_go_up(old(self)@),
    {
        match parent_of(self.path.as_str()) {
            Some(p) => self.navigate(p),
            None => {},
        }
    }

    /// Toggle the "checked" state of the entry under the cursor.
    pub fn toggle_checked(&mut self)
        ensures
            browser_wf(old(self)@) ==> browser_wf(final(self)@),
            final(self)@ == step_toggle_checked(old(self)@),
    {
        proof {
            if browser_wf(old(self)@) && self.cursor < self.entries.len()
                && !self@.entries[self.cursor as int].is_dir {
                lemma_toggle_checked_set(old(self)@);
            }
        }
        if self.cursor < self.entries.len() && !self.entries[self.cursor].is_dir {
            let p = self.entries[self.cursor].path.clone();
            let ghost cs = self.checked.deep_view();
            let ghost b0 = self@;
            assert(p@ == b0.entries[b0.cursor as int].path);
            let mut i: usize = 0;
            while i < self.checked.len()
                invariant
                    self@ == b0,
                    b0 == old(self)@,
                    b0.cursor < b0.entries.len(),
                    !b0.entries[b0.cursor as int].is_dir,
                    p@ == b0.entries[b0.cursor as int].path,
                    cs == b0.checked,
                    i <= self.checked@.len(),
                    cs == self.checked.deep_view(),
                    forall|j: int| 0 <= j < i ==> cs[j] != p@,
                decreases self.checked.len() - i,
            {
                if text_eq(self.checked[i].as_str(), p.as_str()) {
                    proof {
                        assert(cs[i as int] == p@);
                        assert(cs.contains(p@));
                        let w = i as int;
                        assert(0 <= w < cs.len() && cs[w] == p@ && forall|j: int|
                            0 <= j < w ==> cs[j] != p@);
                        let f = first_index(cs, p@)->0;
                        assert(0 <= f < cs.len() && cs[f] == p@ && forall|j: int|
                            0 <= j < f ==> cs[j] != p@);
                        assert(f == w) by {
                            if f < w {
                                assert(cs[f] != p@);
                            } else if f > w {
                                assert(cs[w] != p@);
                            }
                        }
                    }
                    let _ = self.checked.remove(i);
                    assert(self.checked.deep_view() =~= cs.remove(i as int));
                    assert(first_index(b0.checked, p@) == Some(i as int));
                    assert(self@.checked == b0.checked.remove(i as int));
                    assert(self@.entries == b0.entries);
                    assert(self@ == step_toggle_checked(b0));
                    return;
                }
                i += 1;
            }
            proof {
                assert(!cs.contains(p@)) by {
                    if cs.contains(p@) {
                        let k = choose|k: int| 0 <= k < cs.len() && cs[k] == p@;
                        assert(cs[k] != p@);
                    }
                }
            }
            let ghost before = self.checked@;
            self.checked.push(p);
            assert(self.checked.deep_view() =~= cs.push(p@));
        }
    }

    /// Clear all checked entries.
    pub fn clear_checked(&mut self)
        ensures
            browser_wf(old(self)@) ==> browser_wf(final(self)@),
            final(self)@ == (BrowserView { checked: seq![], ..old(self)@ }),
    {
        self.checked.clear();
        assert(self@.checked =~= seq![]);
    }

    /// Commit the path field, given the user's home directory: an absolute
    /// path (or one starting at `~`, expanded) is opened; anything else is
    /// reported as an error.
    pub fn commit_path_input_with_home(&mut self, home: Option<String>)
        ensures
            browser_wf(old(self)@) ==> browser_wf(final(self)@),
            final(self)@ == step_commit_path(old(self)@, home.deep_view()),
    {
        self.path_input_active = false;
        let t = trim(self.path_input.as_str());
        let n = t.as_str().unicode_len();
        let rooted = starts_with_char(t.as_str(), '/');
        let tilde_only = n == 1 && t.as_str().get_char(0) == '~';
        let tilde_slash = n >= 2 && t.as_str().get_char(0) == '~' && t.as_str().get_char(1) == '/';
        proof {
            if tilde_only {
                assert(t@ =~= seq!['~']);
            }
            if t@ == seq!['~'] {
                assert(tilde_only);
            }
        }
        if rooted || tilde_only || tilde_slash {
            let expanded = if tilde_slash {
                match home {
                    Some(h) => {
                        let rest = t.as_str().substring_char(2, n);
                        join_path(h.as_str(), rest)
                    },
                    None => t,
                }
            } else {
                t
            };
            self.navigate(expanded);
        } else {
            let mut msg = "not an absolute path: ".to_owned();
            msg.append(t.as_str());
            proof {
                reveal_strlit("not an absolute path: ");
            }
            self.error = Some(msg);
        }
    }

    /// Set the path from the input field (after the user presses Enter
    /// in path-input mode); `~/` is expanded against `$HOME`.
    pub fn commit_path_input(&mut self)
        ensures
            browser_wf(old(self)@) ==> browser_wf(final(self)@),
            exists|home: Option<Seq<char>>| final(self)@ == step_commit_path(old(self)@, home),
    {
        let home = home_dir();
        self.commit_path_input_with_home(home);
    }

    /// Type a character into the path field.
    pub fn path_input_push(&mut self, c: char)
        ensures
            browser_wf(old(self)@) ==> browser_wf(final(self)@),
            final(self)@ == (BrowserView { path_input: old(self)@.path_input.push(c), ..old(self)@ }),
    {
        push_char(&mut self.path_input, c);
    }

    /// Backspace in the path field.
    pub fn path_input_pop(&mut self)
        ensures
            browser_wf(old(self)@) ==> browser_wf(final(self)@),
            final(self)@ == (BrowserView {
                path_input: if old(self)@.path_input.len() > 0 {
                    old(self)@.path_input.drop_last()
                } else {
                    old(self)@.path_input
                },
                ..old(self)@
            }),
    {
        let _ = pop_char(&mut self.path_input);
    }

    /// Set the path to a specific value (used by the `~` shortcut).
    pub fn set_path(&mut self, p: &str)
        ensures
            browser_wf(old(self)@) ==> browser_wf(final(self)@),
            final(self)@ == navigate_to(old(self)@, p@),
    {
        self.navigate(p.to_owned());
    }

    /// Handle a key, given the user's home directory. Returns true if the
    /// key was consumed.
    pub fn handle_key_with_home(&mut self, action: InputAction, home: Option<String>) -> (r: bool)
        ensures
            browser_wf(old(self)@) ==> browser_wf(final(self)@),
            (final(self)@, r) == key_step(old(self)@, action, home.deep_view()),
    {
        proof {
            if browser_wf(old(self)@) {
                lemma_key_step_keeps_wf(old(self)@, action, home.deep_view());
            }
        }
        if self.path_input_active {
            match action {
                InputAction::Esc => {
                    self.path_input_active = false;
                    self.path_input = String::new();
                },
                InputAction::Enter => {
                    self.commit_path_input_with_home(home);
                },
                InputAction::Backspace => {
                    self.path_input_pop();
                },
                InputAction::Char(c) => {
                    self.path_input_push(c);
                },
                _ => {},
            }
            return true;
        }
        match action {
            InputAction::SidebarDown => self.cursor_down(),
            InputAction::SidebarUp => self.cursor_up(),
            InputAction::SidebarTop => self.cursor_top(),
            InputAction::SidebarBottom => self.cursor_bottom(),
            InputAction::OpenEntry => self.open_selected(),
            InputAction::GoUp => self.go_up(),
            InputAction::ToggleCheck => self.toggle_checked(),
            InputAction::PathInput => {
                self.path_input_active = true;
                self.path_input = self.path.clone();
            },
            InputAction::GoHome => {
                match home {
                    Some(h) => self.navigate(h),
                    None => {},
                }
            },
            InputAction::Refresh => {
                self.needs_refresh = true;
            },
            _ => {
                return false;
            },
        }
        true
    }

    /// Handle a key event. Returns true if the key was consumed. `~` and
    /// `~/...` paths use the user's home directory.
    pub fn handle_key(&mut self, action: InputAction) -> (r: bool)
        ensures
            browser_wf(old(self)@) ==> browser_wf(final(self)@),
            exists|home: Option<Seq<char>>| (final(self)@, r) == key_step(old(self)@, action, home),
    {
        let wants_home = if self.path_input_active {
            action == InputAction::Enter
        } else {
            action == InputAction::GoHome
        };
        let home = if wants_home {
            home_dir()
        } else {
            None
        };
        self.handle_key_with_home(action, home)
    }
}

// ---------------------------------------------------------------------
// Laws of the browser's transitions
// ---------------------------------------------------------------------

/// The cursor is on an entry, or at the top.
pub open spec fn cursor_in_range(b: BrowserView) -> bool {
    b.cursor == 0 || b.cursor < b.entries.len()
}

/// No key moves the cursor off the listing.
pub proof fn lemma_key_keeps_cursor_in_range(b: BrowserView, action: InputAction, home: Option<Seq<char>>)
    requires
        cursor_in_range(b),
    ensures
        cursor_in_range(key_step(b, action, home).0),
{
}

/// Directories are not checkable: toggling on one changes nothing.
pub proof fn lemma_toggle_ignores_directories(b: BrowserView)
    requires
        b.cursor < b.entries.len() ==> b.entries[b.cursor as int].is_dir,
    ensures
        step_toggle_checked(b) == b,
{
}

/// Toggling keeps the checked paths free of repeats, and changes only
/// whether the file under the cursor is among them.
pub proof fn lemma_toggle_checked_set(b: BrowserView)
    requires
        browser_wf(b),
        b.cursor < b.entries.len(),
        !b.entries[b.cursor as int].is_dir,
    ensures
        browser_wf(step_toggle_checked(b)),
        step_toggle_checked(b).checked.to_set() == (if b.checked.contains(b.entries[b.cursor as int].path) {
            b.checked.to_set().remove(b.entries[b.cursor as int].path)
        } else {
            b.checked.to_set().insert(b.entries[b.cursor as int].path)
        }),
        step_toggle_checked(b) == (BrowserView { checked: step_toggle_checked(b).checked, ..b }),
{
    let p = b.entries[b.cursor as int].path;
    let t = step_toggle_checked(b).checked;
    match first_index(b.checked, p) {
        Some(i) => {
            assert(0 <= i < b.checked.len() && b.checked[i] == p);
            assert(t == b.checked.remove(i));
            assert forall|x: int, y: int| 0 <= x < t.len() && 0 <= y < t.len() && x != y implies t[x] != t[y] by {
                let ox = if x < i { x } else { x + 1 };
                let oy = if y < i { y } else { y + 1 };
                assert(t[x] == b.checked[ox] && t[y] == b.checked[oy]);
            }
            assert forall|q: Seq<char>| t.to_set().contains(q) == b.checked.to_set().remove(p).contains(q) by {
                if t.contains(q) {
                    let k = choose|k: int| 0 <= k < t.len() && t[k] == q;
                    let ok = if k < i { k } else { k + 1 };
                    assert(b.checked[ok] == q);
                    assert(ok != i);
                }
                if b.checked.contains(q) && q != p {
                    let k = choose|k: int| 0 <= k < b.checked.len() && b.checked[k] == q;
                    assert(k != i);
                    let nk = if k < i { k } else { k - 1 };
                    assert(t[nk] == q);
                }
            }
            assert(t.to_set() =~= b.checked.to_set().remove(p));
        },
        None => {
            assert(!b.checked.contains(p));
            assert(t == b.checked.push(p));
            assert forall|x: int, y: int| 0 <= x < t.len() && 0 <= y < t.len() && x != y implies t[x] != t[y] by {
                if x < b.checked.len() && y == b.checked.len() {
                    assert(b.checked.contains(b.checked[x]));
                }
                if y < b.checked.len() && x == b.checked.len() {
                    assert(b.checked.contains(b.checked[y]));
                }
            }
            assert forall|q: Seq<char>| t.to_set().contains(q) == b.checked.to_set().insert(p).contains(q) by {
                if t.contains(q) {
                    let k = choose|k: int| 0 <= k < t.len() && t[k] == q;
                    if k < b.checked.len() {
                        assert(b.checked[k] == q);
                    }
                }
                if b.checked.contains(q) {
                    let k = choose|k: int| 0 <= k < b.checked.len() && b.checked[k] == q;
                    assert(t[k] == q);
                }
                if q == p {
                    assert(t[b.checked.len() as int] == p);
                }
            }
            assert(t.to_set() =~= b.checked.to_set().insert(p));
        },
    }
}

/// Toggling the same file twice gives back the same set of checked paths.
pub proof fn lemma_toggle_twice(b: BrowserView)
    requires
        browser_wf(b),
        b.cursor < b.entries.len(),
        !b.entries[b.cursor as int].is_dir,
    ensures
        step_toggle_checked(step_toggle_checked(b)).checked.to_set() == b.checked.to_set(),
        browser_wf(step_toggle_checked(step_toggle_checked(b))),
{
    let p = b.entries[b.cursor as int].path;
    let b1 = step_toggle_checked(b);
    lemma_toggle_checked_set(b);
    lemma_toggle_checked_set(b1);
    if b.checked.contains(p) {
        assert(!b1.checked.to_set().contains(p));
        assert(!b1.checked.contains(p));
        assert(b.checked.to_set().remove(p).insert(p) =~= b.checked.to_set());
    } else {
        assert(b1.checked.to_set().contains(p));
        assert(b1.checked.contains(p));
        assert(!b.checked.to_set().contains(p));
        assert(b.checked.to_set().insert(p).remove(p) =~= b.checked.to_set());
    }
}

/// A reordering of texts that are distinct as text stays distinct.
proof fn lemma_permutation_keeps_distinct_texts(c: Seq<String>, r: Seq<String>)
    requires
        r.to_multiset() == c.to_multiset(),
        c.map_values(|t: String| t@).no_duplicates(),
    ensures
        r.map_values(|t: String| t@).no_duplicates(),
{
    let cv = c.map_values(|t: String| t@);
    let rv = r.map_values(|t: String| t@);
    assert forall|i: int, j: int| 0 <= i < c.len() && 0 <= j < c.len() && i != j implies c[i]
        != c[j] by {
        assert(cv[i] != cv[j]);
    }
    assert(c.no_duplicates());
    c.lemma_multiset_has_no_duplicates();
    assert forall|x: String| r.to_multiset().contains(x) implies r.to_multiset().count(x) == 1 by {}
    r.lemma_multiset_has_no_duplicates_conv();
    assert forall|i: int, j: int| 0 <= i < rv.len() && 0 <= j < rv.len() && i != j implies rv[i]
        != rv[j] by {
        if rv[i] == rv[j] {
            assert(r[i] != r[j]);
            assert(r.contains(r[i]));
            assert(r.to_multiset().count(r[i]) > 0);
            assert(c.to_multiset().count(r[i]) > 0);
            assert(c.contains(r[i]));
            assert(r.contains(r[j]));
            assert(r.to_multiset().count(r[j]) > 0);
            assert(c.to_multiset().count(r[j]) > 0);
            assert(c.contains(r[j]));
            let a = choose|a: int| 0 <= a < c.len() && c[a] == r[i];
            let b = choose|b: int| 0 <= b < c.len() && c[b] == r[j];
            assert(cv[a] == cv[b]);
        }
    }
}

/// Every key keeps the browser well formed.
pub proof fn lemma_key_step_keeps_wf(b: BrowserView, action: InputAction, home: Option<Seq<char>>)
    requires
        browser_wf(b),
    ensures
        browser_wf(key_step(b, action, home).0),
{
    if !b.path_input_active && action == InputAction::ToggleCheck && b.cursor < b.entries.len()
        && !b.entries[b.cursor as int].is_dir {
        lemma_toggle_checked_set(b);
    }
    assert(Seq::<Seq<char>>::empty().no_duplicates());
}

/// Leaving a directory clears the checks: after any key that takes the
/// browser to another directory, nothing is checked, the cursor is on
/// top and the new directory is to be read. Opening a directory entry and
/// going home are such keys.
pub proof fn lemma_changing_directory_clears_checks(b: BrowserView, action: InputAction, home: Option<Seq<char>>)
    ensures
        key_step(b, action, home).0.path != b.path ==> {
            &&& key_step(b, action, home).0.checked.len() == 0
            &&& key_step(b, action, home).0.cursor == 0
            &&& key_step(b, action, home).0.needs_refresh
        },
        !b.path_input_active && action == InputAction::OpenEntry && b.cursor < b.entries.len()
            && b.entries[b.cursor as int].is_dir ==> {
            &&& key_step(b, action, home).0.path == b.entries[b.cursor as int].path
            &&& key_step(b, action, home).0.checked.len() == 0
        },
        !b.path_input_active && action == InputAction::GoHome && home is Some ==> {
            &&& key_step(b, action, home).0.path == home->0
            &&& key_step(b, action, home).0.checked.len() == 0
        },
{
}

/// ↑ moves the cursor up one entry and ↓ down one, stopping at the ends of
/// the listing.
pub proof fn lemma_arrow_keys_move_cursor(b: BrowserView, home: Option<Seq<char>>)
    requires
        !b.path_input_active,
    ensures
        key_step(b, crate::input::key_action(crate::input::KeyEvent { code: crate::input::KeyCode::Up, ctrl: false }), home).0.cursor
            == (if b.cursor > 0 { b.cursor - 1 } else { b.cursor as int }),
        key_step(b, crate::input::key_action(crate::input::KeyEvent { code: crate::input::KeyCode::Down, ctrl: false }), home).0.cursor
            == (if b.cursor + 1 < b.entries.len() { b.cursor + 1 } else { b.cursor }),
{
}

proof fn lemma_has_least_path(checked: Seq<Seq<char>>) -> (f: Seq<char>)
    requires
        checked.len() > 0,
    ensures
        checked.contains(f),
        forall|k: int| 0 <= k < checked.len() ==> path_le(f, #[trigger] checked[k]),
    decreases checked.len(),
{
    if checked.len() == 1 {
        lemma_path_le_reflexive(checked[0]);
        assert(checked[0] == checked[0]);
        checked[0]
    } else {
        let rest = checked.drop_last();
        let g = lemma_has_least_path(rest);
        let l = checked.last();
        lemma_path_le_total(g, l);
        let f = if path_le(g, l) { g } else { l };
        assert forall|k: int| 0 <= k < checked.len() implies path_le(f, #[trigger] checked[k]) by {
            if k < checked.len() - 1 {
                assert(checked[k] == rest[k]);
                if f == l {
                    lemma_path_le_transitive(l, g, checked[k]);
                }
            } else {
                lemma_path_le_reflexive(l);
            }
        }
        if f == g {
            let j = choose|j: int| 0 <= j < rest.len() && rest[j] == g;
            assert(checked[j] == g);
        } else {
            assert(checked[checked.len() - 1] == l);
        }
        f
    }
}

/// The least checked path is one of the checked paths, and comes first
/// in path order.
pub proof fn lemma_least_checked_is_least(checked: Seq<Seq<char>>)
    requires
        checked.len() > 0,
    ensures
        checked.contains(least_checked(checked)),
        forall|k: int| 0 <= k < checked.len() ==> path_le(least_checked(checked), #[trigger] checked[k]),
{
    let f = lemma_has_least_path(checked);
    assert(checked.contains(f) && forall|k: int| 0 <= k < checked.len() ==> path_le(f, #[trigger] checked[k]));
}

} // verus!
