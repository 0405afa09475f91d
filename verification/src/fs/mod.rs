//! Directory entries, their order, and the state of one file pane.

pub mod entry;

use vstd::prelude::*;
use entry::{FileEntry, SortCriteria, SortOrder};
use crate::command::executor::opt_view;
use crate::error::{AppError, ErrorSpec};
use crate::paths::{file_name_of, parent_of, path_file_name, path_parent};
use crate::text::{decimal, push_decimal, push_str, str_eq};
use crate::utils::format::{format_size, size_text};

verus! {

/// The state of one file pane.
pub struct PaneState {
    /// The directory shown.
    pub current_dir: String,
    /// The entries shown: `.`, `..` unless at the root, then the listing in
    /// the pane's order.
    pub entries: Vec<FileEntry>,
    /// The index of the entry under the cursor.
    pub cursor: usize,
    /// The index of the first entry shown.
    pub scroll_offset: usize,
    /// The names of the marked entries, each once.
    pub marked: Vec<String>,
    /// The order of the listing.
    pub sort_order: SortOrder,
    /// Whether hidden files are listed.
    pub show_hidden: bool,
    /// The Git branch of the directory, if it is in a repository.
    pub git_branch: Option<String>,
}

/// The texts of a sequence of strings.
pub open spec fn texts(s: Seq<String>) -> Seq<Seq<char>> {
    s.map_values(|x: String| x@)
}

/// The names of a sequence of entries.
pub open spec fn names(s: Seq<FileEntry>) -> Seq<Seq<char>> {
    s.map_values(|e: FileEntry| e.name@)
}

/// `.` and `..`, which are never marked or operated on.
pub open spec fn is_dot_name(n: Seq<char>) -> bool {
    n == "."@ || n == ".."@
}

/// `v` clamped to `lo..=hi`.
pub open spec fn clamp(v: int, lo: int, hi: int) -> int {
    if v < lo {
        lo
    } else if v > hi {
        hi
    } else {
        v
    }
}

impl PaneState {
    /// The marked names.
    pub open spec fn marked_set(&self) -> Set<Seq<char>> {
        texts(self.marked@).to_set()
    }

    /// Each marked name is held once.
    pub open spec fn wf(&self) -> bool {
        texts(self.marked@).no_duplicates()
    }

    /// The largest cursor index: the last entry, or 0 without entries.
    pub open spec fn spec_max_cursor(&self) -> nat {
        if self.entries@.len() == 0 {
            0
        } else {
            (self.entries@.len() - 1) as nat
        }
    }

    /// A pane on `path` with nothing listed yet and nothing marked.
    pub fn new(path: String, show_hidden: bool, git_branch: Option<String>) -> (p: PaneState)
        ensures
            p.wf(),
            p.current_dir == path,
            p.entries@.len() == 0,
            p.cursor == 0,
            p.scroll_offset == 0,
            p.marked@.len() == 0,
            p.sort_order == (SortOrder { criteria: SortCriteria::Name, ascending: true, dirs_first: true }),
            p.show_hidden == show_hidden,
            p.git_branch == git_branch,
    {
        let p = PaneState {
            current_dir: path,
            entries: Vec::new(),
            cursor: 0,
            scroll_offset: 0,
            marked: Vec::new(),
            sort_order: SortOrder::default(),
            show_hidden,
            git_branch,
        };
        assert(texts(p.marked@) =~= Seq::<Seq<char>>::empty());
        p
    }

    /// The largest cursor index.
    pub fn max_cursor(&self) -> (r: usize)
        ensures
            r == self.spec_max_cursor(),
    {
        if self.entries.len() == 0 {
            0
        } else {
            self.entries.len() - 1
        }
    }

    /// Brings the cursor back onto an entry (0 without entries).
    pub fn clamp_cursor(&mut self)
        ensures
            final(self).cursor == if old(self).entries@.len() == 0 {
                0
            } else if old(self).cursor <= old(self).spec_max_cursor() {
                old(self).cursor as nat
            } else {
                old(self).spec_max_cursor()
            },
            final(self).entries == old(self).entries,
            final(self).marked == old(self).marked,
            final(self).scroll_offset == old(self).scroll_offset,
            final(self).current_dir == old(self).current_dir,
            final(self).sort_order == old(self).sort_order,
            final(self).show_hidden == old(self).show_hidden,
            final(self).git_branch == old(self).git_branch,
    {
        if self.entries.len() > 0 {
            let m = self.max_cursor();
            if self.cursor > m {
                self.cursor = m;
            }
        } else {
            self.cursor = 0;
        }
    }

    /// Moves the cursor by `delta`, staying on the entries.
    pub fn move_cursor(&mut self, delta: i32)
        requires
            old(self).cursor <= i32::MAX,
            i32::MIN <= old(self).cursor + delta <= i32::MAX,
            old(self).spec_max_cursor() <= i32::MAX,
        ensures
            final(self).cursor == clamp(
                old(self).cursor + delta,
                0,
                old(self).spec_max_cursor() as int,
            ),
            final(self).entries == old(self).entries,
            final(self).marked == old(self).marked,
            final(self).scroll_offset == old(self).scroll_offset,
            final(self).current_dir == old(self).current_dir,
            final(self).sort_order == old(self).sort_order,
            final(self).show_hidden == old(self).show_hidden,
            final(self).git_branch == old(self).git_branch,
    {
        let new_pos = self.cursor as i32 + delta;
        let m = self.max_cursor() as i32;
        let c = if new_pos < 0 {
            0
        } else if new_pos > m {
            m
        } else {
            new_pos
        };
        self.cursor = c as usize;
    }

    /// The entry under the cursor, if the cursor is on one.
    pub fn current_entry(&self) -> (r: Option<&FileEntry>)
        ensures
            self.cursor < self.entries@.len() ==> r == Some(&self.entries@[self.cursor as int]),
            self.cursor >= self.entries@.len() ==> r is None,
    {
        if self.cursor < self.entries.len() {
            Some(&self.entries[self.cursor])
        } else {
            None
        }
    }

    /// Puts the cursor on the first entry.
    pub fn jump_top(&mut self)
        ensures
            final(self).cursor == 0,
            final(self).entries == old(self).entries,
            final(self).marked == old(self).marked,
            final(self).scroll_offset == old(self).scroll_offset,
            final(self).current_dir == old(self).current_dir,
            final(self).sort_order == old(self).sort_order,
            final(self).show_hidden == old(self).show_hidden,
            final(self).git_branch == old(self).git_branch,
    {
        self.cursor = 0;
    }

    /// Puts the cursor on the last entry.
    pub fn jump_bottom(&mut self)
        ensures
            final(self).cursor == old(self).spec_max_cursor(),
            final(self).entries == old(self).entries,
            final(self).marked == old(self).marked,
            final(self).scroll_offset == old(self).scroll_offset,
            final(self).current_dir == old(self).current_dir,
            final(self).sort_order == old(self).sort_order,
            final(self).show_hidden == old(self).show_hidden,
            final(self).git_branch == old(self).git_branch,
    {
        self.cursor = self.max_cursor();
    }

    /// Scrolls so that the cursor stays three rows away from the edges of a
    /// view `visible_height` rows high (nothing happens for height 0).
    pub fn adjust_scroll(&mut self, visible_height: usize)
        requires
            visible_height == 0 || visible_height >= 4,
            old(self).scroll_offset + visible_height <= usize::MAX,
        ensures
            final(self).scroll_offset == scrolled(
                old(self).cursor as int,
                old(self).scroll_offset as int,
                visible_height as int,
            ),
            final(self).cursor == old(self).cursor,
            final(self).entries == old(self).entries,
            final(self).marked == old(self).marked,
            final(self).current_dir == old(self).current_dir,
            final(self).sort_order == old(self).sort_order,
            final(self).show_hidden == old(self).show_hidden,
            final(self).git_branch == old(self).git_branch,
    {
        let margin: usize = 3;
        if visible_height == 0 {
            return;
        }
        if self.cursor < self.scroll_offset + margin {
            self.scroll_offset = self.cursor.saturating_sub(margin);
        }
        if self.cursor >= self.scroll_offset + visible_height - margin {
            self.scroll_offset = self.cursor.saturating_sub(visible_height - margin - 1);
        }
    }
}

/// `v - d`, or 0 when `d` is larger.
pub open spec fn sat_sub(v: int, d: int) -> int {
    if v >= d {
        v - d
    } else {
        0
    }
}

/// The first row shown after scrolling a view `height` rows high so that
/// row `cursor` keeps three rows of margin where it can.
pub open spec fn scrolled(cursor: int, offset: int, height: int) -> int {
    if height == 0 {
        offset
    } else {
        let o1 = if cursor < offset + 3 {
            sat_sub(cursor, 3)
        } else {
            offset
        };
        if cursor >= o1 + height - 3 {
            sat_sub(cursor, height - 4)
        } else {
            o1
        }
    }
}


/// The names that can be marked: all but `.` and `..`.
pub open spec fn not_dot() -> spec_fn(Seq<char>) -> bool {
    |n: Seq<char>| !is_dot_name(n)
}

/// The names of the real entries (all but `.` and `..`), in order.
pub open spec fn real_names(s: Seq<FileEntry>) -> Seq<Seq<char>> {
    names(s).filter(not_dot())
}

/// Whether a name is `.` or `..`.
pub fn is_dot(name: &str) -> (r: bool)
    ensures
        r == is_dot_name(name@),
{
    str_eq(name, ".") || str_eq(name, "..")
}

/// Pushing an element adds it to the set of elements.
pub proof fn lemma_push_to_set<A>(s: Seq<A>, x: A)
    ensures
        s.push(x).to_set() == s.to_set().insert(x),
{
    let t = s.push(x);
    assert forall|y: A| #[trigger] t.contains(y) == (s.contains(y) || y == x) by {
        if t.contains(y) {
            let k = choose|k: int| 0 <= k < t.len() && t[k] == y;
            if k < s.len() {
                assert(s[k] == y);
            }
        }
        if s.contains(y) {
            let k = choose|k: int| 0 <= k < s.len() && s[k] == y;
            assert(t[k] == y);
        }
        if y == x {
            assert(t[s.len() as int] == x);
        }
    }
    assert(t.to_set() =~= s.to_set().insert(x));
}

/// Where `name` first occurs in `v`, if it does.
pub fn position_of(v: &Vec<String>, name: &str) -> (r: Option<usize>)
    ensures
        r matches Some(i) ==> i < v@.len() && v@[i as int]@ == name@,
        r is None ==> !texts(v@).contains(name@),
{
    let mut i: usize = 0;
    while i < v.len()
        invariant
            i <= v@.len(),
            forall|k: int| 0 <= k < i ==> v@[k]@ != name@,
        decreases v@.len() - i,
    {
        if str_eq(v[i].as_str(), name) {
            return Some(i);
        }
        i += 1;
    }
    assert(!texts(v@).contains(name@)) by {
        if texts(v@).contains(name@) {
            let k = choose|k: int| 0 <= k < texts(v@).len() && texts(v@)[k] == name@;
            assert(v@[k]@ == name@);
        }
    }
    None
}

/// The names of the real entries, each once, and how many real entries
/// there are.
pub fn real_name_set(entries: &Vec<FileEntry>) -> (r: (Vec<String>, usize))
    ensures
        texts(r.0@).no_duplicates(),
        texts(r.0@).to_set() == real_names(entries@).to_set(),
        r.1 == real_names(entries@).len(),
{
    let mut all: Vec<String> = Vec::new();
    let mut count: usize = 0;
    let mut i: usize = 0;
    let ghost p = not_dot();
    assert(texts(all@) =~= Seq::<Seq<char>>::empty());
    assert(names(entries@.take(0)) =~= Seq::<Seq<char>>::empty());
    assert(Seq::<Seq<char>>::empty().filter(p) =~= Seq::<Seq<char>>::empty()) by {
        reveal(Seq::filter);
    }
    while i < entries.len()
        invariant
            i <= entries@.len(),
            p == not_dot(),
            count == names(entries@.take(i as int)).filter(p).len(),
            count <= i,
            texts(all@).no_duplicates(),
            texts(all@).to_set() == names(entries@.take(i as int)).filter(p).to_set(),
        decreases entries@.len() - i,
    {
        let name = &entries[i].name;
        let ghost prev = names(entries@.take(i as int));
        proof {
            assert(names(entries@.take(i + 1)) =~= prev.push(name@));
            prev.lemma_filter_push(name@, p);
            lemma_push_to_set(prev.filter(p), name@);
        }
        if !is_dot(name.as_str()) {
            count = count + 1;
            let ghost before = texts(all@);
            match position_of(&all, name.as_str()) {
                Some(k) => {
                    assert(before[k as int] == name@);
                    assert(before.to_set().insert(name@) =~= before.to_set());
                },
                None => {
                    all.push(name.clone());
                    proof {
                        assert(texts(all@) =~= before.push(name@));
                        lemma_push_to_set(before, name@);
                    }
                },
            }
        }
        i += 1;
    }
    assert(entries@.take(entries@.len() as int) =~= entries@);
    (all, count)
}

impl PaneState {
    /// The marks after toggling the one under the cursor: nothing changes
    /// off the entries or on `.` and `..`.
    pub open spec fn toggled_marks(&self) -> Set<Seq<char>> {
        if self.cursor < self.entries@.len() && !is_dot_name(self.entries@[self.cursor as int].name@) {
            let n = self.entries@[self.cursor as int].name@;
            if self.marked_set().contains(n) {
                self.marked_set().remove(n)
            } else {
                self.marked_set().insert(n)
            }
        } else {
            self.marked_set()
        }
    }

    /// The marks after toggling all: none if as many names are marked as
    /// there are real entries, else every real entry.
    pub open spec fn all_toggled_marks(&self) -> Set<Seq<char>> {
        if self.marked@.len() == real_names(self.entries@).len() {
            Set::empty()
        } else {
            real_names(self.entries@).to_set()
        }
    }

    /// Whether `name` is marked.
    pub fn is_marked(&self, name: &str) -> (r: bool)
        ensures
            r == self.marked_set().contains(name@),
    {
        match position_of(&self.marked, name) {
            Some(i) => {
                assert(texts(self.marked@)[i as int] == name@);
                true
            },
            None => false,
        }
    }

    /// Marks or unmarks the entry under the cursor (never `.` or `..`).
    pub fn toggle_mark(&mut self)
        requires
            old(self).wf(),
        ensures
            final(self).wf(),
            final(self).marked_set() == old(self).toggled_marks(),
            final(self).cursor == old(self).cursor,
            final(self).entries == old(self).entries,
            final(self).scroll_offset == old(self).scroll_offset,
            final(self).current_dir == old(self).current_dir,
            final(self).sort_order == old(self).sort_order,
            final(self).show_hidden == old(self).show_hidden,
            final(self).git_branch == old(self).git_branch,
    {
        if self.cursor >= self.entries.len() {
            return;
        }
        let name = self.entries[self.cursor].name.clone();
        if is_dot(name.as_str()) {
            return;
        }
        let ghost before = texts(self.marked@);
        match position_of(&self.marked, name.as_str()) {
            Some(i) => {
                self.marked.remove(i);
                proof {
                    let after = texts(self.marked@);
                    assert(after =~= before.remove(i as int));
                    assert(before[i as int] == name@);
                    assert forall|a: int, b: int| 0 <= a < b < after.len() implies after[a] != after[b] by {
                        if a < i && b >= i {
                            assert(after[b] == before[b + 1]);
                        } else if a >= i {
                            assert(after[a] == before[a + 1] && after[b] == before[b + 1]);
                        }
                    }
                    assert forall|y: Seq<char>| #[trigger] after.contains(y) == (before.contains(y) && y != name@) by {
                        if after.contains(y) {
                            let k = choose|k: int| 0 <= k < after.len() && after[k] == y;
                            if k < i {
                                assert(before[k] == y);
                            } else {
                                assert(before[k + 1] == y);
                            }
                        }
                        if before.contains(y) && y != name@ {
                            let k = choose|k: int| 0 <= k < before.len() && before[k] == y;
                            if k < i {
                                assert(after[k] == y);
                            } else {
                                assert(k != i);
                                assert(after[k - 1] == y);
                            }
                        }
                    }
                    assert(after.to_set() =~= before.to_set().remove(name@));
                }
            },
            None => {
                self.marked.push(name);
                proof {
                    let after = texts(self.marked@);
                    assert(after =~= before.push(name@));
                    lemma_push_to_set(before, name@);
                }
            },
        }
    }

    /// Marks every real entry, or clears the marks when as many names are
    /// marked as there are real entries.
    pub fn toggle_mark_all(&mut self)
        requires
            old(self).wf(),
        ensures
            final(self).wf(),
            final(self).marked_set() == old(self).all_toggled_marks(),
            final(self).cursor == old(self).cursor,
            final(self).entries == old(self).entries,
            final(self).scroll_offset == old(self).scroll_offset,
            final(self).current_dir == old(self).current_dir,
            final(self).sort_order == old(self).sort_order,
            final(self).show_hidden == old(self).show_hidden,
            final(self).git_branch == old(self).git_branch,
    {
        let (all, count) = real_name_set(&self.entries);
        proof {
            texts(self.marked@).unique_seq_to_set();
        }
        if self.marked.len() == count {
            self.marked = Vec::new();
            assert(texts(self.marked@) =~= Seq::<Seq<char>>::empty());
            assert(texts(self.marked@).to_set() =~= Set::<Seq<char>>::empty());
        } else {
            self.marked = all;
        }
    }

    /// Unmarks everything.
    pub fn clear_marks(&mut self)
        ensures
            final(self).wf(),
            final(self).marked_set() == Set::<Seq<char>>::empty(),
            final(self).marked@.len() == 0,
            final(self).cursor == old(self).cursor,
            final(self).entries == old(self).entries,
            final(self).scroll_offset == old(self).scroll_offset,
            final(self).current_dir == old(self).current_dir,
            final(self).sort_order == old(self).sort_order,
            final(self).show_hidden == old(self).show_hidden,
            final(self).git_branch == old(self).git_branch,
    {
        self.marked = Vec::new();
        assert(texts(self.marked@) =~= Seq::<Seq<char>>::empty());
        assert(texts(self.marked@).to_set() =~= Set::<Seq<char>>::empty());
    }
}


/// The entries listed: all when hidden files are shown, else the visible.
pub open spec fn listed_when(show_hidden: bool) -> spec_fn(FileEntry) -> bool {
    |e: FileEntry| show_hidden || !e.is_hidden
}

/// The number of leading names that are (`equal`) or are not (`!equal`)
/// different from `target`: the index of the first name equal to it (or
/// different from it), or the length.
pub open spec fn leading_unmatched(s: Seq<Seq<char>>, target: Seq<char>, equal: bool) -> nat
    decreases s.len(),
{
    if s.len() > 0 && (s[0] == target) != equal {
        1 + leading_unmatched(s.drop_first(), target, equal)
    } else {
        0
    }
}

/// The total size of the entries whose names are in `marks`.
pub open spec fn marked_size(s: Seq<FileEntry>, marks: Set<Seq<char>>) -> nat
    decreases s.len(),
{
    if s.len() == 0 {
        0
    } else {
        marked_size(s.drop_last(), marks) + if marks.contains(s.last().name@) {
            s.last().size as nat
        } else {
            0
        }
    }
}

/// The index of the first entry whose name is (`equal`) or is not
/// (`!equal`) `target`, or the number of entries.
pub fn index_of_name(entries: &Vec<FileEntry>, target: &str, equal: bool) -> (k: usize)
    ensures
        k == leading_unmatched(names(entries@), target@, equal),
        k <= entries@.len(),
{
    let mut k: usize = 0;
    let ghost s = names(entries@);
    assert(s.skip(0) =~= s);
    while k < entries.len()
        invariant
            k <= entries@.len(),
            s == names(entries@),
            leading_unmatched(s, target@, equal) == k + leading_unmatched(s.skip(k as int), target@, equal),
        decreases entries@.len() - k,
    {
        let ghost rest = s.skip(k as int);
        assert(rest[0] == entries@[k as int].name@);
        if str_eq(entries[k].name.as_str(), target) == equal {
            return k;
        }
        assert(rest.drop_first() =~= s.skip(k + 1));
        k += 1;
    }
    k
}

/// The path checked before entering a directory: an error when it could not
/// be resolved or is no directory, else its resolved form.
pub open spec fn checked_target(path: Seq<char>, canonical: Option<Seq<char>>, is_dir: bool) -> Result<Seq<char>, ErrorSpec> {
    match canonical {
        None => Err(ErrorSpec::PathNotFound(path)),
        Some(c) => if is_dir {
            Ok(c)
        } else {
            Err(ErrorSpec::NotADirectory(c))
        },
    }
}

/// Checks a directory to enter, given what resolving `path` on disk gave
/// and whether that is a directory.
pub fn navigate_check(path: &str, canonical: Option<String>, is_dir: bool) -> (r: Result<String, AppError>)
    ensures
        match r {
            Ok(c) => checked_target(path@, opt_view(canonical), is_dir) == Ok::<Seq<char>, ErrorSpec>(c@),
            Err(e) => checked_target(path@, opt_view(canonical), is_dir) == Err::<Seq<char>, ErrorSpec>(e@),
        },
{
    match canonical {
        None => Err(AppError::PathNotFound(path.to_owned())),
        Some(c) => if is_dir {
            Ok(c)
        } else {
            Err(AppError::NotADirectory(c))
        },
    }
}

impl PaneState {
    /// Whether an entry is operated on when some names are marked.
    pub open spec fn marked_real(&self) -> spec_fn(FileEntry) -> bool {
        |e: FileEntry| !is_dot_name(e.name@) && self.marked_set().contains(e.name@)
    }

    /// The entries operated on: the marked real entries in listing order,
    /// or, with nothing marked, the real entry under the cursor.
    pub open spec fn selected(&self) -> Seq<FileEntry> {
        if self.marked@.len() == 0 {
            if self.cursor < self.entries@.len() && !is_dot_name(
                self.entries@[self.cursor as int].name@,
            ) {
                seq![self.entries@[self.cursor as int]]
            } else {
                Seq::empty()
            }
        } else {
            self.entries@.filter(self.marked_real())
        }
    }

    /// The entries operated on.
    pub fn selected_entries(&self) -> (r: Vec<&FileEntry>)
        ensures
            r@.map_values(|e: &FileEntry| *e) == self.selected(),
    {
        let mut r: Vec<&FileEntry> = Vec::new();
        if self.marked.len() == 0 {
            if self.cursor < self.entries.len() && !is_dot(self.entries[self.cursor].name.as_str()) {
                r.push(&self.entries[self.cursor]);
            }
            assert(r@.map_values(|e: &FileEntry| *e) =~= self.selected());
            return r;
        }
        let ghost p = self.marked_real();
        let mut i: usize = 0;
        assert(self.entries@.take(0) =~= Seq::<FileEntry>::empty());
        assert(Seq::<FileEntry>::empty().filter(p) =~= Seq::<FileEntry>::empty()) by {
            reveal(Seq::filter);
        }
        while i < self.entries.len()
            invariant
                i <= self.entries@.len(),
                p == self.marked_real(),
                r@.map_values(|e: &FileEntry| *e) == self.entries@.take(i as int).filter(p),
            decreases self.entries@.len() - i,
        {
            let e = &self.entries[i];
            proof {
                assert(self.entries@.take(i + 1) =~= self.entries@.take(i as int).push(*e));
                self.entries@.take(i as int).lemma_filter_push(*e, p);
            }
            if !is_dot(e.name.as_str()) && self.is_marked(e.name.as_str()) {
                let ghost before = r@;
                r.push(e);
                assert(r@.map_values(|e: &FileEntry| *e) =~= before.map_values(|e: &FileEntry| *e).push(*e));
            }
            i += 1;
        }
        assert(self.entries@.take(self.entries@.len() as int) =~= self.entries@);
        r
    }

    /// The paths of the entries operated on.
    pub fn selected_paths(&self) -> (r: Vec<String>)
        ensures
            texts(r@) == self.selected().map_values(|e: FileEntry| e.path@),
    {
        let sel = self.selected_entries();
        let ghost s = self.selected();
        let mut r: Vec<String> = Vec::new();
        let mut i: usize = 0;
        while i < sel.len()
            invariant
                i <= sel@.len(),
                sel@.map_values(|e: &FileEntry| *e) == s,
                texts(r@) == s.take(i as int).map_values(|e: FileEntry| e.path@),
            decreases sel@.len() - i,
        {
            let ghost before = r@;
            assert(sel@.map_values(|e: &FileEntry| *e)[i as int] == *sel@[i as int]);
            assert(s[i as int] == *sel@[i as int]);
            let p = sel[i].path.clone();
            r.push(p);
            assert(texts(r@) =~= texts(before).push(s[i as int].path@));
            assert(s.take(i + 1) =~= s.take(i as int).push(s[i as int]));
            assert(s.take(i + 1).map_values(|e: FileEntry| e.path@) =~= s.take(i as int).map_values(
                |e: FileEntry| e.path@,
            ).push(s[i as int].path@));
            i += 1;
        }
        assert(s.take(s.len() as int) =~= s);
        r
    }

    /// `"n件選択中（size）"` for `n` marked names of total size `size`, or
    /// `None` when nothing is marked.
    pub fn mark_summary(&self) -> (r: Option<String>)
        requires
            marked_size(self.entries@, self.marked_set()) <= u64::MAX,
        ensures
            self.marked@.len() == 0 ==> r is None,
            self.marked@.len() > 0 ==> (r matches Some(s) && s@ == decimal(self.marked@.len())
                + "件選択中（"@ + size_text(marked_size(self.entries@, self.marked_set())) + "）"@),
    {
        if self.marked.len() == 0 {
            return None;
        }
        let mut total: u64 = 0;
        let mut i: usize = 0;
        while i < self.entries.len()
            invariant
                i <= self.entries@.len(),
                marked_size(self.entries@, self.marked_set()) <= u64::MAX,
                total == marked_size(self.entries@.take(i as int), self.marked_set()),
            decreases self.entries@.len() - i,
        {
            proof {
                assert(self.entries@.take(i + 1).drop_last() =~= self.entries@.take(i as int));
                lemma_marked_size_prefix(self.entries@, self.marked_set(), i + 1);
            }
            if self.is_marked(self.entries[i].name.as_str()) {
                total = total + self.entries[i].size;
            }
            i += 1;
        }
        assert(self.entries@.take(self.entries@.len() as int) =~= self.entries@);
        let mut s = String::new();
        push_decimal(&mut s, self.marked.len() as u64);
        push_str(&mut s, "件選択中（");
        let f = format_size(total);
        push_str(&mut s, f.as_str());
        push_str(&mut s, "）");
        Some(s)
    }
}

/// A prefix's marked size is at most the whole's.
pub proof fn lemma_marked_size_prefix(s: Seq<FileEntry>, marks: Set<Seq<char>>, i: int)
    requires
        0 <= i <= s.len(),
    ensures
        marked_size(s.take(i), marks) <= marked_size(s, marks),
    decreases s.len() - i,
{
    if i < s.len() {
        lemma_marked_size_prefix(s, marks, i + 1);
        assert(s.take(i + 1).drop_last() =~= s.take(i));
    } else {
        assert(s.take(i) =~= s);
    }
}


impl PaneState {
    /// What listing `listing` shows: `.`, then `..` if given, then the
    /// listed entries (hidden ones only when shown) in the pane's order,
    /// entries that rank equal keeping their order.
    pub open spec fn shows_listing(
        &self,
        listing: Seq<FileEntry>,
        dot: FileEntry,
        dotdot: Option<FileEntry>,
    ) -> bool {
        let shown = listing.filter(listed_when(self.show_hidden));
        let d: int = if dotdot is Some { 2 } else { 1 };
        let rest = self.entries@.skip(d);
        &&& self.entries@.len() == d + shown.len()
        &&& self.entries@[0] == dot
        &&& (dotdot matches Some(e) ==> self.entries@[1] == e)
        &&& rest.to_multiset() == shown.to_multiset()
        &&& self.sort_order.is_sorted(rest)
        &&& self.sort_order.keeps_ties(shown, rest)
    }

    /// Shows a directory listing read from disk: keeps the entries to show,
    /// sorts them, puts `.` and `..` (when given) first and brings the cursor
    /// back onto the entries.
    pub fn apply_listing(
        &mut self,
        listing: Vec<FileEntry>,
        dot: FileEntry,
        dotdot: Option<FileEntry>,
        git_branch: Option<String>,
    )
        ensures
            final(self).shows_listing(listing@, dot, dotdot),
            final(self).cursor == if old(self).cursor < final(self).entries@.len() {
                old(self).cursor as int
            } else {
                final(self).entries@.len() - 1
            },
            final(self).git_branch == git_branch,
            final(self).marked == old(self).marked,
            final(self).scroll_offset == old(self).scroll_offset,
            final(self).current_dir == old(self).current_dir,
            final(self).sort_order == old(self).sort_order,
            final(self).show_hidden == old(self).show_hidden,
    {
        let ghost p = listed_when(self.show_hidden);
        let mut shown: Vec<FileEntry> = Vec::new();
        let mut i: usize = 0;
        assert(listing@.take(0) =~= Seq::<FileEntry>::empty());
        assert(Seq::<FileEntry>::empty().filter(p) =~= Seq::<FileEntry>::empty()) by {
            reveal(Seq::filter);
        }
        while i < listing.len()
            invariant
                i <= listing@.len(),
                p == listed_when(self.show_hidden),
                shown@ == listing@.take(i as int).filter(p),
            decreases listing@.len() - i,
        {
            let e = &listing[i];
            proof {
                assert(listing@.take(i + 1) =~= listing@.take(i as int).push(*e));
                listing@.take(i as int).lemma_filter_push(*e, p);
            }
            if self.show_hidden || !e.is_hidden {
                shown.push(e.copy_entry());
            }
            i += 1;
        }
        assert(listing@.take(listing@.len() as int) =~= listing@);
        let ghost filtered = shown@;
        self.sort_order.sort(&mut shown);
        let mut entries: Vec<FileEntry> = Vec::new();
        entries.push(dot);
        match dotdot {
            Some(e) => entries.push(e),
            None => {},
        }
        let ghost d = entries@.len();
        let ghost head = entries@;
        let mut j: usize = 0;
        while j < shown.len()
            invariant
                j <= shown@.len(),
                entries@ == head + shown@.take(j as int),
            decreases shown@.len() - j,
        {
            entries.push(shown[j].copy_entry());
            assert(entries@ =~= head + shown@.take(j + 1));
            j += 1;
        }
        assert(shown@.take(shown@.len() as int) =~= shown@);
        assert(entries@.skip(d as int) =~= shown@);
        self.entries = entries;
        self.git_branch = git_branch;
        self.clamp_cursor();
    }
}


/// Where the cursor goes on entering a directory: on `..` if listed, else
/// on the first entry that is not `.`, else on the first.
pub open spec fn entry_cursor(n: Seq<Seq<char>>) -> nat {
    let a = leading_unmatched(n, ".."@, true);
    let b = leading_unmatched(n, "."@, false);
    if a < n.len() {
        a
    } else if b < n.len() {
        b
    } else {
        0
    }
}

impl PaneState {
    /// Enters directory `dir` (already checked) with the listing read from
    /// it: nothing is marked, the view starts at the top, and the cursor is
    /// placed on `..` or the first real entry.
    pub fn enter_dir(
        &mut self,
        dir: String,
        listing: Vec<FileEntry>,
        dot: FileEntry,
        dotdot: Option<FileEntry>,
        git_branch: Option<String>,
    )
        ensures
            final(self).wf(),
            final(self).current_dir == dir,
            final(self).shows_listing(listing@, dot, dotdot),
            final(self).cursor == entry_cursor(names(final(self).entries@)),
            final(self).scroll_offset == 0,
            final(self).marked@.len() == 0,
            final(self).git_branch == git_branch,
            final(self).sort_order == old(self).sort_order,
            final(self).show_hidden == old(self).show_hidden,
    {
        self.current_dir = dir;
        self.cursor = 0;
        self.scroll_offset = 0;
        self.clear_marks();
        self.apply_listing(listing, dot, dotdot, git_branch);
        let a = index_of_name(&self.entries, "..", true);
        if a < self.entries.len() {
            self.cursor = a;
        } else {
            let b = index_of_name(&self.entries, ".", false);
            if b < self.entries.len() {
                self.cursor = b;
            }
        }
    }

    /// Puts the cursor on the first entry named `name`, if there is one.
    pub fn focus_entry(&mut self, name: &str)
        ensures
            leading_unmatched(names(old(self).entries@), name@, true) < old(self).entries@.len()
                ==> final(self).cursor == leading_unmatched(names(old(self).entries@), name@, true),
            leading_unmatched(names(old(self).entries@), name@, true) >= old(self).entries@.len()
                ==> final(self).cursor == old(self).cursor,
            final(self).entries == old(self).entries,
            final(self).marked == old(self).marked,
            final(self).scroll_offset == old(self).scroll_offset,
            final(self).current_dir == old(self).current_dir,
            final(self).sort_order == old(self).sort_order,
            final(self).show_hidden == old(self).show_hidden,
            final(self).git_branch == old(self).git_branch,
    {
        let k = index_of_name(&self.entries, name, true);
        if k < self.entries.len() {
            self.cursor = k;
        }
    }

    /// For going up: the parent directory and the name of the current one
    /// (to put the cursor on afterwards), or `None` at the root.
    pub fn parent_target(&self) -> (r: Option<(String, Option<String>)>)
        ensures
            r is None <==> parent_of(self.current_dir@) is None,
            r matches Some((p, n)) ==> parent_of(self.current_dir@) == Some(p@) && opt_view(n)
                == file_name_of(self.current_dir@),
    {
        let name = path_file_name(self.current_dir.as_str());
        match path_parent(self.current_dir.as_str()) {
            Some(p) => Some((p, name)),
            None => None,
        }
    }
}


/// Toggling the mark under the cursor twice leaves the marks as they were.
pub proof fn lemma_toggle_twice(p: PaneState, q: PaneState)
    requires
        q.entries == p.entries,
        q.cursor == p.cursor,
        q.marked_set() == p.toggled_marks(),
    ensures
        q.toggled_marks() == p.marked_set(),
{
    if p.cursor < p.entries@.len() && !is_dot_name(p.entries@[p.cursor as int].name@) {
        let n = p.entries@[p.cursor as int].name@;
        if p.marked_set().contains(n) {
            assert(p.marked_set().remove(n).insert(n) =~= p.marked_set());
        } else {
            assert(p.marked_set().insert(n).remove(n) =~= p.marked_set());
        }
    }
}

/// In a listing whose real names are distinct, marking all and toggling
/// again marks nothing.
pub proof fn lemma_toggle_all_twice(p: PaneState, q: PaneState)
    requires
        p.marked@.len() == 0,
        real_names(p.entries@).len() > 0,
        real_names(p.entries@).no_duplicates(),
        q.wf(),
        q.entries == p.entries,
        q.marked_set() == p.all_toggled_marks(),
    ensures
        q.marked_set() == real_names(p.entries@).to_set(),
        q.all_toggled_marks() == Set::<Seq<char>>::empty(),
{
    let r = real_names(p.entries@);
    r.unique_seq_to_set();
    texts(q.marked@).unique_seq_to_set();
    assert(texts(q.marked@).len() == q.marked@.len());
}

/// After scrolling a view at least four rows high, the cursor's row is
/// shown.
pub proof fn lemma_scroll_shows_cursor(cursor: int, offset: int, height: int)
    requires
        0 <= cursor,
        0 <= offset,
        height >= 4,
    ensures
        scrolled(cursor, offset, height) <= cursor < scrolled(cursor, offset, height) + height,
        scrolled(cursor, offset, height) >= 0,
{
}

/// What an operation acts on. With marks, it is exactly the marked
/// entries of the listing other than `.` and `..`, whatever their kind
/// (file, directory or link), each as listed; with no marks, it is the
/// entry under the cursor unless that is `.` or `..`.
pub proof fn lemma_selection(p: PaneState)
    ensures
        p.marked@.len() > 0 ==> forall|i: int|
            0 <= i < p.entries@.len() && !is_dot_name(p.entries@[i].name@) && p.marked_set().contains(
                p.entries@[i].name@,
            ) ==> #[trigger] p.selected().contains(p.entries@[i]),
        p.marked@.len() > 0 ==> forall|e: FileEntry| #[trigger] p.selected().contains(e) ==> {
            &&& p.entries@.contains(e)
            &&& !is_dot_name(e.name@)
            &&& p.marked_set().contains(e.name@)
        },
        p.marked@.len() == 0 ==> (p.selected() == if p.cursor < p.entries@.len() && !is_dot_name(
            p.entries@[p.cursor as int].name@,
        ) {
            seq![p.entries@[p.cursor as int]]
        } else {
            Seq::<FileEntry>::empty()
        }),
{
    if p.marked@.len() > 0 {
        let pred = p.marked_real();
        assert forall|i: int|
            0 <= i < p.entries@.len() && !is_dot_name(p.entries@[i].name@) && p.marked_set().contains(
                p.entries@[i].name@,
            ) implies #[trigger] p.selected().contains(p.entries@[i]) by {
            p.entries@.lemma_filter_contains(pred, i);
        }
        assert forall|e: FileEntry| #[trigger] p.selected().contains(e) implies {
            &&& p.entries@.contains(e)
            &&& !is_dot_name(e.name@)
            &&& p.marked_set().contains(e.name@)
        } by {
            p.entries@.lemma_filter_contains_rev(pred, e);
            let k = choose|k: int| 0 <= k < p.selected().len() && p.selected()[k] == e;
            p.entries@.lemma_filter_pred(pred, k);
        }
    }
}

} // verus!
