//! One directory entry and the orders in which a listing is sorted.

use vstd::prelude::*;
use crate::order::{compare_chars, compare_int, compare_text, flip, lemma_compare_text_flip, lemma_compare_text_trans, Comparison};
use crate::command::executor::opt_view;
use crate::paths::{extension_of, path_extension};
use crate::text::{chars_of, lowercase, starts_with, to_lowercase};
use crate::utils::format::{format_permissions, permissions_text};

verus! {

/// What kind of entry a file is.
#[derive(Debug, Clone, Copy, PartialEq, Eq, Structural)]
pub enum EntryType {
    Directory,
    File,
    Executable,
    Symlink,
}

/// One file or directory of a listing. Times are nanoseconds since the Unix
/// epoch (negative before it); paths are their display text.
#[derive(Debug)]
pub struct FileEntry {
    pub name: String,
    pub path: String,
    pub entry_type: EntryType,
    pub size: u64,
    pub modified: i128,
    pub created: Option<i128>,
    /// Unix permission bits (0 where the platform has none).
    pub mode: u32,
    pub is_hidden: bool,
    pub is_symlink: bool,
    pub symlink_target: Option<String>,
    /// The lowercased extension, kept for sorting.
    pub extension: Option<String>,
}

/// What is read from disk for one directory entry. For a symbolic link,
/// `is_dir`, `mode`, `size` and the times are those of its target (of the
/// link itself when the target is missing).
#[derive(Debug)]
pub struct EntryMetadata {
    pub name: String,
    pub path: String,
    pub is_symlink: bool,
    pub is_dir: bool,
    pub mode: u32,
    pub size: u64,
    /// Modification time; `None` where the platform gave none.
    pub modified: Option<i128>,
    pub created: Option<i128>,
    pub symlink_target: Option<String>,
}

/// The kind of an entry: a directory, else a link, else an executable when
/// any execute bit is set, else a file.
pub open spec fn kind_of(mode: u32, is_dir: bool, is_symlink: bool) -> EntryType {
    if is_dir {
        EntryType::Directory
    } else if is_symlink {
        EntryType::Symlink
    } else if mode & 0o111 != 0 {
        EntryType::Executable
    } else {
        EntryType::File
    }
}

/// A name is hidden when it starts with `.`.
pub open spec fn hidden_name(name: Seq<char>) -> bool {
    name.len() > 0 && name[0] == '.'
}

/// The extension of a path, lowercased.
pub open spec fn lowered_extension(path: Seq<char>) -> Option<Seq<char>> {
    match extension_of(path) {
        Some(e) => Some(lowercase(e)),
        None => None,
    }
}

/// The mode, hidden flag and kind of an entry on a Unix system.
pub fn platform_metadata(name: &str, mode: u32, is_dir: bool, is_symlink: bool) -> (r: (
    u32,
    bool,
    EntryType,
))
    ensures
        r.0 == mode,
        r.1 == hidden_name(name@),
        r.2 == kind_of(mode, is_dir, is_symlink),
{
    let is_hidden = starts_with(name, ".");
    proof {
        reveal_strlit(".");
        assert("."@.len() == 1 && "."@[0] == '.');
        if name@.len() > 0 && name@[0] == '.' {
            assert("."@ =~= name@.subrange(0, 1));
        }
        if "."@.is_prefix_of(name@) {
            assert(name@[0] == "."@[0]);
        }
    }
    let entry_type = if is_dir {
        EntryType::Directory
    } else if is_symlink {
        EntryType::Symlink
    } else if mode & 0o111 != 0 {
        EntryType::Executable
    } else {
        EntryType::File
    };
    (mode, is_hidden, entry_type)
}

impl FileEntry {
    /// The entry for what was read of a directory entry: its kind and
    /// hidden flag from the metadata, the lowercased extension of its path,
    /// and the epoch for a missing modification time.
    pub fn from_dir_entry(m: EntryMetadata) -> (e: FileEntry)
        ensures
            e.name@ == m.name@,
            e.path@ == m.path@,
            e.entry_type == kind_of(m.mode, m.is_dir, m.is_symlink),
            e.size == m.size,
            e.modified == (match m.modified {
                Some(t) => t,
                None => 0,
            }),
            e.created == m.created,
            e.mode == m.mode,
            e.is_hidden == hidden_name(m.name@),
            e.is_symlink == m.is_symlink,
            opt_view(e.symlink_target) == (if m.is_symlink {
                opt_view(m.symlink_target)
            } else {
                None
            }),
            opt_view(e.extension) == lowered_extension(m.path@),
    {
        let (mode, is_hidden, entry_type) = platform_metadata(
            m.name.as_str(),
            m.mode,
            m.is_dir,
            m.is_symlink,
        );
        let extension = match path_extension(m.path.as_str()) {
            Some(x) => Some(to_lowercase(x.as_str())),
            None => None,
        };
        let symlink_target = if m.is_symlink {
            m.symlink_target
        } else {
            None
        };
        let modified = match m.modified {
            Some(t) => t,
            None => 0,
        };
        FileEntry {
            name: m.name,
            path: m.path,
            entry_type,
            size: m.size,
            modified,
            created: m.created,
            mode,
            is_hidden,
            is_symlink: m.is_symlink,
            symlink_target,
            extension,
        }
    }

    /// The entry shown as `.` or `..`: a directory of size 0 with the times
    /// and mode read from it (the epoch and 0 where none were read).
    pub fn create_dot_entry(
        name: &str,
        path: String,
        modified: Option<i128>,
        created: Option<i128>,
        mode: Option<u32>,
    ) -> (e: FileEntry)
        ensures
            e.name@ == name@,
            e.path@ == path@,
            e.entry_type == EntryType::Directory,
            e.size == 0,
            e.modified == (match modified {
                Some(t) => t,
                None => 0,
            }),
            e.created == created,
            e.mode == (match mode {
                Some(m) => m,
                None => 0,
            }),
            !e.is_hidden,
            !e.is_symlink,
            e.symlink_target is None,
            e.extension is None,
    {
        FileEntry {
            name: name.to_owned(),
            path,
            entry_type: EntryType::Directory,
            size: 0,
            modified: match modified {
                Some(t) => t,
                None => 0,
            },
            created,
            mode: match mode {
                Some(m) => m,
                None => 0,
            },
            is_hidden: false,
            is_symlink: false,
            symlink_target: None,
            extension: None,
        }
    }

    /// An equal copy of the entry.
    pub fn copy_entry(&self) -> (r: FileEntry)
        ensures
            r == *self,
    {
        FileEntry {
            name: self.name.clone(),
            path: self.path.clone(),
            entry_type: self.entry_type,
            size: self.size,
            modified: self.modified,
            created: self.created,
            mode: self.mode,
            is_hidden: self.is_hidden,
            is_symlink: self.is_symlink,
            symlink_target: match &self.symlink_target {
                Some(s) => Some(s.clone()),
                None => None,
            },
            extension: match &self.extension {
                Some(s) => Some(s.clone()),
                None => None,
            },
        }
    }

    /// Whether the entry is a directory.
    pub open spec fn spec_is_dir(&self) -> bool {
        self.entry_type == EntryType::Directory
    }

    /// Whether the entry is a directory.
    pub fn is_dir(&self) -> (r: bool)
        ensures
            r == self.spec_is_dir(),
    {
        self.entry_type == EntryType::Directory
    }

    /// The permissions as shown in the status line.
    pub fn permission_string(&self) -> (r: String)
        ensures
            r@ == permissions_text(self.mode, self.spec_is_dir(), self.is_symlink),
    {
        format_permissions(self.mode, self.entry_type == EntryType::Directory, self.is_symlink)
    }
}

/// The key a listing is sorted by.
#[derive(Debug, Clone, Copy, PartialEq, Eq, Structural)]
pub enum SortCriteria {
    Name,
    Size,
    Date,
    Extension,
}

/// How a listing is sorted: the key, the direction, and whether
/// directories come before everything else.
#[derive(Debug, Clone, Copy, PartialEq, Eq, Structural)]
pub struct SortOrder {
    pub criteria: SortCriteria,
    pub ascending: bool,
    pub dirs_first: bool,
}

/// The extension used as a sort key, empty when there is none.
pub open spec fn ext_key(e: FileEntry) -> Seq<char> {
    match e.extension {
        Some(x) => x@,
        None => seq![],
    }
}

/// Compares two entries by one key alone. Names compare lowercased.
pub open spec fn compare_by(c: SortCriteria, a: FileEntry, b: FileEntry) -> Comparison {
    match c {
        SortCriteria::Name => compare_text(lowercase(a.name@), lowercase(b.name@)),
        SortCriteria::Size => compare_int(a.size as int, b.size as int),
        SortCriteria::Date => compare_int(a.modified as int, b.modified as int),
        SortCriteria::Extension => compare_text(ext_key(a), ext_key(b)),
    }
}

impl SortOrder {
    /// The order between two entries: directories first when asked, then
    /// the key, reversed when descending.
    pub open spec fn spec_compare(self, a: FileEntry, b: FileEntry) -> Comparison {
        if self.dirs_first && a.spec_is_dir() != b.spec_is_dir() {
            if a.spec_is_dir() {
                Comparison::Less
            } else {
                Comparison::Greater
            }
        } else if self.ascending {
            compare_by(self.criteria, a, b)
        } else {
            flip(compare_by(self.criteria, a, b))
        }
    }

    /// The entries that rank equal to `z` in this order.
    pub open spec fn ties(self, z: FileEntry) -> spec_fn(FileEntry) -> bool {
        |y: FileEntry| self.spec_compare(y, z) == Comparison::Equal
    }

    /// Entries that rank equal keep their relative order from `a` to `b`.
    pub open spec fn keeps_ties(self, a: Seq<FileEntry>, b: Seq<FileEntry>) -> bool {
        forall|z: FileEntry| #[trigger] b.filter(self.ties(z)) == a.filter(self.ties(z))
    }

    /// Whether `s` is in this order.
    pub open spec fn is_sorted(self, s: Seq<FileEntry>) -> bool {
        forall|i: int, j: int|
            0 <= i < j < s.len() ==> self.spec_compare(s[i], s[j]) != Comparison::Greater
    }
}

/// One key compares the other way round when the entries are swapped.
proof fn lemma_compare_by_flip(c: SortCriteria, a: FileEntry, b: FileEntry)
    ensures
        compare_by(c, b, a) == flip(compare_by(c, a, b)),
{
    match c {
        SortCriteria::Name => lemma_compare_text_flip(lowercase(a.name@), lowercase(b.name@)),
        SortCriteria::Extension => lemma_compare_text_flip(ext_key(a), ext_key(b)),
        _ => {},
    }
}

/// One key is a transitive order.
proof fn lemma_compare_by_trans(c: SortCriteria, a: FileEntry, b: FileEntry, d: FileEntry)
    requires
        compare_by(c, a, b) != Comparison::Greater,
        compare_by(c, b, d) != Comparison::Greater,
    ensures
        compare_by(c, a, d) != Comparison::Greater,
{
    match c {
        SortCriteria::Name => lemma_compare_text_trans(
            lowercase(a.name@),
            lowercase(b.name@),
            lowercase(d.name@),
        ),
        SortCriteria::Extension => lemma_compare_text_trans(ext_key(a), ext_key(b), ext_key(d)),
        _ => {},
    }
}

/// Filtering keeps nothing when nothing passes.
pub proof fn lemma_filter_none<A>(s: Seq<A>, pred: spec_fn(A) -> bool)
    requires
        forall|k: int| 0 <= k < s.len() ==> !pred(#[trigger] s[k]),
    ensures
        s.filter(pred) =~= Seq::<A>::empty(),
    decreases s.len(),
{
    reveal(Seq::filter);
    if s.len() > 0 {
        lemma_filter_none(s.drop_last(), pred);
    }
}

/// Filtering a sequence keeps its first element, if that passes, in front
/// of the filtered rest.
proof fn lemma_filter_head<A>(s: Seq<A>, p: spec_fn(A) -> bool)
    requires
        s.len() > 0,
    ensures
        s.filter(p) == (if p(s[0]) {
            seq![s[0]]
        } else {
            Seq::empty()
        }) + s.drop_first().filter(p),
{
    assert(s =~= seq![s[0]] + s.drop_first());
    s.drop_first().lemma_filter_prepend(s[0], p);
}

impl SortOrder {
    /// Swapping the entries flips the comparison.
    pub proof fn lemma_flip(self, a: FileEntry, b: FileEntry)
        ensures
            self.spec_compare(b, a) == flip(self.spec_compare(a, b)),
    {
        lemma_compare_by_flip(self.criteria, a, b);
    }

    /// The order is transitive.
    pub proof fn lemma_trans(self, a: FileEntry, b: FileEntry, d: FileEntry)
        requires
            self.spec_compare(a, b) != Comparison::Greater,
            self.spec_compare(b, d) != Comparison::Greater,
        ensures
            self.spec_compare(a, d) != Comparison::Greater,
    {
        if self.dirs_first && (a.spec_is_dir() != b.spec_is_dir() || b.spec_is_dir()
            != d.spec_is_dir()) {
        } else if self.ascending {
            lemma_compare_by_trans(self.criteria, a, b, d);
        } else {
            lemma_compare_by_flip(self.criteria, a, b);
            lemma_compare_by_flip(self.criteria, b, d);
            lemma_compare_by_flip(self.criteria, a, d);
            lemma_compare_by_trans(self.criteria, d, b, a);
        }
    }

    /// The default order: by name, ascending, directories first.
    pub fn default() -> (r: SortOrder)
        ensures
            r == (SortOrder { criteria: SortCriteria::Name, ascending: true, dirs_first: true }),
    {
        SortOrder { criteria: SortCriteria::Name, ascending: true, dirs_first: true }
    }

    /// Compares two entries by one key.
    fn compare_key(&self, a: &FileEntry, b: &FileEntry) -> (r: Comparison)
        ensures
            r == compare_by(self.criteria, *a, *b),
    {
        match self.criteria {
            SortCriteria::Name => {
                let la = to_lowercase(a.name.as_str());
                let lb = to_lowercase(b.name.as_str());
                let va = chars_of(la.as_str());
                let vb = chars_of(lb.as_str());
                compare_chars(&va, &vb)
            },
            SortCriteria::Size => {
                if a.size < b.size {
                    Comparison::Less
                } else if a.size == b.size {
                    Comparison::Equal
                } else {
                    Comparison::Greater
                }
            },
            SortCriteria::Date => {
                if a.modified < b.modified {
                    Comparison::Less
                } else if a.modified == b.modified {
                    Comparison::Equal
                } else {
                    Comparison::Greater
                }
            },
            SortCriteria::Extension => {
                let va = match &a.extension {
                    Some(x) => chars_of(x.as_str()),
                    None => Vec::new(),
                };
                let vb = match &b.extension {
                    Some(x) => chars_of(x.as_str()),
                    None => Vec::new(),
                };
                assert(va@ =~= ext_key(*a));
                assert(vb@ =~= ext_key(*b));
                compare_chars(&va, &vb)
            },
        }
    }

    /// Compares two entries in this order.
    pub fn compare_entries(&self, a: &FileEntry, b: &FileEntry) -> (r: Comparison)
        ensures
            r == self.spec_compare(*a, *b),
    {
        if self.dirs_first {
            let ad = a.is_dir();
            let bd = b.is_dir();
            if ad != bd {
                return if ad {
                    Comparison::Less
                } else {
                    Comparison::Greater
                };
            }
        }
        let c = self.compare_key(a, b);
        if self.ascending {
            c
        } else {
            match c {
                Comparison::Less => Comparison::Greater,
                Comparison::Equal => Comparison::Equal,
                Comparison::Greater => Comparison::Less,
            }
        }
    }

    /// Sorts a listing into this order, keeping its entries.
    pub fn sort(&self, entries: &mut Vec<FileEntry>)
        ensures
            final(entries)@.len() == old(entries)@.len(),
            final(entries)@.to_multiset() == old(entries)@.to_multiset(),
            self.is_sorted(final(entries)@),
            self.keeps_ties(old(entries)@, final(entries)@),
    {
        broadcast use vstd::seq_lib::group_to_multiset_ensures;
        broadcast use vstd::seq::Seq::filter_distributes_over_add;

        let n = entries.len();
        if n == 0 {
            return;
        }
        let mut i: usize = 1;
        proof {
            assert forall|z: FileEntry| #[trigger]
                entries@.take(1).filter(self.ties(z)) == old(entries)@.take(1).filter(
                    self.ties(z),
                ) by {
                assert(entries@.take(1) =~= old(entries)@.take(1));
            }
        }
        while i < n
            invariant
                1 <= i <= n,
                entries@.len() == n,
                old(entries)@.len() == n,
                entries@.to_multiset() == old(entries)@.to_multiset(),
                forall|k: int| i <= k < n ==> #[trigger] entries@[k] == old(entries)@[k],
                forall|z: FileEntry| #[trigger]
                    entries@.take(i as int).filter(self.ties(z)) == old(entries)@.take(
                        i as int,
                    ).filter(self.ties(z)),
                forall|a: int, b: int|
                    0 <= a < b < i ==> self.spec_compare(entries@[a], entries@[b])
                        != Comparison::Greater,
            decreases n - i,
        {
            let ghost before = entries@;
            let x = entries.remove(i);
            let ghost removed = entries@;
            assert(removed =~= before.remove(i as int));
            let mut j: usize = i;
            while j > 0 && self.compare_entries(&entries[j - 1], &x) == Comparison::Greater
                invariant
                    0 <= j <= i,
                    i < n,
                    entries@ == removed,
                    removed.len() == n - 1,
                    forall|k: int|
                        j <= k < i ==> self.spec_compare(x, #[trigger] removed[k])
                            == Comparison::Less,
                decreases j,
            {
                proof {
                    self.lemma_flip(removed[j - 1], x);
                }
                j -= 1;
            }
            entries.insert(j, x);
            proof {
                let s = entries@;
                assert(s =~= removed.insert(j as int, x));
                assert(before[i as int] == x);
                assert(before.contains(x));
                vstd::seq_lib::to_multiset_contains(before, x);
                vstd::seq_lib::to_multiset_remove(before, i as int);
                vstd::seq_lib::to_multiset_insert(removed, j as int, x);
                assert(before.to_multiset().count(x) > 0);
                assert(removed.to_multiset() == before.to_multiset().remove(x));
                assert(s.to_multiset() == removed.to_multiset().insert(x));
                assert(s.to_multiset() =~= before.to_multiset());
                assert forall|a: int, b: int| 0 <= a < b < i + 1 implies self.spec_compare(
                    s[a],
                    s[b],
                ) != Comparison::Greater by {
                    if a < j && b < j {
                        assert(s[a] == before[a] && s[b] == before[b]);
                    } else if a < j && b == j {
                        assert(s[b] == x);
                        assert(self.spec_compare(removed[j - 1], x) != Comparison::Greater);
                        if a < j - 1 {
                            assert(before[a] == removed[a] && before[j - 1] == removed[j - 1]);
                            self.lemma_trans(removed[a], removed[j - 1], x);
                        }
                    } else if a < j && b > j {
                        assert(s[a] == removed[a] && s[b] == removed[b - 1]);
                        assert(removed[a] == before[a]);
                        assert(removed[b - 1] == before[b - 1]);
                    } else if a == j {
                        assert(s[a] == x && s[b] == removed[b - 1]);
                        assert(self.spec_compare(x, removed[b - 1]) == Comparison::Less);
                    } else {
                        assert(s[a] == removed[a - 1] && s[b] == removed[b - 1]);
                        assert(removed[a - 1] == before[a - 1] && removed[b - 1] == before[b - 1]);
                    }
                }
                assert forall|k: int| i + 1 <= k < n implies #[trigger] s[k] == old(entries)@[k] by {
                    assert(s[k] == removed[k - 1]);
                    assert(removed[k - 1] == before[k]);
                }
                assert(x == old(entries)@[i as int]);
                let p = before.take(i as int);
                assert(s.take(i + 1) =~= p.take(j as int) + seq![x] + p.subrange(j as int, i as int));
                assert(p =~= p.take(j as int) + p.subrange(j as int, i as int));
                assert(old(entries)@.take(i + 1) =~= old(entries)@.take(i as int).push(x));
                assert(seq![x] =~= Seq::<FileEntry>::empty().push(x));
                assert forall|z: FileEntry| #[trigger]
                    s.take(i + 1).filter(self.ties(z)) == old(entries)@.take(i + 1).filter(
                        self.ties(z),
                    ) by {
                    let t = self.ties(z);
                    let hi = p.subrange(j as int, i as int);
                    Seq::<FileEntry>::empty().lemma_filter_push(x, t);
                    old(entries)@.take(i as int).lemma_filter_push(x, t);
                    assert(Seq::<FileEntry>::empty().filter(t) =~= Seq::<FileEntry>::empty()) by {
                        reveal(Seq::filter);
                    }
                    let lo = p.take(j as int);
                    let o = old(entries)@.take(i as int);
                    assert(p.filter(t) == o.filter(t));
                    assert((lo + seq![x] + hi).filter(t) == (lo + seq![x]).filter(t) + hi.filter(t));
                    assert((lo + seq![x]).filter(t) == lo.filter(t) + seq![x].filter(t));
                    assert(p.filter(t) == lo.filter(t) + hi.filter(t));
                    if t(x) {
                        assert forall|m: int| 0 <= m < hi.len() implies !t(#[trigger] hi[m]) by {
                            let e = hi[m];
                            assert(e == removed[j + m]);
                            assert(self.spec_compare(x, e) == Comparison::Less);
                            self.lemma_flip(x, e);
                            if t(e) {
                                self.lemma_flip(x, z);
                                self.lemma_trans(e, z, x);
                            }
                        }
                        lemma_filter_none(hi, t);
                        assert(s.take(i + 1).filter(t) =~= o.filter(t).push(x));
                    } else {
                        assert(s.take(i + 1).filter(t) =~= o.filter(t));
                    }
                }
            }
            i += 1;
        }
        proof {
            assert(entries@.take(n as int) =~= entries@);
            assert(old(entries)@.take(n as int) =~= old(entries)@);
        }
    }

    /// The display label of the sort key.
    pub fn criteria_label(&self) -> (r: &'static str)
        ensures
            r@ == match self.criteria {
                SortCriteria::Name => "Name"@,
                SortCriteria::Size => "Size"@,
                SortCriteria::Date => "Date"@,
                SortCriteria::Extension => "Ext"@,
            },
    {
        match self.criteria {
            SortCriteria::Name => "Name",
            SortCriteria::Size => "Size",
            SortCriteria::Date => "Date",
            SortCriteria::Extension => "Ext",
        }
    }

    /// An entry ranks equal to itself.
    pub proof fn lemma_compare_self(self, x: FileEntry)
        ensures
            self.spec_compare(x, x) == Comparison::Equal,
    {
        self.lemma_flip(x, x);
    }

    /// Two listings that are both in this order, and in which the entries
    /// that rank equal come in the same relative order, are the same
    /// listing; so sorting a sorted listing again changes nothing.
    pub proof fn lemma_sorted_unique(self, a: Seq<FileEntry>, b: Seq<FileEntry>)
        requires
            self.is_sorted(a),
            self.is_sorted(b),
            self.keeps_ties(a, b),
        ensures
            a == b,
        decreases a.len() + b.len(),
    {
        if a.len() == 0 && b.len() == 0 {
            assert(a =~= b);
        } else if a.len() == 0 {
            let y = b[0];
            self.lemma_compare_self(y);
            lemma_filter_head(b, self.ties(y));
            a.lemma_filter_len(self.ties(y));
            assert(b.filter(self.ties(y)) == a.filter(self.ties(y)));
        } else if b.len() == 0 {
            let x = a[0];
            self.lemma_compare_self(x);
            lemma_filter_head(a, self.ties(x));
            b.lemma_filter_len(self.ties(x));
            assert(b.filter(self.ties(x)) == a.filter(self.ties(x)));
        } else {
            let x = a[0];
            let y = b[0];
            self.lemma_compare_self(x);
            self.lemma_compare_self(y);
            lemma_filter_head(a, self.ties(x));
            lemma_filter_head(b, self.ties(y));
            // Some entry of `a` ranks equal to `y`, so `x` ranks at most `y`.
            let fy = a.filter(self.ties(y));
            assert(fy == b.filter(self.ties(y)));
            assert(fy.len() > 0);
            let w = fy[0];
            a.lemma_filter_pred(self.ties(y), 0);
            assert(fy.contains(w));
            a.lemma_filter_contains_rev(self.ties(y), w);
            let k = choose|k: int| 0 <= k < a.len() && a[k] == w;
            if k > 0 {
                assert(self.spec_compare(a[0], a[k]) != Comparison::Greater);
            }
            self.lemma_trans(x, w, y);
            // Some entry of `b` ranks equal to `x`, so `y` ranks at most `x`.
            let fx = b.filter(self.ties(x));
            assert(fx == a.filter(self.ties(x)));
            assert(fx.len() > 0);
            let v = fx[0];
            b.lemma_filter_pred(self.ties(x), 0);
            assert(fx.contains(v));
            b.lemma_filter_contains_rev(self.ties(x), v);
            let m = choose|m: int| 0 <= m < b.len() && b[m] == v;
            if m > 0 {
                assert(self.spec_compare(b[0], b[m]) != Comparison::Greater);
            }
            self.lemma_trans(y, v, x);
            self.lemma_flip(x, y);
            // So they rank equal and head the same filtered sequence.
            assert(self.spec_compare(y, x) == Comparison::Equal);
            lemma_filter_head(b, self.ties(x));
            assert(fx[0] == y);
            assert(a.filter(self.ties(x))[0] == x);
            assert(x == y);
            let at = a.drop_first();
            let bt = b.drop_first();
            assert forall|z: FileEntry| #[trigger] bt.filter(self.ties(z)) == at.filter(self.ties(z)) by {
                lemma_filter_head(a, self.ties(z));
                lemma_filter_head(b, self.ties(z));
                let h = if self.ties(z)(x) {
                    seq![x]
                } else {
                    Seq::<FileEntry>::empty()
                };
                assert(a.filter(self.ties(z)) == b.filter(self.ties(z)));
                assert(at.filter(self.ties(z)) =~= a.filter(self.ties(z)).skip(h.len() as int));
                assert(bt.filter(self.ties(z)) =~= b.filter(self.ties(z)).skip(h.len() as int));
            }
            assert forall|i: int, j: int| 0 <= i < j < at.len() implies self.spec_compare(at[i], at[j])
                != Comparison::Greater by {
                assert(at[i] == a[i + 1] && at[j] == a[j + 1]);
            }
            assert forall|i: int, j: int| 0 <= i < j < bt.len() implies self.spec_compare(bt[i], bt[j])
                != Comparison::Greater by {
                assert(bt[i] == b[i + 1] && bt[j] == b[j + 1]);
            }
            self.lemma_sorted_unique(at, bt);
            assert(a =~= seq![x] + at);
            assert(b =~= seq![y] + bt);
        }
    }
}

} // verus!
