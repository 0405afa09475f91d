//! The history of executed command lines, newest first.

use vstd::prelude::*;
use crate::text::{join, join_strings, lemma_until_nl, lines, lines_of, strip_cr, trim, trim_str, until_nl, views, str_eq};

verus! {

/// The most command lines a history keeps.
pub const MAX_HISTORY_SIZE: usize = 500;

/// Where the history is kept under the configuration directory.
pub const HISTORY_FILE: &'static str = "history";

/// Command history; entry 0 is the most recent.
pub struct CommandHistory {
    entries: Vec<String>,
    file_path: String,
}

impl View for CommandHistory {
    type V = Seq<Seq<char>>;

    closed spec fn view(&self) -> Seq<Seq<char>> {
        views(self.entries@)
    }
}

/// The smaller of two numbers.
pub open spec fn min_nat(a: nat, b: nat) -> nat {
    if a <= b {
        a
    } else {
        b
    }
}

/// The history a saved file holds: its lines, newest (last) first, at most
/// `MAX_HISTORY_SIZE` of them.
pub open spec fn history_of_content(content: Seq<char>) -> Seq<Seq<char>> {
    let l = lines(content).reverse();
    l.take(min_nat(l.len(), MAX_HISTORY_SIZE as nat) as int)
}

/// What a history file holds: the entries oldest first, one per line.
pub open spec fn content_of_history(h: Seq<Seq<char>>) -> Seq<char> {
    join(h.reverse(), "\n"@)
}

/// The history after recording `command`: blank lines and a repeat of the
/// newest entry are ignored; otherwise the trimmed line goes first and the
/// oldest entries beyond `MAX_HISTORY_SIZE` are dropped.
pub open spec fn pushed(h: Seq<Seq<char>>, command: Seq<char>) -> Seq<Seq<char>> {
    let c = trim(command);
    if c.len() == 0 {
        h
    } else if h.len() > 0 && h[0] == c {
        h
    } else {
        let n = seq![c] + h;
        n.take(min_nat(n.len(), MAX_HISTORY_SIZE as nat) as int)
    }
}

impl CommandHistory {
    #[verifier::type_invariant]
    spec fn bounded(self) -> bool {
        self.entries.len() <= MAX_HISTORY_SIZE
    }

    /// Where the history is saved.
    pub closed spec fn spec_file_path(&self) -> Seq<char> {
        self.file_path@
    }

    /// An empty history that is saved nowhere.
    pub fn empty() -> (h: Self)
        ensures
            h@ == Seq::<Seq<char>>::empty(),
            h.spec_file_path() == Seq::<char>::empty(),
    {
        let h = CommandHistory { entries: Vec::new(), file_path: String::new() };
        assert(h@ =~= Seq::<Seq<char>>::empty());
        h
    }

    /// The history that a saved file's content holds.
    pub fn from_content(content: &str, file_path: String) -> (h: Self)
        ensures
            h@ == history_of_content(content@),
            h.spec_file_path() == file_path@,
    {
        let all = lines_of(content);
        let mut entries: Vec<String> = Vec::new();
        let n = all.len();
        let mut i: usize = 0;
        while i < n && i < MAX_HISTORY_SIZE
            invariant
                n == all.len(),
                i <= n,
                i <= MAX_HISTORY_SIZE,
                views(entries@) == views(all@).reverse().take(i as int),
            decreases n - i,
        {
            let ghost old_e = entries@;
            entries.push(all[n - 1 - i].clone());
            proof {
                assert(views(all@).reverse()[i as int] == all@[n - 1 - i]@);
                assert(views(entries@) =~= views(old_e).push(all@[n - 1 - i]@));
                assert(views(entries@) =~= views(all@).reverse().take(i + 1));
            }
            i += 1;
        }
        let h = CommandHistory { entries, file_path };
        assert(h@ =~= history_of_content(content@));
        h
    }

    /// The text a history file holds for this history.
    pub fn content(&self) -> (r: String)
        ensures
            r@ == content_of_history(self@),
    {
        let mut oldest_first: Vec<String> = Vec::new();
        let n = self.entries.len();
        let mut i: usize = 0;
        while i < n
            invariant
                n == self.entries.len(),
                i <= n,
                views(oldest_first@) == views(self.entries@).reverse().take(i as int),
            decreases n - i,
        {
            let ghost old_e = oldest_first@;
            oldest_first.push(self.entries[n - 1 - i].clone());
            proof {
                assert(views(self.entries@).reverse()[i as int] == self.entries@[n - 1 - i]@);
                assert(views(oldest_first@) =~= views(old_e).push(self.entries@[n - 1 - i]@));
                assert(views(oldest_first@) =~= views(self.entries@).reverse().take(i + 1));
            }
            i += 1;
        }
        assert(views(self.entries@).reverse().take(n as int) =~= views(self.entries@).reverse());
        join_strings(&oldest_first, "\n")
    }

    /// Where the history is saved.
    pub fn file_path(&self) -> (r: &str)
        ensures
            r@ == self.spec_file_path(),
    {
        self.file_path.as_str()
    }

    /// Records an executed command line.
    pub fn push(&mut self, command: &str)
        ensures
            final(self)@ == pushed(old(self)@, command@),
            final(self).spec_file_path() == old(self).spec_file_path(),
    {
        proof {
            use_type_invariant(&*self);
        }
        let cmd = trim_str(command);
        if cmd.as_str().is_empty() {
            assert(trim(command@).len() == 0);
            return;
        }
        if self.entries.len() > 0 && str_eq(self.entries[0].as_str(), cmd.as_str()) {
            return;
        }
        let ghost before = self@;
        let mut entries = Vec::new();
        std::mem::swap(&mut entries, &mut self.entries);
        entries.insert(0, cmd);
        if entries.len() > MAX_HISTORY_SIZE {
            entries.truncate(MAX_HISTORY_SIZE);
        }
        self.entries = entries;
        assert(self@ =~= pushed(before, command@));
    }

    /// The entry `index` places back from the newest, if there is one.
    pub fn get(&self, index: usize) -> (r: Option<&str>)
        ensures
            r is Some <==> index < self@.len(),
            r matches Some(s) ==> s@ == self@[index as int],
    {
        if index < self.entries.len() {
            Some(self.entries[index].as_str())
        } else {
            None
        }
    }

    /// The number of entries.
    pub fn len(&self) -> (r: usize)
        ensures
            r == self@.len(),
            r <= MAX_HISTORY_SIZE,
    {
        proof {
            use_type_invariant(self);
        }
        self.entries.len()
    }
}


/// A history entry that a file keeps as it is: not empty, without a line
/// feed, not ending with a carriage return.
pub open spec fn keepable(e: Seq<char>) -> bool {
    &&& e.len() > 0
    &&& forall|i: int| 0 <= i < e.len() ==> e[i] != '\n'
    &&& e.last() != '\r'
}

/// Joining at least two parts puts the first one in front.
proof fn lemma_join_front(parts: Seq<Seq<char>>, sep: Seq<char>)
    requires
        parts.len() >= 2,
    ensures
        join(parts, sep) == parts[0] + sep + join(parts.drop_first(), sep),
    decreases parts.len(),
{
    if parts.len() == 2 {
        assert(parts.drop_last().len() == 1);
        assert(parts.drop_first().len() == 1);
        assert(parts.drop_first()[0] == parts.last());
        assert(parts.drop_last()[0] == parts[0]);
        assert(join(parts.drop_last(), sep) == parts[0]);
        assert(join(parts.drop_first(), sep) == parts.last());
        assert(join(parts, sep) =~= parts[0] + sep + join(parts.drop_first(), sep));
    } else {
        let d = parts.drop_last();
        lemma_join_front(d, sep);
        assert(d.drop_first() =~= parts.drop_first().drop_last());
        assert(d[0] == parts[0]);
        assert(parts.drop_first().last() == parts.last());
        assert(join(parts.drop_first(), sep) == join(parts.drop_first().drop_last(), sep) + sep + parts.last());
        assert(join(parts, sep) =~= parts[0] + sep + join(parts.drop_first(), sep));
    }
}

/// Splitting lines undoes joining keepable lines with line feeds.
pub proof fn lemma_lines_join(parts: Seq<Seq<char>>)
    requires
        forall|i: int| 0 <= i < parts.len() ==> keepable(#[trigger] parts[i]),
    ensures
        lines(join(parts, "\n"@)) == parts,
    decreases parts.len(),
{
    reveal_strlit("\n");
    let nl = "\n"@;
    if parts.len() == 0 {
        assert(lines(Seq::<char>::empty()) =~= Seq::<Seq<char>>::empty());
    } else if parts.len() == 1 {
        let p = parts[0];
        assert(keepable(p));
        assert(join(parts, nl) == p);
        lemma_until_nl(p, p.len() as int);
        assert(lines(p) =~= seq![p]);
        assert(parts =~= seq![p]);
    } else {
        let p = parts[0];
        let rest = parts.drop_first();
        assert(keepable(p));
        assert forall|i: int| 0 <= i < rest.len() implies keepable(#[trigger] rest[i]) by {
            assert(rest[i] == parts[i + 1]);
        }
        lemma_join_front(parts, nl);
        let r = join(rest, nl);
        let s = p + nl + r;
        assert(s[p.len() as int] == '\n');
        assert forall|j: int| 0 <= j < p.len() implies #[trigger] s[j] != '\n' by {
            assert(s[j] == p[j]);
        }
        lemma_until_nl(s, p.len() as int);
        assert(s.take(p.len() as int) =~= p);
        assert(strip_cr(p) == p);
        assert(s.skip(p.len() as int + 1) =~= r);
        lemma_lines_join(rest);
        assert(lines(s) == seq![p] + lines(r));
        assert(parts =~= seq![p] + rest);
    }
}

/// Saving a history and loading the file back gives the same history, when
/// every entry is keepable.
pub proof fn lemma_save_load(h: Seq<Seq<char>>)
    requires
        h.len() <= MAX_HISTORY_SIZE,
        forall|i: int| 0 <= i < h.len() ==> keepable(#[trigger] h[i]),
    ensures
        history_of_content(content_of_history(h)) == h,
{
    let r = h.reverse();
    assert forall|i: int| 0 <= i < r.len() implies keepable(#[trigger] r[i]) by {
        assert(r[i] == h[h.len() - 1 - i]);
    }
    lemma_lines_join(r);
    assert(r.reverse() =~= h);
    assert(h.take(h.len() as int) =~= h);
}

/// Recording the same command line twice records it once.
pub proof fn lemma_push_twice(h: Seq<Seq<char>>, command: Seq<char>)
    ensures
        pushed(pushed(h, command), command) == pushed(h, command),
{
    let c = trim(command);
    if c.len() > 0 && !(h.len() > 0 && h[0] == c) {
        let n = seq![c] + h;
        let p = n.take(min_nat(n.len(), MAX_HISTORY_SIZE as nat) as int);
        assert(p[0] == c);
    }
}

/// Recording a command line keeps at most the maximum number of entries,
/// and a line with text becomes the newest entry, trimmed.
pub proof fn lemma_push_newest(h: Seq<Seq<char>>, command: Seq<char>)
    requires
        h.len() <= MAX_HISTORY_SIZE,
    ensures
        pushed(h, command).len() <= MAX_HISTORY_SIZE,
        trim(command).len() > 0 ==> pushed(h, command)[0] == trim(command),
{
}

} // verus!
