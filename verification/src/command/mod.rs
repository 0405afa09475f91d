//! The `:` command line: parsing, execution, history and completion.

pub mod completer;
pub mod executor;
pub mod history;
pub mod parser;

use vstd::prelude::*;
use crate::edit::{byte_len, byte_length, char_index, insert_at, is_boundary, remove_before};
use history::CommandHistory;

verus! {

/// What is being typed after the `:` prompt.
pub struct CommandState {
    /// The text typed so far.
    pub input: String,
    /// The cursor, as a byte offset into `input`.
    pub cursor_pos: usize,
    /// Executed command lines.
    pub history: CommandHistory,
    /// Which history entry is shown, if one is.
    pub history_index: Option<usize>,
    /// Completion candidates for the current input.
    pub completions: Vec<String>,
    /// Which candidate was inserted last.
    pub completion_index: Option<usize>,
    /// The input as it was before browsing the history.
    pub saved_input: Option<String>,
}

/// What typing `c` at the cursor does: the character goes in at the
/// cursor, the cursor moves past it, and the candidates are dropped.
pub open spec fn typed(o: CommandState, n: CommandState, c: char) -> bool {
    &&& n.input@ == o.input@.insert(char_index(o.input@, o.cursor_pos as int), c)
    &&& is_boundary(n.input@, n.cursor_pos as int)
    &&& char_index(n.input@, n.cursor_pos as int) == char_index(o.input@, o.cursor_pos as int) + 1
    &&& n.history == o.history
    &&& n.history_index == o.history_index
    &&& n.saved_input == o.saved_input
    &&& n.completions@.len() == 0
    &&& n.completion_index is None
}

/// What Backspace does: nothing at the start of the line; otherwise the
/// character before the cursor goes, the cursor moves back over it, and
/// the candidates are dropped.
pub open spec fn deleted_back(o: CommandState, n: CommandState) -> bool {
    &&& o.cursor_pos == 0 ==> n == o
    &&& o.cursor_pos > 0 ==> {
        &&& n.input@ == o.input@.remove(char_index(o.input@, o.cursor_pos as int) - 1)
        &&& is_boundary(n.input@, n.cursor_pos as int)
        &&& char_index(n.input@, n.cursor_pos as int) == char_index(o.input@, o.cursor_pos as int) - 1
        &&& n.history == o.history
        &&& n.history_index == o.history_index
        &&& n.saved_input == o.saved_input
        &&& n.completions@.len() == 0
        &&& n.completion_index is None
    }
}

/// What the Up key does: the next older history entry is shown (the typed
/// line is saved when browsing starts); past the oldest, the line stays.
pub open spec fn went_back(o: CommandState, n: CommandState) -> bool {
    let next = match o.history_index {
        None => 0,
        Some(i) => i + 1,
    };
    &&& n.saved_input == (if o.history_index is None {
        Some(o.input)
    } else {
        o.saved_input
    })
    &&& n.history == o.history
    &&& n.completions == o.completions
    &&& n.completion_index == o.completion_index
    &&& if next < o.history@.len() {
        &&& n.input@ == o.history@[next]
        &&& n.cursor_pos == byte_len(n.input@)
        &&& n.history_index == Some(next as usize)
    } else {
        &&& n.input == o.input
        &&& n.cursor_pos == o.cursor_pos
        &&& n.history_index == o.history_index
    }
}

/// What the Down key does: the next newer history entry is shown, and
/// after the newest one the saved line comes back and browsing ends.
pub open spec fn went_forward(o: CommandState, n: CommandState) -> bool {
    &&& n.history == o.history
    &&& n.completions == o.completions
    &&& n.completion_index == o.completion_index
    &&& match o.history_index {
        None => n == o,
        Some(i) => if i == 0 {
            &&& n.input@ == match o.saved_input {
                Some(s) => s@,
                None => Seq::<char>::empty(),
            }
            &&& n.cursor_pos == byte_len(n.input@)
            &&& n.history_index is None
            &&& n.saved_input is None
        } else if i - 1 < o.history@.len() {
            &&& n.input@ == o.history@[i - 1]
            &&& n.cursor_pos == byte_len(n.input@)
            &&& n.history_index == Some((i - 1) as usize)
            &&& n.saved_input == o.saved_input
        } else {
            n == o
        },
    }
}

impl CommandState {
    /// A fresh command line over a history.
    pub fn new(history: CommandHistory) -> (r: Self)
        ensures
            r.input@ == Seq::<char>::empty(),
            r.cursor_pos == 0,
            r.history@ == history@,
            r.history.spec_file_path() == history.spec_file_path(),
            r.history_index is None,
            r.completions@.len() == 0,
            r.completion_index is None,
            r.saved_input is None,
    {
        CommandState {
            input: String::new(),
            cursor_pos: 0,
            history,
            history_index: None,
            completions: Vec::new(),
            completion_index: None,
            saved_input: None,
        }
    }

    /// Empties the command line when command mode starts; the history stays.
    pub fn reset(&mut self)
        ensures
            final(self).input@ == Seq::<char>::empty(),
            final(self).cursor_pos == 0,
            final(self).history == old(self).history,
            final(self).history_index is None,
            final(self).completions@.len() == 0,
            final(self).completion_index is None,
            final(self).saved_input is None,
    {
        self.input = String::new();
        self.cursor_pos = 0;
        self.history_index = None;
        self.completions = Vec::new();
        self.completion_index = None;
        self.saved_input = None;
    }

    /// Inserts a character at the cursor and moves the cursor past it.
    pub fn insert_char(&mut self, c: char)
        requires
            is_boundary(old(self).input@, old(self).cursor_pos as int),
            byte_len(old(self).input@) + 4 <= usize::MAX,
        ensures
            typed(*old(self), *final(self), c),
    {
        let (s, p) = insert_at(&self.input, self.cursor_pos, c);
        self.input = s;
        self.cursor_pos = p;
        self.clear_completions();
    }

    /// Deletes the character before the cursor, if there is one.
    pub fn backspace(&mut self)
        requires
            is_boundary(old(self).input@, old(self).cursor_pos as int),
        ensures
            deleted_back(*old(self), *final(self)),
    {
        if self.cursor_pos > 0 {
            let (s, p) = remove_before(&self.input, self.cursor_pos);
            self.input = s;
            self.cursor_pos = p;
            self.clear_completions();
        }
    }

    /// Shows the next older history entry, saving the typed input when
    /// browsing starts.
    pub fn history_prev(&mut self)
        requires
            old(self).history_index matches Some(i) ==> i < usize::MAX,
        ensures
            went_back(*old(self), *final(self)),
    {
        let next_index = match self.history_index {
            None => {
                self.saved_input = Some(self.input.clone());
                0
            },
            Some(i) => i + 1,
        };
        match self.history.get(next_index) {
            Some(cmd) => {
                let s = cmd.to_owned();
                self.input = s;
                self.cursor_pos = byte_length(self.input.as_str());
                self.history_index = Some(next_index);
            },
            None => {},
        }
    }

    /// Shows the next newer history entry, or the saved input after the
    /// newest one.
    pub fn history_next(&mut self)
        ensures
            went_forward(*old(self), *final(self)),
    {
        match self.history_index {
            None => {},
            Some(0) => {
                match self.saved_input.take() {
                    Some(saved) => {
                        self.input = saved;
                    },
                    None => {
                        self.input = String::new();
                    },
                }
                self.cursor_pos = byte_length(self.input.as_str());
                self.history_index = None;
            },
            Some(i) => {
                match self.history.get(i - 1) {
                    Some(cmd) => {
                        let s = cmd.to_owned();
                        self.input = s;
                        self.cursor_pos = byte_length(self.input.as_str());
                        self.history_index = Some(i - 1);
                    },
                    None => {},
                }
            },
        }
    }

    /// Drops the completion candidates.
    pub fn clear_completions(&mut self)
        ensures
            final(self).completions@.len() == 0,
            final(self).completion_index is None,
            final(self).input == old(self).input,
            final(self).cursor_pos == old(self).cursor_pos,
            final(self).history == old(self).history,
            final(self).history_index == old(self).history_index,
            final(self).saved_input == old(self).saved_input,
    {
        self.completions = Vec::new();
        self.completion_index = None;
    }
}


/// Typing a character and deleting it again with Backspace gives back the
/// command line and the cursor, with the candidates dropped and the
/// history browsing as it was.
pub proof fn lemma_type_then_delete(a: CommandState, b: CommandState, c: CommandState, ch: char)
    requires
        is_boundary(a.input@, a.cursor_pos as int),
        typed(a, b, ch),
        deleted_back(b, c),
    ensures
        c.input@ == a.input@,
        c.cursor_pos == a.cursor_pos,
        c.history == a.history,
        c.history_index == a.history_index,
        c.saved_input == a.saved_input,
        c.completions@.len() == 0,
        c.completion_index is None,
{
    let k = char_index(a.input@, a.cursor_pos as int);
    assert(0 <= k <= a.input@.len() && byte_len(a.input@.take(k)) == a.cursor_pos);
    let j = char_index(b.input@, b.cursor_pos as int);
    assert(0 <= j <= b.input@.len() && byte_len(b.input@.take(j)) == b.cursor_pos);
    if b.cursor_pos == 0 {
        crate::edit::lemma_start_boundary(b.input@);
        assert(j == 0);
    }
    assert(c.input@ =~= a.input@);
    let m = char_index(c.input@, c.cursor_pos as int);
    assert(0 <= m <= c.input@.len() && byte_len(c.input@.take(m)) == c.cursor_pos);
}

/// The state at `i + 1` is the one at `i` after the Up key.
pub open spec fn back_step(s: Seq<CommandState>, i: int) -> bool {
    went_back(s[i], s[i + 1])
}

/// The state at `i + 1` is the one at `i` after the Down key.
pub open spec fn forward_step(s: Seq<CommandState>, i: int) -> bool {
    went_forward(s[i], s[i + 1])
}

/// Going back through the history `k` times and forward `k` times gives
/// back the line that was typed, with the cursor at its end and browsing
/// over; `s` holds the states one key press apart.
pub proof fn lemma_history_round_trip(s: Seq<CommandState>, k: int)
    requires
        1 <= k <= s[0].history@.len(),
        s[0].history@.len() <= history::MAX_HISTORY_SIZE,
        s.len() == 2 * k + 1,
        s[0].history_index is None,
        forall|i: int| 0 <= i < k ==> #[trigger] back_step(s, i),
        forall|i: int| k <= i < 2 * k ==> #[trigger] forward_step(s, i),
    ensures
        s[2 * k].input@ == s[0].input@,
        s[2 * k].cursor_pos == byte_len(s[0].input@),
        s[2 * k].history_index is None,
        s[2 * k].saved_input is None,
        s[2 * k].history == s[0].history,
{
    lemma_back_steps(s, k, k);
    lemma_forward_steps(s, k, k - 1);
    assert(forward_step(s, 2 * k - 1));
}

/// After `j` steps back, the `j`-th newest entry is shown and the typed
/// line is saved.
proof fn lemma_back_steps(s: Seq<CommandState>, k: int, j: int)
    requires
        1 <= j <= k <= s[0].history@.len(),
        s[0].history@.len() <= history::MAX_HISTORY_SIZE,
        s.len() == 2 * k + 1,
        s[0].history_index is None,
        forall|i: int| 0 <= i < k ==> #[trigger] back_step(s, i),
    ensures
        s[j].history_index == Some((j - 1) as usize),
        s[j].saved_input == Some(s[0].input),
        s[j].history == s[0].history,
    decreases j,
{
    assert(back_step(s, j - 1));
    if j > 1 {
        lemma_back_steps(s, k, j - 1);
    }
}

/// After `m` steps forward from the `k`-th entry, the `k - m`-th newest
/// entry is shown and the typed line is still saved.
proof fn lemma_forward_steps(s: Seq<CommandState>, k: int, m: int)
    requires
        0 <= m < k <= s[0].history@.len(),
        s[0].history@.len() <= history::MAX_HISTORY_SIZE,
        s.len() == 2 * k + 1,
        s[0].history_index is None,
        forall|i: int| 0 <= i < k ==> #[trigger] back_step(s, i),
        forall|i: int| k <= i < 2 * k ==> #[trigger] forward_step(s, i),
    ensures
        s[k + m].history_index == Some((k - 1 - m) as usize),
        s[k + m].saved_input == Some(s[0].input),
        s[k + m].history == s[0].history,
    decreases m,
{
    if m == 0 {
        lemma_back_steps(s, k, k);
    } else {
        lemma_forward_steps(s, k, m - 1);
        assert(forward_step(s, k + m - 1));
    }
}

} // verus!
